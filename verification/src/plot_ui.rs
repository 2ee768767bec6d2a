use vstd::prelude::*;

use crate::items::{
    Arrows, BarChart, BoxPlot, HLine, ItemShape, Line, PlotImage, PlotItem, Points, Polygon, Text, VLine,
};

verus! {

/// The automatic colour indices that `items` carry, in the order of the items.
pub open spec fn auto_colors<T>(items: Seq<PlotItem<T>>) -> Seq<usize>
    decreases items.len(),
{
    if items.len() == 0 {
        Seq::empty()
    } else {
        let init = auto_colors(items.drop_last());
        match items.last().auto_color {
            Some(c) => init.push(c),
            None => init,
        }
    }
}

/// The indices `0, 1, ..., n - 1`.
pub open spec fn first_indices(n: nat) -> Seq<usize> {
    Seq::new(n, |i: int| i as usize)
}

/// Items never carry more automatic colours than there are items.
proof fn lemma_auto_colors_len<T>(items: Seq<PlotItem<T>>)
    ensures
        auto_colors(items).len() <= items.len(),
    decreases items.len(),
{
    if items.len() > 0 {
        lemma_auto_colors_len(items.drop_last());
    }
}

/// Appending an item adds its automatic colour, if it has one, at the end.
proof fn lemma_auto_colors_push<T>(items: Seq<PlotItem<T>>, item: PlotItem<T>)
    ensures
        auto_colors(items.push(item)) == match item.auto_color {
            Some(c) => auto_colors(items).push(c),
            None => auto_colors(items),
        },
{
    assert(items.push(item).drop_last() =~= items);
}

/// Where an item with an automatic colour finds it in `auto_colors`.
proof fn lemma_auto_color_position<T>(items: Seq<PlotItem<T>>, i: int) -> (a: int)
    requires
        0 <= i < items.len(),
        items[i].auto_color is Some,
    ensures
        0 <= a < auto_colors(items).len(),
        auto_colors(items)[a] == items[i].auto_color.unwrap(),
    decreases items.len(),
{
    let init = items.drop_last();
    if i == items.len() - 1 {
        auto_colors(init).len() as int
    } else {
        lemma_auto_color_position(init, i)
    }
}

/// Two items with automatic colours find them in `auto_colors` in their own order.
proof fn lemma_auto_color_positions<T>(items: Seq<PlotItem<T>>, i: int, j: int) -> (ab: (int, int))
    requires
        0 <= i < j < items.len(),
        items[i].auto_color is Some,
        items[j].auto_color is Some,
    ensures
        0 <= ab.0 < ab.1 < auto_colors(items).len(),
        auto_colors(items)[ab.0] == items[i].auto_color.unwrap(),
        auto_colors(items)[ab.1] == items[j].auto_color.unwrap(),
    decreases items.len(),
{
    let init = items.drop_last();
    if j == items.len() - 1 {
        let a = lemma_auto_color_position(init, i);
        (a, auto_colors(init).len() as int)
    } else {
        lemma_auto_color_positions(init, i, j)
    }
}

/// Automatic colours are handed out in the order in which items are added: of two
/// items of a plot that both took one, the earlier has the smaller index, so no two
/// items share an automatic colour, and each is below the next one to hand out.
pub proof fn lemma_auto_colors_distinct<T, B>(ui: &PlotUi<T, B>, i: int, j: int)
    requires
        ui.wf(),
        0 <= i < j < ui.spec_items().len(),
        ui.spec_items()[i].auto_color is Some,
        ui.spec_items()[j].auto_color is Some,
    ensures
        ui.spec_items()[i].auto_color.unwrap() < ui.spec_items()[j].auto_color.unwrap(),
        ui.spec_items()[j].auto_color.unwrap() < ui.spec_next_auto_color(),
{
    let (a, b) = lemma_auto_color_positions(ui.spec_items(), i, j);
}

/// An item added to a plot takes an automatic colour exactly when it chose none,
/// and then the first one not yet handed out: the number of automatic colours that
/// the plot's items already took. The items before it keep theirs.
pub proof fn lemma_added_item_color<T, B>(
    ui: &PlotUi<T, B>,
    next: &PlotUi<T, B>,
    shape: ItemShape<T>,
    wants_color: bool,
    highlighted: bool,
)
    requires
        ui.wf(),
        ui.adds(next, shape, wants_color, highlighted),
    ensures
        next.spec_items().len() == ui.spec_items().len() + 1,
        next.spec_items().last().auto_color is Some <==> wants_color,
        wants_color ==> next.spec_items().last().auto_color == Some(auto_colors(ui.spec_items()).len() as usize),
        forall|i: int| 0 <= i < ui.spec_items().len() ==> next.spec_items()[i] == #[trigger] ui.spec_items()[i],
        next.spec_next_auto_color() == auto_colors(next.spec_items()).len(),
{
    let item = next.spec_items().last();
    assert(next.spec_items().drop_last() =~= ui.spec_items());
    assert(auto_colors(next.spec_items()) == match item.auto_color {
        Some(c) => auto_colors(ui.spec_items()).push(c),
        None => auto_colors(ui.spec_items()),
    });
}

/// The items of a plot and the next automatic colour to hand out.
struct ItemList<T> {
    items: Vec<PlotItem<T>>,
    next_auto_color_idx: usize,
}

/// The state of a plot while its items are being added: the items so far, the
/// next automatic colour to hand out, whether the plot area is hovered or was
/// clicked in this frame, and the bounds the plot showed in the last frame, of
/// the caller's type `B`.
pub struct PlotUi<T, B> {
    list: ItemList<T>,
    hovered: bool,
    clicked: bool,
    last_bounds: B,
}

impl<T, B> PlotUi<T, B> {
    /// The items added so far, in the order in which they were added.
    pub closed spec fn spec_items(&self) -> Seq<PlotItem<T>> {
        self.list.items@
    }

    /// The index of the next automatic colour.
    pub closed spec fn spec_next_auto_color(&self) -> nat {
        self.list.next_auto_color_idx as nat
    }

    pub closed spec fn spec_hovered(&self) -> bool {
        self.hovered
    }

    pub closed spec fn spec_clicked(&self) -> bool {
        self.clicked
    }

    /// The bounds the plot showed in the last frame.
    pub closed spec fn spec_bounds(&self) -> B {
        self.last_bounds
    }

    /// The automatic colours handed out so far are `0, 1, ...`, each to one item,
    /// in the order in which the items were added. Every `PlotUi` keeps this.
    #[verifier::type_invariant]
    pub open spec fn wf(&self) -> bool {
        auto_colors(self.spec_items()) == first_indices(self.spec_next_auto_color())
    }

    /// The automatic colour that an item added now receives: the next one where it
    /// chose no colour, none otherwise.
    pub open spec fn auto_color_for(&self, wanted: bool) -> Option<usize> {
        if wanted {
            Some(self.spec_next_auto_color() as usize)
        } else {
            None
        }
    }

    /// `next` is `self` with `item` appended: the earlier items are kept as they
    /// were, the automatic colour advances where the item took one, and nothing
    /// else changes.
    pub open spec fn appended(&self, next: &Self, item: PlotItem<T>) -> bool {
        &&& next.spec_items() == self.spec_items().push(item)
        &&& next.spec_next_auto_color() == self.spec_next_auto_color() + if item.auto_color is Some {
            1nat
        } else {
            0nat
        }
        &&& next.spec_hovered() == self.spec_hovered()
        &&& next.spec_clicked() == self.spec_clicked()
        &&& next.spec_bounds() == self.spec_bounds()
    }

    /// `next` keeps what `self` holds: its items come first, in their order, and
    /// whether the plot is hovered or was clicked, and the last frame's bounds,
    /// are unchanged. This is what adding any item does.
    pub open spec fn extends(&self, next: &Self) -> bool {
        &&& self.spec_items().len() <= next.spec_items().len()
        &&& next.spec_items().subrange(0, self.spec_items().len() as int) == self.spec_items()
        &&& next.spec_hovered() == self.spec_hovered()
        &&& next.spec_clicked() == self.spec_clicked()
        &&& next.spec_bounds() == self.spec_bounds()
    }

    /// `next` is `self` with the item made of `shape` appended, which takes the
    /// next automatic colour where `wants_color` holds.
    pub open spec fn adds(&self, next: &Self, shape: ItemShape<T>, wants_color: bool, highlighted: bool) -> bool {
        self.appended(
            next,
            PlotItem { shape, auto_color: self.auto_color_for(wants_color), highlighted },
        )
    }

    /// A plot with no items yet, whose area is hovered or was clicked as given,
    /// and which showed `last_bounds` in the last frame.
    pub fn new(hovered: bool, clicked: bool, last_bounds: B) -> (ui: Self)
        ensures
            ui.wf(),
            ui.spec_items() == Seq::<PlotItem<T>>::empty(),
            ui.spec_next_auto_color() == 0,
            ui.spec_hovered() == hovered,
            ui.spec_clicked() == clicked,
            ui.spec_bounds() == last_bounds,
    {
        assert(first_indices(0) =~= Seq::<usize>::empty());
        PlotUi { list: ItemList { items: Vec::new(), next_auto_color_idx: 0 }, hovered, clicked, last_bounds }
    }

    /// The plot bounds as they were in the last frame. They do not change while
    /// items are added, until the plot is drawn.
    pub fn plot_bounds(&self) -> (b: B)
        where
            B: Copy,
        ensures
            b == self.spec_bounds(),
    {
        self.last_bounds
    }

    /// Returns `true` if the plot area is currently hovered.
    pub fn plot_hovered(&self) -> (b: bool)
        ensures
            b == self.spec_hovered(),
    {
        self.hovered
    }

    /// Returns `true` if the plot was clicked by the primary button.
    pub fn plot_clicked(&self) -> (b: bool)
        ensures
            b == self.spec_clicked(),
    {
        self.clicked
    }

    /// The items added so far.
    pub fn items(&self) -> (v: &Vec<PlotItem<T>>)
        ensures
            v@ == self.spec_items(),
    {
        &self.list.items
    }

    /// The items added so far, taken out of the plot.
    pub fn into_items(self) -> (v: Vec<PlotItem<T>>)
        ensures
            v@ == self.spec_items(),
    {
        self.list.items
    }

    /// Add a data line. A line with no values is left out; one whose stroke chose no colour takes the next automatic colour.
    pub fn line(&mut self, line: Line<T>)
        ensures
            final(self).wf(),
            old(self).extends(final(self)),
            line.series@.len() == 0 ==> *final(self) == *old(self),
            line.series@.len() > 0 ==> old(self).adds(final(self), ItemShape::Line(line), line.color.spec_is_transparent(), line.highlight),
    {
        proof {
            use_type_invariant(&*self);
        }
        if line.series.is_empty() {
            proof {
                assert(self.spec_items().subrange(0, self.spec_items().len() as int) =~= self.spec_items());
            }
            return;
        }
        let wants_color = line.color.is_transparent();
        let highlighted = line.highlight;
        self.push_item(ItemShape::Line(line), wants_color, highlighted);
    }

    /// Add a polygon. The polygon has to be convex. A polygon with no values is left out; one whose stroke chose no colour takes the next automatic colour.
    pub fn polygon(&mut self, polygon: Polygon<T>)
        ensures
            final(self).wf(),
            old(self).extends(final(self)),
            polygon.series@.len() == 0 ==> *final(self) == *old(self),
            polygon.series@.len() > 0 ==> old(self).adds(final(self), ItemShape::Polygon(polygon), polygon.color.spec_is_transparent(), polygon.highlight),
    {
        proof {
            use_type_invariant(&*self);
        }
        if polygon.series.is_empty() {
            proof {
                assert(self.spec_items().subrange(0, self.spec_items().len() as int) =~= self.spec_items());
            }
            return;
        }
        let wants_color = polygon.color.is_transparent();
        let highlighted = polygon.highlight;
        self.push_item(ItemShape::Polygon(polygon), wants_color, highlighted);
    }

    /// Add a text. An empty text is left out; a text keeps its own colour.
    pub fn text(&mut self, text: Text<T>)
        ensures
            final(self).wf(),
            old(self).extends(final(self)),
            text.text@.len() == 0 ==> *final(self) == *old(self),
            text.text@.len() > 0 ==> old(self).adds(final(self), ItemShape::Text(text), false, text.highlight),
    {
        proof {
            use_type_invariant(&*self);
        }
        if text.text.as_str().is_empty() {
            proof {
                assert(self.spec_items().subrange(0, self.spec_items().len() as int) =~= self.spec_items());
            }
            return;
        }
        let wants_color = false;
        let highlighted = text.highlight;
        self.push_item(ItemShape::Text(text), wants_color, highlighted);
    }

    /// Add data points. Points with no values are left out; points that chose no colour take the next automatic colour.
    pub fn points(&mut self, points: Points<T>)
        ensures
            final(self).wf(),
            old(self).extends(final(self)),
            points.series@.len() == 0 ==> *final(self) == *old(self),
            points.series@.len() > 0 ==> old(self).adds(final(self), ItemShape::Points(points), points.color.spec_is_transparent(), points.highlight),
    {
        proof {
            use_type_invariant(&*self);
        }
        if points.series.is_empty() {
            proof {
                assert(self.spec_items().subrange(0, self.spec_items().len() as int) =~= self.spec_items());
            }
            return;
        }
        let wants_color = points.color.is_transparent();
        let highlighted = points.highlight;
        self.push_item(ItemShape::Points(points), wants_color, highlighted);
    }

    /// Add arrows. Arrows without origins or without tips are left out; arrows that chose no colour take the next automatic colour.
    pub fn arrows(&mut self, arrows: Arrows<T>)
        ensures
            final(self).wf(),
            old(self).extends(final(self)),
            (arrows.origins@.len() == 0 || arrows.tips@.len() == 0) ==> *final(self) == *old(self),
            !(arrows.origins@.len() == 0 || arrows.tips@.len() == 0) ==> old(self).adds(final(self), ItemShape::Arrows(arrows), arrows.color.spec_is_transparent(), arrows.highlight),
    {
        proof {
            use_type_invariant(&*self);
        }
        if arrows.origins.is_empty() || arrows.tips.is_empty() {
            proof {
                assert(self.spec_items().subrange(0, self.spec_items().len() as int) =~= self.spec_items());
            }
            return;
        }
        let wants_color = arrows.color.is_transparent();
        let highlighted = arrows.highlight;
        self.push_item(ItemShape::Arrows(arrows), wants_color, highlighted);
    }

    /// Add an image. An image is always added and keeps its own colours.
    pub fn image(&mut self, image: PlotImage<T>)
        ensures
            final(self).wf(),
            old(self).extends(final(self)),
            old(self).adds(final(self), ItemShape::Image(image), false, image.highlight),
    {
        proof {
            use_type_invariant(&*self);
        }
        let wants_color = false;
        let highlighted = image.highlight;
        self.push_item(ItemShape::Image(image), wants_color, highlighted);
    }

    /// Add a horizontal line, which always fills the full width of the plot. A line whose stroke chose no colour takes the next automatic colour.
    pub fn hline(&mut self, hline: HLine<T>)
        ensures
            final(self).wf(),
            old(self).extends(final(self)),
            old(self).adds(final(self), ItemShape::HLine(hline), hline.color.spec_is_transparent(), hline.highlight),
    {
        proof {
            use_type_invariant(&*self);
        }
        let wants_color = hline.color.is_transparent();
        let highlighted = hline.highlight;
        self.push_item(ItemShape::HLine(hline), wants_color, highlighted);
    }

    /// Add a vertical line, which always fills the full height of the plot. A line whose stroke chose no colour takes the next automatic colour.
    pub fn vline(&mut self, vline: VLine<T>)
        ensures
            final(self).wf(),
            old(self).extends(final(self)),
            old(self).adds(final(self), ItemShape::VLine(vline), vline.color.spec_is_transparent(), vline.highlight),
    {
        proof {
            use_type_invariant(&*self);
        }
        let wants_color = vline.color.is_transparent();
        let highlighted = vline.highlight;
        self.push_item(ItemShape::VLine(vline), wants_color, highlighted);
    }

    /// Add a box plot diagram. A diagram without boxes is left out; one whose default colour is transparent takes the next automatic colour as its default colour.
    pub fn box_plot(&mut self, box_plot: BoxPlot<T>)
        ensures
            final(self).wf(),
            old(self).extends(final(self)),
            box_plot.boxes@.len() == 0 ==> *final(self) == *old(self),
            box_plot.boxes@.len() > 0 ==> old(self).adds(final(self), ItemShape::BoxPlot(box_plot), box_plot.default_color.spec_is_transparent(), box_plot.highlight),
    {
        proof {
            use_type_invariant(&*self);
        }
        if box_plot.boxes.is_empty() {
            proof {
                assert(self.spec_items().subrange(0, self.spec_items().len() as int) =~= self.spec_items());
            }
            return;
        }
        let wants_color = box_plot.default_color.is_transparent();
        let highlighted = box_plot.highlight;
        self.push_item(ItemShape::BoxPlot(box_plot), wants_color, highlighted);
    }

    /// Add a bar chart. A chart without bars is left out; one whose default colour is transparent takes the next automatic colour as its default colour.
    pub fn bar_chart(&mut self, chart: BarChart<T>)
        ensures
            final(self).wf(),
            old(self).extends(final(self)),
            chart.bars@.len() == 0 ==> *final(self) == *old(self),
            chart.bars@.len() > 0 ==> old(self).adds(final(self), ItemShape::BarChart(chart), chart.default_color.spec_is_transparent(), chart.highlight),
    {
        proof {
            use_type_invariant(&*self);
        }
        if chart.bars.is_empty() {
            proof {
                assert(self.spec_items().subrange(0, self.spec_items().len() as int) =~= self.spec_items());
            }
            return;
        }
        let wants_color = chart.default_color.is_transparent();
        let highlighted = chart.highlight;
        self.push_item(ItemShape::BarChart(chart), wants_color, highlighted);
    }

    /// Appends an item, giving it the next automatic colour where `wants_color`.
    fn push_item(&mut self, shape: ItemShape<T>, wants_color: bool, highlighted: bool)
        ensures
            final(self).wf(),
            old(self).adds(final(self), shape, wants_color, highlighted),
            old(self).extends(final(self)),
    {
        proof {
            use_type_invariant(&*self);
            assert(first_indices(0) =~= Seq::<usize>::empty());
        }
        let mut list = ItemList { items: Vec::new(), next_auto_color_idx: 0 };
        std::mem::swap(&mut list, &mut self.list);
        let ghost before = list.items@;
        let auto_color = if wants_color {
            Some(list.next_auto_color_idx)
        } else {
            None
        };
        let item = PlotItem { shape, auto_color, highlighted };
        list.items.push(item);
        proof {
            lemma_auto_colors_push(before, item);
            lemma_auto_colors_len(before);
        }
        let len = list.items.len();
        if wants_color {
            assert(list.next_auto_color_idx < len);
            let ghost n = list.next_auto_color_idx;
            list.next_auto_color_idx = list.next_auto_color_idx + 1;
            assert(first_indices(n as nat).push(n) =~= first_indices(list.next_auto_color_idx as nat));
        }
        self.list = list;
        assert(self.spec_items().subrange(0, before.len() as int) =~= before);
    }
}


/// Each state of `states` extends the one before it, as adding an item does.
pub open spec fn each_extends<T, B>(states: Seq<PlotUi<T, B>>) -> bool
    decreases states.len(),
{
    states.len() <= 1 || {
        &&& each_extends(states.drop_last())
        &&& states[states.len() - 2].extends(&states.last())
    }
}

/// `extends` is transitive.
proof fn lemma_extends_transitive<T, B>(a: PlotUi<T, B>, b: PlotUi<T, B>, c: PlotUi<T, B>)
    requires
        a.extends(&b),
        b.extends(&c),
    ensures
        a.extends(&c),
{
    let n = a.spec_items().len() as int;
    assert(c.spec_items().subrange(0, n) =~= c.spec_items().subrange(0, b.spec_items().len() as int).subrange(0, n));
}

/// Adding items, in any number and of any kinds, keeps what a plot held: its
/// earlier items come first, in their order, whether it is hovered or was clicked
/// is unchanged, and so are the last frame's bounds, which do not change until the
/// plot is drawn.
pub proof fn lemma_adding_keeps_plot<T, B>(states: Seq<PlotUi<T, B>>)
    requires
        states.len() > 0,
        each_extends(states),
    ensures
        states[0].extends(&states.last()),
        states.last().spec_bounds() == states[0].spec_bounds(),
    decreases states.len(),
{
    if states.len() == 1 {
        let a = states[0];
        assert(a.spec_items().subrange(0, a.spec_items().len() as int) =~= a.spec_items());
    } else {
        let init = states.drop_last();
        lemma_adding_keeps_plot(init);
        assert(init.last() == states[states.len() - 2]);
        lemma_extends_transitive(states[0], init.last(), states.last());
    }
}

} // verus!
