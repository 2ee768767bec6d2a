use vstd::prelude::*;

use epaint::ahash::AHashSet;

use crate::items::PlotItem;
use crate::link::{aspect_preserves_y, AxisBounds, LinkedAxisGroup};
use crate::plot::{Plot, PointerButton};
use crate::names::{name_set, names_contain, no_names};

verus! {

/// The item as the plot draws it this frame: highlighted where its name is the
/// legend entry under the pointer.
pub open spec fn mark_hovered<T>(item: PlotItem<T>, hovered: Option<Seq<char>>) -> PlotItem<T> {
    if hovered matches Some(name) && item.spec_name() == name {
        item.spec_highlight()
    } else {
        item
    }
}

/// The items whose names are not hidden, in their order, each marked where it is
/// hovered in the legend.
pub open spec fn shown_items<T>(
    items: Seq<PlotItem<T>>,
    hidden: Set<Seq<char>>,
    hovered: Option<Seq<char>>,
) -> Seq<PlotItem<T>>
    decreases items.len(),
{
    if items.len() == 0 {
        Seq::empty()
    } else {
        let init = shown_items(items.drop_last(), hidden, hovered);
        if hidden.contains(items.last().spec_name()) {
            init
        } else {
            init.push(mark_hovered(items.last(), hovered))
        }
    }
}

/// The items that are highlighted where `highlighted`, the others otherwise, in
/// their order.
pub open spec fn with_highlight<T>(items: Seq<PlotItem<T>>, highlighted: bool) -> Seq<PlotItem<T>>
    decreases items.len(),
{
    if items.len() == 0 {
        Seq::empty()
    } else {
        let init = with_highlight(items.drop_last(), highlighted);
        if items.last().highlighted == highlighted {
            init.push(items.last())
        } else {
            init
        }
    }
}

/// The order in which a plot draws its items: the shown items that are not
/// highlighted, then the highlighted ones on top, each group in the order of
/// `items`.
pub open spec fn draw_order<T>(
    items: Seq<PlotItem<T>>,
    hidden: Set<Seq<char>>,
    hovered: Option<Seq<char>>,
) -> Seq<PlotItem<T>> {
    let shown = shown_items(items, hidden, hovered);
    with_highlight(shown, false) + with_highlight(shown, true)
}

/// Each item that `with_highlight` keeps has the asked highlighting and is one of
/// the given items.
proof fn lemma_with_highlight<T>(items: Seq<PlotItem<T>>, highlighted: bool)
    ensures
        forall|i: int|
            0 <= i < with_highlight(items, highlighted).len() ==> {
                &&& (#[trigger] with_highlight(items, highlighted)[i]).highlighted == highlighted
                &&& items.contains(with_highlight(items, highlighted)[i])
            },
    decreases items.len(),
{
    if items.len() > 0 {
        let init = items.drop_last();
        lemma_with_highlight(init, highlighted);
        assert forall|i: int| 0 <= i < with_highlight(items, highlighted).len() implies
            items.contains(#[trigger] with_highlight(items, highlighted)[i]) by {
            if i < with_highlight(init, highlighted).len() {
                let j = choose|j: int| 0 <= j < init.len() && init[j] == with_highlight(init, highlighted)[i];
                assert(items[j] == init[j]);
            } else {
                assert(items[items.len() - 1] == items.last());
            }
        }
    }
}

/// Splitting items into those not highlighted and those highlighted keeps each
/// item exactly once.
proof fn lemma_with_highlight_multiset<T>(items: Seq<PlotItem<T>>)
    ensures
        (with_highlight(items, false) + with_highlight(items, true)).to_multiset() =~= items.to_multiset(),
    decreases items.len(),
{
    broadcast use vstd::seq_lib::group_to_multiset_ensures, vstd::seq_lib::lemma_multiset_commutative;

    if items.len() == 0 {
        assert(with_highlight(items, false) + with_highlight(items, true) =~= Seq::<PlotItem<T>>::empty());
    } else {
        let init = items.drop_last();
        lemma_with_highlight_multiset(init);
        assert(items =~= init.push(items.last()));
    }
}

/// A shown item is not hidden, and it is highlighted where it is the hovered entry.
proof fn lemma_shown_items<T>(items: Seq<PlotItem<T>>, hidden: Set<Seq<char>>, hovered: Option<Seq<char>>)
    ensures
        forall|i: int|
            0 <= i < shown_items(items, hidden, hovered).len() ==> {
                &&& !hidden.contains((#[trigger] shown_items(items, hidden, hovered)[i]).spec_name())
                &&& (hovered matches Some(name) && shown_items(items, hidden, hovered)[i].spec_name() == name
                    ==> shown_items(items, hidden, hovered)[i].highlighted)
            },
    decreases items.len(),
{
    if items.len() > 0 {
        lemma_shown_items(items.drop_last(), hidden, hovered);
    }
}

/// The items that a plot draws are the items whose names the legend has not
/// hidden, each exactly once; none of them is hidden; the items named by the
/// hovered legend entry are highlighted; and every highlighted item is drawn
/// after every item that is not.
pub proof fn lemma_draw_order<T>(items: Seq<PlotItem<T>>, hidden: Set<Seq<char>>, hovered: Option<Seq<char>>)
    ensures
        draw_order(items, hidden, hovered).to_multiset() =~= shown_items(items, hidden, hovered).to_multiset(),
        forall|i: int|
            0 <= i < draw_order(items, hidden, hovered).len() ==> !hidden.contains(
                (#[trigger] draw_order(items, hidden, hovered)[i]).spec_name(),
            ),
        forall|i: int|
            0 <= i < draw_order(items, hidden, hovered).len() && (hovered matches Some(name)
                && (#[trigger] draw_order(items, hidden, hovered)[i]).spec_name() == name)
                ==> draw_order(items, hidden, hovered)[i].highlighted,
        forall|i: int, j: int|
            0 <= i < j < draw_order(items, hidden, hovered).len()
                && (#[trigger] draw_order(items, hidden, hovered)[i]).highlighted
                ==> (#[trigger] draw_order(items, hidden, hovered)[j]).highlighted,
{
    let shown = shown_items(items, hidden, hovered);
    let lower = with_highlight(shown, false);
    let upper = with_highlight(shown, true);
    let out = draw_order(items, hidden, hovered);
    lemma_with_highlight_multiset(shown);
    lemma_with_highlight(shown, false);
    lemma_with_highlight(shown, true);
    lemma_shown_items(items, hidden, hovered);
    assert forall|i: int| 0 <= i < out.len() implies shown.contains(#[trigger] out[i]) by {
        if i < lower.len() {
            assert(out[i] == lower[i]);
        } else {
            assert(out[i] == upper[i - lower.len()]);
        }
    }
    assert forall|i: int| 0 <= i < out.len() implies {
        &&& !hidden.contains((#[trigger] out[i]).spec_name())
        &&& (hovered matches Some(name) && out[i].spec_name() == name ==> out[i].highlighted)
    } by {
        assert(shown.contains(out[i]));
        let k = choose|k: int| 0 <= k < shown.len() && shown[k] == out[i];
        assert(shown[k] == out[i]);
    }
    assert forall|i: int, j: int| 0 <= i < j < out.len() && (#[trigger] out[i]).highlighted implies (#[trigger] out[j]).highlighted by {
        if i < lower.len() {
            assert(out[i] == lower[i]);
        }
        assert(out[j] == upper[j - lower.len()]);
    }
}

/// An item as it is drawn: unchanged but for its highlighting, which it keeps and
/// gains where its name is the hovered entry.
spec fn drawn_form<T>(item: PlotItem<T>, hovered: Option<Seq<char>>) -> PlotItem<T> {
    PlotItem {
        shape: item.shape,
        auto_color: item.auto_color,
        highlighted: item.highlighted || hovered == Some(item.spec_name()),
    }
}

/// Each shown item is the drawn form of a not-hidden item.
proof fn lemma_shown_from_items<T>(items: Seq<PlotItem<T>>, hidden: Set<Seq<char>>, hovered: Option<Seq<char>>)
    ensures
        forall|k: int|
            0 <= k < shown_items(items, hidden, hovered).len() ==> exists|j: int|
                0 <= j < items.len() && !hidden.contains(items[j].spec_name())
                    && #[trigger] shown_items(items, hidden, hovered)[k] == drawn_form(items[j], hovered),
    decreases items.len(),
{
    if items.len() > 0 {
        let init = items.drop_last();
        lemma_shown_from_items(init, hidden, hovered);
        let shown = shown_items(items, hidden, hovered);
        assert forall|k: int| 0 <= k < shown.len() implies exists|j: int|
            0 <= j < items.len() && !hidden.contains(items[j].spec_name())
                && #[trigger] shown[k] == drawn_form(items[j], hovered) by {
            if k < shown_items(init, hidden, hovered).len() {
                let j = choose|j: int|
                    0 <= j < init.len() && !hidden.contains(init[j].spec_name())
                        && #[trigger] shown_items(init, hidden, hovered)[k] == drawn_form(init[j], hovered);
                assert(items[j] == init[j]);
            } else {
                let j = items.len() - 1;
                assert(items[j] == items.last());
                assert(shown[k] == drawn_form(items[j], hovered));
            }
        }
    }
}

/// The drawn form of each not-hidden item is shown.
proof fn lemma_items_are_shown<T>(items: Seq<PlotItem<T>>, hidden: Set<Seq<char>>, hovered: Option<Seq<char>>)
    ensures
        forall|j: int|
            0 <= j < items.len() && !hidden.contains(#[trigger] items[j].spec_name()) ==> exists|k: int|
                0 <= k < shown_items(items, hidden, hovered).len()
                    && shown_items(items, hidden, hovered)[k] == drawn_form(items[j], hovered),
    decreases items.len(),
{
    if items.len() > 0 {
        let init = items.drop_last();
        lemma_items_are_shown(init, hidden, hovered);
        let shown = shown_items(items, hidden, hovered);
        let shown_init = shown_items(init, hidden, hovered);
        assert forall|j: int| 0 <= j < items.len() && !hidden.contains(#[trigger] items[j].spec_name()) implies exists|k: int|
            0 <= k < shown.len() && shown[k] == drawn_form(items[j], hovered) by {
            if j < init.len() {
                assert(items[j] == init[j]);
                assert(!hidden.contains(init[j].spec_name()));
                let k = choose|k: int| 0 <= k < shown_init.len() && shown_init[k] == drawn_form(init[j], hovered);
                assert(shown[k] == shown_init[k]);
            } else {
                assert(items[j] == items.last());
                let k = shown_init.len() as int;
                assert(shown[k] == drawn_form(items[j], hovered));
            }
        }
    }
}

/// Sequences with the same elements, counted, contain the same values.
proof fn lemma_contains_by_multiset<A>(a: Seq<A>, b: Seq<A>, x: A)
    requires
        a.to_multiset() =~= b.to_multiset(),
        a.contains(x),
    ensures
        b.contains(x),
{
    broadcast use vstd::seq_lib::group_to_multiset_ensures;

    assert(a.to_multiset().count(x) > 0);
}

/// Each drawn item is the drawn form of a not-hidden item.
proof fn lemma_drawn_from_items<T>(items: Seq<PlotItem<T>>, hidden: Set<Seq<char>>, hovered: Option<Seq<char>>, i: int)
    requires
        0 <= i < draw_order(items, hidden, hovered).len(),
    ensures
        exists|j: int|
            0 <= j < items.len() && !hidden.contains(items[j].spec_name())
                && draw_order(items, hidden, hovered)[i] == #[trigger] drawn_form(items[j], hovered),
{
    let shown = shown_items(items, hidden, hovered);
    let out = draw_order(items, hidden, hovered);
    assert(out.to_multiset() =~= shown.to_multiset()) by {
        lemma_draw_order(items, hidden, hovered);
    }
    assert(out.contains(out[i]));
    lemma_contains_by_multiset(out, shown, out[i]);
    let k = choose|k: int| 0 <= k < shown.len() && shown[k] == out[i];
    lemma_shown_from_items(items, hidden, hovered);
    let j = choose|j: int|
        0 <= j < items.len() && !hidden.contains(items[j].spec_name())
            && #[trigger] shown[k] == drawn_form(items[j], hovered);
    assert(out[i] == drawn_form(items[j], hovered));
}

/// The drawn form of each not-hidden item is drawn.
proof fn lemma_items_drawn<T>(items: Seq<PlotItem<T>>, hidden: Set<Seq<char>>, hovered: Option<Seq<char>>, j: int)
    requires
        0 <= j < items.len(),
        !hidden.contains(items[j].spec_name()),
    ensures
        exists|i: int|
            0 <= i < draw_order(items, hidden, hovered).len()
                && #[trigger] draw_order(items, hidden, hovered)[i] == drawn_form(items[j], hovered),
{
    let shown = shown_items(items, hidden, hovered);
    let out = draw_order(items, hidden, hovered);
    assert(out.to_multiset() =~= shown.to_multiset()) by {
        lemma_draw_order(items, hidden, hovered);
    }
    lemma_items_are_shown(items, hidden, hovered);
    let k = choose|k: int| 0 <= k < shown.len() && shown[k] == drawn_form(items[j], hovered);
    assert(shown.contains(shown[k]));
    lemma_contains_by_multiset(shown, out, shown[k]);
    let i = choose|i: int| 0 <= i < out.len() && out[i] == shown[k];
    assert(out[i] == drawn_form(items[j], hovered));
}

/// The items a plot draws are its items that the legend has not hidden, each as
/// it was but for its highlighting: an item keeps its own highlighting and is
/// highlighted where its name is the hovered legend entry. Every such item is
/// drawn, and nothing else is.
pub proof fn lemma_drawn_items<T>(items: Seq<PlotItem<T>>, hidden: Set<Seq<char>>, hovered: Option<Seq<char>>)
    ensures
        forall|i: int|
            0 <= i < draw_order(items, hidden, hovered).len() ==> exists|j: int|
                0 <= j < items.len() && !hidden.contains(items[j].spec_name())
                    && (#[trigger] draw_order(items, hidden, hovered)[i]).shape == items[j].shape
                    && draw_order(items, hidden, hovered)[i].auto_color == items[j].auto_color
                    && draw_order(items, hidden, hovered)[i].highlighted == (items[j].highlighted
                        || hovered == Some(items[j].spec_name())),
        forall|j: int|
            0 <= j < items.len() && !hidden.contains(#[trigger] items[j].spec_name()) ==> exists|i: int|
                0 <= i < draw_order(items, hidden, hovered).len()
                    && draw_order(items, hidden, hovered)[i].shape == items[j].shape
                    && draw_order(items, hidden, hovered)[i].auto_color == items[j].auto_color
                    && draw_order(items, hidden, hovered)[i].highlighted == (items[j].highlighted
                        || hovered == Some(items[j].spec_name())),
{
    let out = draw_order(items, hidden, hovered);
    assert forall|i: int| 0 <= i < out.len() implies exists|j: int|
        0 <= j < items.len() && !hidden.contains(items[j].spec_name())
            && (#[trigger] out[i]).shape == items[j].shape && out[i].auto_color == items[j].auto_color
            && out[i].highlighted == (items[j].highlighted || hovered == Some(items[j].spec_name())) by {
        lemma_drawn_from_items(items, hidden, hovered, i);
        let j = choose|j: int|
            0 <= j < items.len() && !hidden.contains(items[j].spec_name())
                && out[i] == #[trigger] drawn_form(items[j], hovered);
        assert(out[i] == drawn_form(items[j], hovered));
    }
    assert forall|j: int| 0 <= j < items.len() && !hidden.contains(#[trigger] items[j].spec_name()) implies exists|i: int|
        0 <= i < out.len() && out[i].shape == items[j].shape && out[i].auto_color == items[j].auto_color
            && out[i].highlighted == (items[j].highlighted || hovered == Some(items[j].spec_name())) by {
        lemma_items_drawn(items, hidden, hovered, j);
        let i = choose|i: int| 0 <= i < out.len() && #[trigger] out[i] == drawn_form(items[j], hovered);
        assert(out[i] == drawn_form(items[j], hovered));
    }
}

/// Whether an item's name is not hidden.
spec fn not_hidden<T>(hidden: Set<Seq<char>>) -> spec_fn(PlotItem<T>) -> bool {
    |item: PlotItem<T>| !hidden.contains(item.spec_name())
}

/// Items that are all unhighlighted and nothing hovered: the shown items are the
/// not-hidden ones, unchanged and unhighlighted.
proof fn lemma_shown_unhighlighted<T>(items: Seq<PlotItem<T>>, hidden: Set<Seq<char>>)
    requires
        forall|i: int| 0 <= i < items.len() ==> !(#[trigger] items[i]).highlighted,
    ensures
        shown_items(items, hidden, None) == items.filter(not_hidden(hidden)),
        with_highlight(shown_items(items, hidden, None), false) == shown_items(items, hidden, None),
        with_highlight(shown_items(items, hidden, None), true) == Seq::<PlotItem<T>>::empty(),
    decreases items.len(),
{
    reveal_with_fuel(Seq::<_>::filter, 1);
    if items.len() > 0 {
        let init = items.drop_last();
        assert forall|i: int| 0 <= i < init.len() implies !(#[trigger] init[i]).highlighted by {
            assert(init[i] == items[i]);
        }
        lemma_shown_unhighlighted(init, hidden);
        assert(!items[items.len() - 1].highlighted);
        let shown = shown_items(items, hidden, None);
        if !hidden.contains(items.last().spec_name()) {
            assert(shown.drop_last() =~= shown_items(init, hidden, None));
        }
    }
}

/// Items that are all highlighted: the shown items are the not-hidden ones,
/// unchanged.
proof fn lemma_shown_highlighted<T>(items: Seq<PlotItem<T>>, hidden: Set<Seq<char>>, hovered: Option<Seq<char>>)
    requires
        forall|i: int| 0 <= i < items.len() ==> (#[trigger] items[i]).highlighted,
    ensures
        shown_items(items, hidden, hovered) == items.filter(not_hidden(hidden)),
        with_highlight(shown_items(items, hidden, hovered), true) == shown_items(items, hidden, hovered),
        with_highlight(shown_items(items, hidden, hovered), false) == Seq::<PlotItem<T>>::empty(),
    decreases items.len(),
{
    reveal_with_fuel(Seq::<_>::filter, 1);
    if items.len() > 0 {
        let init = items.drop_last();
        assert forall|i: int| 0 <= i < init.len() implies (#[trigger] init[i]).highlighted by {
            assert(init[i] == items[i]);
        }
        lemma_shown_highlighted(init, hidden, hovered);
        let last = items.last();
        assert(items[items.len() - 1].highlighted);
        assert(mark_hovered(last, hovered) == last);
        let shown = shown_items(items, hidden, hovered);
        if !hidden.contains(last.spec_name()) {
            assert(shown.drop_last() =~= shown_items(init, hidden, hovered));
        }
    }
}

/// Drawing keeps the order of the items: where none is highlighted and no legend
/// entry is hovered, a plot draws exactly its not-hidden items, in their order;
/// where all are highlighted, it draws exactly its not-hidden items, in their
/// order, whatever is hovered.
pub proof fn lemma_draw_order_keeps_order<T>(items: Seq<PlotItem<T>>, hidden: Set<Seq<char>>, hovered: Option<Seq<char>>)
    ensures
        (forall|i: int| 0 <= i < items.len() ==> !(#[trigger] items[i]).highlighted) ==> draw_order(items, hidden, None)
            == items.filter(|item: PlotItem<T>| !hidden.contains(item.spec_name())),
        (forall|i: int| 0 <= i < items.len() ==> (#[trigger] items[i]).highlighted) ==> draw_order(items, hidden, hovered)
            == items.filter(|item: PlotItem<T>| !hidden.contains(item.spec_name())),
{
    if forall|i: int| 0 <= i < items.len() ==> !(#[trigger] items[i]).highlighted {
        lemma_shown_unhighlighted(items, hidden);
        assert(draw_order(items, hidden, None) =~= shown_items(items, hidden, None));
        assert(not_hidden::<T>(hidden) =~= |item: PlotItem<T>| !hidden.contains(item.spec_name()));
    }
    if forall|i: int| 0 <= i < items.len() ==> (#[trigger] items[i]).highlighted {
        lemma_shown_highlighted(items, hidden, hovered);
        assert(draw_order(items, hidden, hovered) =~= shown_items(items, hidden, hovered));
        assert(not_hidden::<T>(hidden) =~= |item: PlotItem<T>| !hidden.contains(item.spec_name()));
    }
}

/// Removes the items whose names the legend has hidden, highlights those whose
/// name is the hovered legend entry, and moves the highlighted items to the end,
/// so that they are drawn on top, keeping the order within each group.
pub fn prepare_items<T>(
    items: Vec<PlotItem<T>>,
    hidden: &AHashSet<String>,
    hovered: &Option<String>,
) -> (out: Vec<PlotItem<T>>)
    ensures
        out@ == draw_order(items@, name_set(*hidden), hovered.deep_view()),
{
    let ghost all = items@;
    let ghost hidden_names = name_set(*hidden);
    let ghost hovered_name = hovered.deep_view();
    let mut normal: Vec<PlotItem<T>> = Vec::new();
    let mut on_top: Vec<PlotItem<T>> = Vec::new();
    for item in it: items.into_iter()
        invariant
            it.seq() == all,
            hidden_names == name_set(*hidden),
            hovered_name == hovered.deep_view(),
            normal@ == with_highlight(shown_items(all.take(it.index() as int), hidden_names, hovered_name), false),
            on_top@ == with_highlight(shown_items(all.take(it.index() as int), hidden_names, hovered_name), true),
    {
        let ghost k = it.index() as int;
        let ghost prefix = all.take(k);
        let ghost next_prefix = all.take(k + 1);
        proof {
            assert(next_prefix.drop_last() =~= prefix);
            assert(next_prefix.last() == item);
        }
        let is_hidden = names_contain(hidden, item.shape.name());
        if !is_hidden {
            let is_hovered = match hovered {
                Some(name) => *item.shape.name() == *name,
                None => false,
            };
            let item = if is_hovered {
                PlotItem { shape: item.shape, auto_color: item.auto_color, highlighted: true }
            } else {
                item
            };
            let ghost shown = shown_items(next_prefix, hidden_names, hovered_name);
            proof {
                assert(item == mark_hovered(all[k], hovered_name));
                assert(shown.drop_last() =~= shown_items(prefix, hidden_names, hovered_name));
            }
            if item.highlighted {
                on_top.push(item);
            } else {
                normal.push(item);
            }
        }
    }
    proof {
        assert(all.take(all.len() as int) =~= all);
    }
    normal.append(&mut on_top);
    normal
}

/// What a plot remembers between frames: whether its bounds follow the content,
/// the legend entry under the pointer, the names the legend has hidden, the bounds
/// the plot must at least show, the bounds it showed last, and where a boxed zoom
/// started, as a position of the caller's type `P`.
pub struct PlotMemory<P, R> {
    pub auto_bounds: bool,
    pub hovered_entry: Option<String>,
    pub hidden_items: AHashSet<String>,
    pub min_auto_bounds: AxisBounds<R>,
    pub last_bounds: AxisBounds<R>,
    pub last_click_pos_for_zoom: Option<P>,
}

impl<P, R> PlotMemory<P, R> {
    /// The memory of a plot shown for the first time: it starts from
    /// `first_bounds` (the bounds its screen transform makes of the bounds it
    /// must at least show), follows the content unless the bounds it must at least
    /// show are valid, and nothing is hovered, hidden or being zoomed into.
    pub fn fresh(min_auto_bounds: AxisBounds<R>, min_bounds_valid: bool, first_bounds: AxisBounds<R>) -> (m: Self)
        ensures
            m.auto_bounds == !min_bounds_valid,
            m.hovered_entry is None,
            name_set(m.hidden_items) == Set::<Seq<char>>::empty(),
            m.min_auto_bounds == min_auto_bounds,
            m.last_bounds == first_bounds,
            m.last_click_pos_for_zoom is None,
    {
        PlotMemory {
            auto_bounds: !min_bounds_valid,
            hovered_entry: None,
            hidden_items: no_names(),
            min_auto_bounds,
            last_bounds: first_bounds,
            last_click_pos_for_zoom: None,
        }
    }

    /// The memory once the bounds that the plot must at least show have changed
    /// to `min_auto_bounds`: whether the bounds follow the content is decided anew,
    /// the hovered entry is forgotten, and the rest is kept.
    pub fn reset_for_min_bounds(self, min_auto_bounds: AxisBounds<R>, min_bounds_valid: bool) -> (m: Self)
        ensures
            m.auto_bounds == !min_bounds_valid,
            m.hovered_entry is None,
            m.hidden_items == self.hidden_items,
            m.min_auto_bounds == min_auto_bounds,
            m.last_bounds == self.last_bounds,
            m.last_click_pos_for_zoom == self.last_click_pos_for_zoom,
    {
        PlotMemory { auto_bounds: !min_bounds_valid, hovered_entry: None, min_auto_bounds, ..self }
    }
}

/// Whether the plot shows the pointer's x and y values this frame: as asked,
/// except that it shows neither while a legend entry is hovered.
pub fn hover_labels(show_x: bool, show_y: bool, hovered_entry: &Option<String>) -> (xy: (bool, bool))
    ensures
        xy == (if hovered_entry is Some { (false, false) } else { (show_x, show_y) }),
{
    if hovered_entry.is_some() {
        (false, false)
    } else {
        (show_x, show_y)
    }
}

/// What a frame decides before the user's interaction.
pub struct FrameStart<R> {
    /// Whether the plot shows the pointer's x and y values.
    pub show_x: bool,
    pub show_y: bool,
    /// The bounds the frame starts from: the last ones, with the linked axes taken
    /// over from the plot's group where the group holds bounds.
    pub bounds: AxisBounds<R>,
    /// Whether the bounds were taken over from the group.
    pub took_linked_bounds: bool,
    /// Whether a fixed data aspect ratio adjusts the x-axis and keeps the y-axis.
    pub preserve_y: bool,
    /// Whether the background is drawn.
    pub draw_background: bool,
    /// Which axes are painted.
    pub paint_axes: [bool; 2],
    /// Which axes are kept centered.
    pub center_axes: [bool; 2],
}

/// The decisions that open a frame of `plot`, from what it remembers.
pub fn begin_frame<I, R: Copy, P>(plot: &Plot<I, R>, memory: &PlotMemory<P, R>) -> (s: FrameStart<R>)
    ensures
        (s.show_x, s.show_y) == (if memory.hovered_entry is Some {
            (false, false)
        } else {
            (plot.show_x, plot.show_y)
        }),
        match plot.linked_axes {
            Some(g) => match g.bounds {
                Some(group) => {
                    &&& s.took_linked_bounds
                    &&& s.bounds.x == (if g.link_x { group.x } else { memory.last_bounds.x })
                    &&& s.bounds.y == (if g.link_y { group.y } else { memory.last_bounds.y })
                },
                None => !s.took_linked_bounds && s.bounds == memory.last_bounds,
            },
            None => !s.took_linked_bounds && s.bounds == memory.last_bounds,
        },
        s.preserve_y == (plot.linked_axes matches Some(g) && g.link_y && !g.link_x),
        s.draw_background == plot.show_background,
        s.paint_axes == plot.show_axes,
        s.center_axes == [plot.center_x_axis, plot.center_y_axis],
{
    let (show_x, show_y) = hover_labels(plot.show_x, plot.show_y, &memory.hovered_entry);
    let (bounds, took_linked_bounds) = match &plot.linked_axes {
        Some(group) => group.transfer(memory.last_bounds),
        None => (memory.last_bounds, false),
    };
    FrameStart {
        show_x,
        show_y,
        bounds,
        took_linked_bounds,
        preserve_y: aspect_preserves_y(&plot.linked_axes),
        draw_background: plot.show_background,
        paint_axes: plot.show_axes,
        center_axes: [plot.center_x_axis, plot.center_y_axis],
    }
}

/// How a frame begins to choose its bounds.
pub struct BoundsStart {
    /// Whether the bounds follow the content.
    pub auto_bounds: bool,
    /// Whether the bounds are computed anew from the content this frame.
    pub fit_to_content: bool,
}

/// The start of a frame's choice of bounds. Taking over the bounds of a linked
/// group stops them from following the content; a double click with the primary
/// button makes them follow it again; they are fitted to the content where they
/// follow it or where the bounds at hand are not valid.
pub fn start_bounds(
    remembered_auto: bool,
    took_linked_bounds: bool,
    double_clicked: bool,
    bounds_valid: bool,
) -> (s: BoundsStart)
    ensures
        s.auto_bounds == ((remembered_auto && !took_linked_bounds) || double_clicked),
        s.fit_to_content == (s.auto_bounds || !bounds_valid),
{
    let mut auto_bounds = remembered_auto;
    if took_linked_bounds {
        auto_bounds = false;
    }
    auto_bounds = auto_bounds || double_clicked;
    BoundsStart { auto_bounds, fit_to_content: auto_bounds || !bounds_valid }
}

/// The buttons of the pointer held while the plot is dragged.
pub struct DraggedBy {
    pub primary: bool,
    pub secondary: bool,
    pub middle: bool,
}

impl DraggedBy {
    pub open spec fn spec_contains(&self, button: PointerButton) -> bool {
        match button {
            PointerButton::Primary => self.primary,
            PointerButton::Secondary => self.secondary,
            PointerButton::Middle => self.middle,
        }
    }

    /// Whether the plot is dragged with `button`.
    #[verifier::when_used_as_spec(spec_contains)]
    pub fn contains(&self, button: PointerButton) -> (b: bool)
        ensures
            b == self.spec_contains(button),
    {
        match button {
            PointerButton::Primary => self.primary,
            PointerButton::Secondary => self.secondary,
            PointerButton::Middle => self.middle,
        }
    }
}

/// Whether the plot is dragged with a button reads that button's own flag, and
/// no other.
pub proof fn lemma_dragged_by_reads_each_button(primary: bool, secondary: bool, middle: bool)
    ensures
        (DraggedBy { primary, secondary, middle }).spec_contains(PointerButton::Primary) == primary,
        (DraggedBy { primary, secondary, middle }).spec_contains(PointerButton::Secondary) == secondary,
        (DraggedBy { primary, secondary, middle }).spec_contains(PointerButton::Middle) == middle,
{
}

/// What the pointer does over a plot in one frame.
pub struct PointerInput<P> {
    /// The buttons held while the plot is dragged.
    pub dragged_by: DraggedBy,
    /// A drag started this frame.
    pub drag_started: bool,
    /// A drag ended this frame.
    pub drag_released: bool,
    /// Where the pointer hovers over the plot, if it does.
    pub hover_pos: Option<P>,
    /// The zoom input asks for a zoom factor other than one.
    pub zoom_moved: bool,
    /// The scroll input is not zero.
    pub scroll_moved: bool,
}

/// What a frame makes of the user's input.
pub struct Interactions<P> {
    /// The bounds are dragged along with the pointer.
    pub dragged: bool,
    /// The frame's boxed zooming.
    pub box_zoom: BoxZoomStep<P>,
    /// The bounds are zoomed about the pointer.
    pub zoomed: bool,
    /// The bounds are moved by the scroll input.
    pub scrolled: bool,
}

/// What `plot` makes of the pointer in one frame, as its options allow: it is
/// dragged with the primary button where dragging is allowed; boxed zooming
/// follows the button chosen for it where it is allowed; it zooms and scrolls,
/// where allowed, with zoom or scroll input while the pointer hovers over it.
pub fn interactions<I, R, P: Copy>(plot: &Plot<I, R>, last_click: Option<P>, input: &PointerInput<P>) -> (r: Interactions<P>)
    ensures
        r.dragged == (plot.allow_drag && input.dragged_by.spec_contains(PointerButton::Primary)),
        r.box_zoom == spec_box_zoom_step(
            plot.allow_boxed_zoom,
            last_click,
            (BoxZoomInput {
                drag_started: input.drag_started,
                dragged_by_button: input.dragged_by.spec_contains(plot.boxed_zoom_pointer_button),
                drag_released: input.drag_released,
                hover_pos: input.hover_pos,
            }),
        ),
        r.zoomed == (input.hover_pos is Some && plot.allow_zoom && input.zoom_moved),
        r.scrolled == (input.hover_pos is Some && plot.allow_scroll && input.scroll_moved),
{
    let dragged = plot.allow_drag && input.dragged_by.contains(PointerButton::Primary);
    let box_input = BoxZoomInput {
        drag_started: input.drag_started,
        dragged_by_button: input.dragged_by.contains(plot.boxed_zoom_pointer_button),
        drag_released: input.drag_released,
        hover_pos: input.hover_pos,
    };
    let box_zoom = box_zoom_step(plot.allow_boxed_zoom, last_click, box_input);
    let hovered = input.hover_pos.is_some();
    Interactions { dragged, box_zoom, zoomed: hovered && plot.allow_zoom && input.zoom_moved, scrolled: hovered && plot.allow_scroll && input.scroll_moved }
}

/// How a boxed zoom that was released ended: with valid bounds to zoom to, or not.
pub enum BoxZoomRelease {
    Valid,
    Invalid,
}

/// Whether the bounds follow the content at the end of a frame, after the user's
/// interaction.
pub open spec fn spec_end_bounds(
    auto_at_start: bool,
    dragged: bool,
    box_zoom: Option<BoxZoomRelease>,
    zoomed: bool,
    scrolled: bool,
) -> bool {
    if zoomed || scrolled {
        false
    } else {
        match box_zoom {
            Some(BoxZoomRelease::Valid) => false,
            Some(BoxZoomRelease::Invalid) => true,
            None => auto_at_start && !dragged,
        }
    }
}

/// How a frame's interaction decides whether the bounds follow the content:
/// zooming or scrolling always stops it; otherwise a boxed zoom released onto
/// valid bounds stops it and one released onto invalid bounds restores it,
/// whatever it was before; without any of these, dragging stops it and else it
/// stays as it was at the start of the frame.
pub proof fn lemma_end_bounds(auto_at_start: bool, dragged: bool, box_zoom: Option<BoxZoomRelease>, zoomed: bool, scrolled: bool)
    ensures
        zoomed || scrolled ==> !spec_end_bounds(auto_at_start, dragged, box_zoom, zoomed, scrolled),
        !zoomed && !scrolled ==> !spec_end_bounds(auto_at_start, dragged, Some(BoxZoomRelease::Valid), zoomed, scrolled),
        !zoomed && !scrolled ==> spec_end_bounds(auto_at_start, dragged, Some(BoxZoomRelease::Invalid), zoomed, scrolled),
        dragged && !zoomed && !scrolled ==> !spec_end_bounds(auto_at_start, dragged, None, zoomed, scrolled),
        !dragged && !zoomed && !scrolled ==> (spec_end_bounds(auto_at_start, dragged, None, zoomed, scrolled)
            == auto_at_start),
{
}

/// Whether the bounds follow the content at the end of a frame, after the user's
/// interaction: dragging, zooming and scrolling stop it; a released boxed zoom
/// stops it where it zoomed to valid bounds and restores it otherwise.
pub fn end_bounds(
    auto_at_start: bool,
    dragged: bool,
    box_zoom: Option<BoxZoomRelease>,
    zoomed: bool,
    scrolled: bool,
) -> (auto_bounds: bool)
    ensures
        auto_bounds == spec_end_bounds(auto_at_start, dragged, box_zoom, zoomed, scrolled),
{
    let mut auto_bounds = auto_at_start;
    if dragged {
        auto_bounds = false;
    }
    match box_zoom {
        Some(BoxZoomRelease::Valid) => {
            auto_bounds = false;
        },
        Some(BoxZoomRelease::Invalid) => {
            auto_bounds = true;
        },
        None => {},
    }
    if zoomed {
        auto_bounds = false;
    }
    if scrolled {
        auto_bounds = false;
    }
    auto_bounds
}

/// What the pointer does over a plot in one frame, as far as boxed zooming goes.
pub struct BoxZoomInput<P> {
    /// A drag started this frame.
    pub drag_started: bool,
    /// The plot is being dragged with the button that boxed zooming uses.
    pub dragged_by_button: bool,
    /// A drag ended this frame.
    pub drag_released: bool,
    /// Where the pointer hovers, if it does.
    pub hover_pos: Option<P>,
}

/// The outcome of one frame of boxed zooming.
pub struct BoxZoomStep<P> {
    /// Where the box started, remembered for the next frame.
    pub last_click: Option<P>,
    /// The corners of the box to draw over the plot this frame.
    pub preview: Option<(P, P)>,
    /// The corners of the box to zoom to, when the drag was released.
    pub zoom_to: Option<(P, P)>,
}

/// The start of the box: the pointer position where a drag with the zoom button
/// starts now, the remembered one otherwise.
pub open spec fn box_start<P>(last_click: Option<P>, input: BoxZoomInput<P>) -> Option<P> {
    if input.drag_started && input.dragged_by_button {
        input.hover_pos
    } else {
        last_click
    }
}

/// One frame of boxed zooming. The box spans from where the drag with the zoom
/// button started to where the pointer hovers; it is drawn while that drag goes
/// on, and zoomed to, and forgotten, when the drag is released. Where boxed zoom
/// is not allowed, nothing happens and the start is kept.
pub open spec fn spec_box_zoom_step<P>(allow: bool, last_click: Option<P>, input: BoxZoomInput<P>) -> BoxZoomStep<P> {
    if !allow {
        BoxZoomStep { last_click, preview: None, zoom_to: None }
    } else {
        let start = box_start(last_click, input);
        match (start, input.hover_pos) {
            (Some(a), Some(b)) => BoxZoomStep {
                last_click: if input.drag_released { None } else { start },
                preview: if input.dragged_by_button { Some((a, b)) } else { None },
                zoom_to: if input.drag_released { Some((a, b)) } else { None },
            },
            _ => BoxZoomStep { last_click: start, preview: None, zoom_to: None },
        }
    }
}

/// How boxed zooming goes over the frames of one drag: where it is not allowed
/// nothing happens and the start is kept; a drag with the zoom button that starts
/// over the plot starts the box at the pointer and draws it; while that drag goes
/// on the box spans from its start to the pointer; releasing the drag over the
/// plot zooms to that box and forgets its start; and without a start or a
/// pointer over the plot nothing is drawn or zoomed to.
pub proof fn lemma_box_zoom<P>(allow: bool, last_click: Option<P>, input: BoxZoomInput<P>)
    ensures
        !allow ==> spec_box_zoom_step(allow, last_click, input) == (BoxZoomStep::<P> {
            last_click,
            preview: None,
            zoom_to: None,
        }),
        allow && input.drag_started && input.dragged_by_button && !input.drag_released && input.hover_pos is Some
            ==> spec_box_zoom_step(allow, last_click, input) == (BoxZoomStep {
            last_click: input.hover_pos,
            preview: Some((input.hover_pos.unwrap(), input.hover_pos.unwrap())),
            zoom_to: None,
        }),
        allow && !input.drag_started && input.dragged_by_button && !input.drag_released && last_click is Some
            && input.hover_pos is Some ==> spec_box_zoom_step(allow, last_click, input) == (BoxZoomStep {
            last_click,
            preview: Some((last_click.unwrap(), input.hover_pos.unwrap())),
            zoom_to: None,
        }),
        allow && !input.drag_started && input.drag_released && last_click is Some && input.hover_pos is Some ==> {
            &&& spec_box_zoom_step(allow, last_click, input).zoom_to == Some(
                (last_click.unwrap(), input.hover_pos.unwrap()),
            )
            &&& spec_box_zoom_step(allow, last_click, input).last_click is None
        },
        allow && !(input.drag_started && input.dragged_by_button) && (last_click is None || input.hover_pos is None)
            ==> spec_box_zoom_step(allow, last_click, input) == (BoxZoomStep {
            last_click,
            preview: None,
            zoom_to: None,
        }),
{
}

/// One frame of boxed zooming, as `spec_box_zoom_step` describes it.
pub fn box_zoom_step<P: Copy>(allow: bool, last_click: Option<P>, input: BoxZoomInput<P>) -> (s: BoxZoomStep<P>)
    ensures
        s == spec_box_zoom_step(allow, last_click, input),
{
    if !allow {
        return BoxZoomStep { last_click, preview: None, zoom_to: None };
    }
    let mut last = last_click;
    if input.drag_started && input.dragged_by_button {
        last = input.hover_pos;
    }
    let mut preview = None;
    let mut zoom_to = None;
    match (last, input.hover_pos) {
        (Some(a), Some(b)) => {
            if input.dragged_by_button {
                preview = Some((a, b));
            }
            if input.drag_released {
                zoom_to = Some((a, b));
                last = None;
            }
        },
        _ => {},
    }
    BoxZoomStep { last_click: last, preview, zoom_to }
}

/// The cursor that a plot shows while hovered.
#[derive(Clone, Copy, Debug, PartialEq, Eq, Structural)]
pub enum PlotCursor {
    Grabbing,
    ZoomIn,
    Crosshair,
}

/// The cursor over the plot at the end of a frame: the crosshair while it shows
/// the pointer's x or y value, else the zoom cursor while a zoom box is drawn,
/// else the grabbing hand while it is dragged, else the default one.
pub open spec fn spec_hover_cursor(dragging: bool, box_preview: bool, show_x: bool, show_y: bool) -> Option<PlotCursor> {
    if show_x || show_y {
        Some(PlotCursor::Crosshair)
    } else if box_preview {
        Some(PlotCursor::ZoomIn)
    } else if dragging {
        Some(PlotCursor::Grabbing)
    } else {
        None
    }
}

/// The cursor over a plot: the crosshair whenever the plot shows the pointer's x
/// or y value; otherwise the zoom cursor while a zoom box is drawn, else the
/// grabbing hand while the plot is dragged, else the default cursor.
pub proof fn lemma_hover_cursor(dragging: bool, box_preview: bool, show_x: bool, show_y: bool)
    ensures
        show_x || show_y ==> spec_hover_cursor(dragging, box_preview, show_x, show_y) == Some(PlotCursor::Crosshair),
        !show_x && !show_y && box_preview ==> spec_hover_cursor(dragging, box_preview, show_x, show_y) == Some(
            PlotCursor::ZoomIn,
        ),
        !show_x && !show_y && !box_preview && dragging ==> spec_hover_cursor(dragging, box_preview, show_x, show_y)
            == Some(PlotCursor::Grabbing),
        !show_x && !show_y && !box_preview && !dragging ==> spec_hover_cursor(
            dragging,
            box_preview,
            show_x,
            show_y,
        ) is None,
{
}

/// The cursor over the plot at the end of a frame, as `spec_hover_cursor` describes it.
pub fn hover_cursor(dragging: bool, box_preview: bool, show_x: bool, show_y: bool) -> (c: Option<PlotCursor>)
    ensures
        c == spec_hover_cursor(dragging, box_preview, show_x, show_y),
{
    let mut cursor = None;
    if dragging {
        cursor = Some(PlotCursor::Grabbing);
    }
    if box_preview {
        cursor = Some(PlotCursor::ZoomIn);
    }
    if show_x || show_y {
        cursor = Some(PlotCursor::Crosshair);
    }
    cursor
}

/// What the legend reports at the end of a frame.
pub struct LegendState {
    pub hidden_items: AHashSet<String>,
    pub hovered_entry: Option<String>,
}

/// The decisions that close a frame: what the plot remembers for the next frame
/// (whether its bounds follow the content, the legend's state, the bounds it
/// showed and where a boxed zoom started), the bounds it shares with its linked
/// group, and the cursor it shows. `box_release` says how the boxed zoom that
/// `act` released ended, and is there exactly when `act` released one.
pub fn end_frame<P: Copy, R: Copy>(
    memory: PlotMemory<P, R>,
    linked_axes: &mut Option<LinkedAxisGroup<R>>,
    start: &BoundsStart,
    act: &Interactions<P>,
    box_release: Option<BoxZoomRelease>,
    show: (bool, bool),
    bounds: AxisBounds<R>,
    legend: Option<LegendState>,
) -> (r: (PlotMemory<P, R>, Option<PlotCursor>))
    requires
        box_release is Some <==> act.box_zoom.zoom_to is Some,
    ensures
        r.0.auto_bounds == spec_end_bounds(start.auto_bounds, act.dragged, box_release, act.zoomed, act.scrolled),
        r.0.last_click_pos_for_zoom == act.box_zoom.last_click,
        r.0.last_bounds == bounds,
        r.0.min_auto_bounds == memory.min_auto_bounds,
        match legend {
            Some(l) => r.0.hidden_items == l.hidden_items && r.0.hovered_entry == l.hovered_entry,
            None => r.0.hidden_items == memory.hidden_items && r.0.hovered_entry == memory.hovered_entry,
        },
        r.1 == spec_hover_cursor(act.dragged, act.box_zoom.preview is Some, show.0, show.1),
        match *old(linked_axes) {
            Some(g) => *final(linked_axes) == Some(LinkedAxisGroup { bounds: Some(bounds), ..g }),
            None => *final(linked_axes) is None,
        },
{
    let auto_bounds = end_bounds(start.auto_bounds, act.dragged, box_release, act.zoomed, act.scrolled);
    let cursor = hover_cursor(act.dragged, act.box_zoom.preview.is_some(), show.0, show.1);
    match linked_axes {
        Some(group) => group.set(bounds),
        None => {},
    }
    let PlotMemory { hidden_items, hovered_entry, min_auto_bounds, .. } = memory;
    let (hidden_items, hovered_entry) = match legend {
        Some(l) => (l.hidden_items, l.hovered_entry),
        None => (hidden_items, hovered_entry),
    };
    let next = PlotMemory {
        auto_bounds,
        hovered_entry,
        hidden_items,
        min_auto_bounds,
        last_bounds: bounds,
        last_click_pos_for_zoom: act.box_zoom.last_click,
    };
    (next, cursor)
}

} // verus!
