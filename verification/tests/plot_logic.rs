use egui_plot::color::Rgba8;
use egui_plot::frame::{
    box_zoom_step, end_bounds, hover_cursor, hover_labels, prepare_items, start_bounds, BoxZoomInput,
    BoxZoomRelease, PlotCursor, PlotMemory,
};
use egui_plot::items::{
    Arrows, BarChart, BoxPlot, HLine, ItemShape, Line, PlotImage, PlotItem, Points, Polygon, Text, VLine,
};
use egui_plot::link::{aspect_preserves_y, AxisBounds, LinkedAxisGroup};
use egui_plot::plot_ui::PlotUi;
use epaint::ahash::AHashSet;

type Value = (f64, f64);
type Group = LinkedAxisGroup<(f64, f64)>;
type Bounds = AxisBounds<(f64, f64)>;

fn bounds(x: (f64, f64), y: (f64, f64)) -> Bounds {
    AxisBounds { x, y }
}

const RED: Rgba8 = Rgba8 { r: 255, g: 0, b: 0, a: 255 };

fn clear() -> Rgba8 {
    Rgba8::transparent()
}

fn line(name: &str, series: Vec<Value>, color: Rgba8) -> Line<Value> {
    Line { name: name.to_string(), series, color, highlight: false }
}

fn names(items: &[PlotItem<Value>]) -> Vec<String> {
    items.iter().map(|i| i.shape.name().clone()).collect()
}

fn auto_colors(items: &[PlotItem<Value>]) -> Vec<Option<usize>> {
    items.iter().map(|i| i.auto_color).collect()
}

#[test]
fn transparent_is_all_zero() {
    assert!(Rgba8::transparent().is_transparent());
    assert_eq!(Rgba8::transparent(), Rgba8 { r: 0, g: 0, b: 0, a: 0 });
    assert!(!RED.is_transparent());
    assert!(!Rgba8 { r: 0, g: 0, b: 0, a: 1 }.is_transparent());
}

#[test]
fn linked_axis_group_constructors() {
    assert_eq!(Group::x(), LinkedAxisGroup { link_x: true, link_y: false, bounds: None });
    assert_eq!(Group::y(), LinkedAxisGroup { link_x: false, link_y: true, bounds: None });
    assert_eq!(Group::both(), LinkedAxisGroup { link_x: true, link_y: true, bounds: None });
    assert_eq!(Group::new(false, false), LinkedAxisGroup { link_x: false, link_y: false, bounds: None });
}

#[test]
fn linked_axis_group_setters_change_one_axis() {
    let mut g = Group::x();
    g.set_link_y(true);
    assert_eq!(g, Group::both());
    g.set_link_x(false);
    assert_eq!(g, Group::y());
    g.set(bounds((1.0, 2.0), (3.0, 4.0)));
    g.set_link_y(false);
    assert!(!g.link_x && !g.link_y);
    assert_eq!(g.get(), Some(bounds((1.0, 2.0), (3.0, 4.0))));
}

#[test]
fn linked_axis_group_reads_back_what_was_set() {
    let mut g = Group::both();
    assert_eq!(g.get(), None);
    g.set(bounds((0.0, 1.0), (0.0, 2.0)));
    assert_eq!(g.get(), Some(bounds((0.0, 1.0), (0.0, 2.0))));
    g.set(bounds((5.0, 6.0), (7.0, 8.0)));
    assert_eq!(g.get(), Some(bounds((5.0, 6.0), (7.0, 8.0))));
    assert!(g.link_x && g.link_y);
}

#[test]
fn transfer_takes_the_linked_axes_from_the_group() {
    let own = bounds((0.0, 1.0), (2.0, 3.0));
    let mut g = Group::x();
    assert_eq!(g.transfer(own), (own, false));
    g.set(bounds((-5.0, 5.0), (-7.0, 7.0)));
    assert_eq!(g.transfer(own), (bounds((-5.0, 5.0), (2.0, 3.0)), true));
    g.set_link_y(true);
    assert_eq!(g.transfer(own), (bounds((-5.0, 5.0), (-7.0, 7.0)), true));
}

#[test]
fn take_linked_copies_the_linked_axes_only() {
    let own = || AxisBounds { x: (0.0, 1.0), y: (2.0, 3.0) };
    let group = || AxisBounds { x: (-5.0, 5.0), y: (-7.0, 7.0) };
    let b = Group::both().take_linked(own(), group());
    assert_eq!((b.x, b.y), ((-5.0, 5.0), (-7.0, 7.0)));
    let b = Group::x().take_linked(own(), group());
    assert_eq!((b.x, b.y), ((-5.0, 5.0), (2.0, 3.0)));
    let b = Group::y().take_linked(own(), group());
    assert_eq!((b.x, b.y), ((0.0, 1.0), (-7.0, 7.0)));
    let b = Group::new(false, false).take_linked(own(), group());
    assert_eq!((b.x, b.y), ((0.0, 1.0), (2.0, 3.0)));
}

#[test]
fn aspect_preserves_y_only_for_a_y_only_group() {
    assert!(!aspect_preserves_y::<(f64, f64)>(&None));
    assert!(aspect_preserves_y(&Some(Group::y())));
    assert!(!aspect_preserves_y(&Some(Group::x())));
    assert!(!aspect_preserves_y(&Some(Group::both())));
    assert!(!aspect_preserves_y(&Some(Group::new(false, false))));
}

#[test]
fn plot_ui_reports_hover_and_click() {
    let ui: PlotUi<Value, Bounds> = PlotUi::new(true, false, bounds((0.0, 1.0), (0.0, 1.0)));
    assert!(ui.plot_hovered());
    assert!(!ui.plot_clicked());
    assert!(ui.items().is_empty());
    let ui: PlotUi<Value, Bounds> = PlotUi::new(false, true, bounds((0.0, 1.0), (0.0, 1.0)));
    assert!(!ui.plot_hovered());
    assert!(ui.plot_clicked());
}

#[test]
fn empty_line_is_left_out() {
    let mut ui: PlotUi<Value, Bounds> = PlotUi::new(false, false, bounds((-1.0, 1.0), (-2.0, 2.0)));
    ui.line(line("empty", vec![], clear()));
    assert!(ui.items().is_empty());
    // The automatic colour was not used up: the next line takes colour 0.
    ui.line(line("a", vec![(0.0, 1.0)], clear()));
    assert_eq!(auto_colors(ui.items()), vec![Some(0)]);
}

#[test]
fn line_without_colour_takes_the_next_automatic_colour() {
    let mut ui: PlotUi<Value, Bounds> = PlotUi::new(false, false, bounds((-1.0, 1.0), (-2.0, 2.0)));
    ui.line(line("a", vec![(0.0, 0.0), (1.0, 1.0)], clear()));
    ui.line(line("b", vec![(0.0, 0.0)], RED));
    ui.line(line("c", vec![(0.0, 0.0)], clear()));
    assert_eq!(names(ui.items()), vec!["a", "b", "c"]);
    assert_eq!(auto_colors(ui.items()), vec![Some(0), None, Some(1)]);
    match &ui.items()[1].shape {
        ItemShape::Line(l) => assert_eq!(l.color, RED),
        _ => panic!("expected a line"),
    }
}

#[test]
fn every_kind_of_item() {
    let mut ui: PlotUi<Value, Bounds> = PlotUi::new(false, false, bounds((-1.0, 1.0), (-2.0, 2.0)));
    ui.polygon(Polygon { name: "poly".into(), series: vec![(0.0, 0.0)], color: clear(), highlight: false });
    ui.polygon(Polygon { name: "no poly".into(), series: vec![], color: clear(), highlight: false });
    ui.text(Text { name: "t".into(), position: (1.0, 1.0), text: "hi".into(), color: clear(), highlight: false });
    ui.text(Text { name: "no t".into(), position: (1.0, 1.0), text: String::new(), color: clear(), highlight: false });
    ui.points(Points { name: "pts".into(), series: vec![(2.0, 2.0)], color: RED, highlight: true });
    ui.points(Points { name: "no pts".into(), series: vec![], color: clear(), highlight: false });
    ui.arrows(Arrows { name: "arr".into(), origins: vec![(0.0, 0.0)], tips: vec![(1.0, 1.0)], color: clear(), highlight: false });
    ui.arrows(Arrows { name: "no tips".into(), origins: vec![(0.0, 0.0)], tips: vec![], color: clear(), highlight: false });
    ui.arrows(Arrows { name: "no origins".into(), origins: vec![], tips: vec![(0.0, 0.0)], color: clear(), highlight: false });
    ui.image(PlotImage { name: "img".into(), image: (0.0, 0.0), highlight: false });
    ui.hline(HLine { name: "h".into(), at: (0.0, 3.0), color: clear(), highlight: false });
    ui.vline(VLine { name: "v".into(), at: (4.0, 0.0), color: RED, highlight: false });
    ui.box_plot(BoxPlot { name: "box".into(), boxes: vec![(1.0, 2.0)], default_color: clear(), highlight: false });
    ui.box_plot(BoxPlot { name: "no box".into(), boxes: vec![], default_color: clear(), highlight: false });
    ui.bar_chart(BarChart { name: "bars".into(), bars: vec![(1.0, 2.0)], default_color: RED, highlight: false });
    ui.bar_chart(BarChart { name: "no bars".into(), bars: vec![], default_color: clear(), highlight: false });
    assert_eq!(names(ui.items()), vec!["poly", "t", "pts", "arr", "img", "h", "v", "box", "bars"]);
    assert_eq!(
        auto_colors(ui.items()),
        vec![Some(0), None, None, Some(1), None, Some(2), None, Some(3), None]
    );
    let highlighted: Vec<bool> = ui.items().iter().map(|i| i.highlighted).collect();
    assert_eq!(highlighted, vec![false, false, true, false, false, false, false, false, false]);
    assert_eq!(ui.plot_bounds(), bounds((-1.0, 1.0), (-2.0, 2.0)));
    let items = ui.into_items();
    assert!(matches!(items[4].shape, ItemShape::Image(_)));
    assert!(matches!(items[8].shape, ItemShape::BarChart(_)));
}

#[test]
fn automatic_colours_are_distinct_and_in_order() {
    let mut ui: PlotUi<Value, Bounds> = PlotUi::new(false, false, bounds((-1.0, 1.0), (-2.0, 2.0)));
    for k in 0..20 {
        let color = if k % 3 == 0 { RED } else { clear() };
        ui.line(line(&format!("l{}", k), vec![(k as f64, 0.0)], color));
    }
    let given: Vec<usize> = ui.items().iter().filter_map(|i| i.auto_color).collect();
    let expected: Vec<usize> = (0..given.len()).collect();
    assert_eq!(given, expected);
    assert_eq!(given.len(), 13);
}

fn item(name: &str, highlighted: bool) -> PlotItem<Value> {
    PlotItem {
        shape: ItemShape::Line(line(name, vec![(0.0, 0.0)], RED)),
        auto_color: None,
        highlighted,
    }
}

#[test]
fn prepare_items_removes_hidden_items() {
    let mut hidden = AHashSet::default();
    hidden.insert("b".to_string());
    let out = prepare_items(vec![item("a", false), item("b", false), item("c", false)], &hidden, &None);
    assert_eq!(names(&out), vec!["a", "c"]);
}

#[test]
fn prepare_items_highlights_the_hovered_entry_and_draws_it_last() {
    let hidden = AHashSet::default();
    let out = prepare_items(
        vec![item("a", false), item("b", false), item("c", false), item("b", false)],
        &hidden,
        &Some("b".to_string()),
    );
    assert_eq!(names(&out), vec!["a", "c", "b", "b"]);
    let highlighted: Vec<bool> = out.iter().map(|i| i.highlighted).collect();
    assert_eq!(highlighted, vec![false, false, true, true]);
}

#[test]
fn prepare_items_keeps_order_within_each_group() {
    let mut hidden = AHashSet::default();
    hidden.insert("x".to_string());
    let out = prepare_items(
        vec![item("h1", true), item("a", false), item("x", true), item("h2", true), item("b", false)],
        &hidden,
        &Some("nothing".to_string()),
    );
    assert_eq!(names(&out), vec!["a", "b", "h1", "h2"]);
}

#[test]
fn prepare_items_hidden_wins_over_hovered() {
    let mut hidden = AHashSet::default();
    hidden.insert("a".to_string());
    let out = prepare_items(vec![item("a", false), item("b", false)], &hidden, &Some("a".to_string()));
    assert_eq!(names(&out), vec!["b"]);
    assert!(!out[0].highlighted);
}

#[test]
fn fresh_memory() {
    let min = bounds((0.0, 1.0), (0.0, 1.0));
    let first = bounds((-1.0, 1.0), (-1.0, 1.0));
    let m: PlotMemory<Value, (f64, f64)> = PlotMemory::fresh(min, false, first);
    assert!(m.auto_bounds);
    assert_eq!(m.min_auto_bounds, min);
    assert_eq!(m.last_bounds, first);
    assert!(m.hovered_entry.is_none());
    assert!(m.hidden_items.is_empty());
    assert!(m.last_click_pos_for_zoom.is_none());
    let m: PlotMemory<Value, (f64, f64)> = PlotMemory::fresh(min, true, min);
    assert!(!m.auto_bounds);
}

#[test]
fn reset_memory_keeps_hidden_items_and_zoom_start() {
    let mut hidden = AHashSet::default();
    hidden.insert("a".to_string());
    let m = PlotMemory {
        auto_bounds: false,
        hovered_entry: Some("a".to_string()),
        hidden_items: hidden,
        min_auto_bounds: bounds((0.0, 1.0), (0.0, 1.0)),
        last_bounds: bounds((3.0, 4.0), (5.0, 6.0)),
        last_click_pos_for_zoom: Some((1.0, 2.0)),
    };
    let m = m.reset_for_min_bounds(bounds((0.0, 9.0), (0.0, 9.0)), false);
    assert_eq!(m.min_auto_bounds, bounds((0.0, 9.0), (0.0, 9.0)));
    assert_eq!(m.last_bounds, bounds((3.0, 4.0), (5.0, 6.0)));
    assert!(m.auto_bounds);
    assert!(m.hovered_entry.is_none());
    assert!(m.hidden_items.contains("a"));
    assert_eq!(m.last_click_pos_for_zoom, Some((1.0, 2.0)));
}

#[test]
fn legend_hover_hides_the_pointer_values() {
    assert_eq!(hover_labels(true, true, &None), (true, true));
    assert_eq!(hover_labels(true, false, &None), (true, false));
    assert_eq!(hover_labels(true, true, &Some("a".to_string())), (false, false));
}

#[test]
fn start_bounds_cases() {
    let s = start_bounds(true, false, false, true);
    assert!(s.auto_bounds && s.fit_to_content);
    // Taking over linked bounds stops automatic bounds.
    let s = start_bounds(true, true, false, true);
    assert!(!s.auto_bounds && !s.fit_to_content);
    // A double click resets to automatic bounds.
    let s = start_bounds(false, true, true, true);
    assert!(s.auto_bounds && s.fit_to_content);
    // Invalid bounds are fitted to the content without becoming automatic.
    let s = start_bounds(false, false, false, false);
    assert!(!s.auto_bounds && s.fit_to_content);
}

#[test]
fn end_bounds_cases() {
    assert!(end_bounds(true, false, None, false, false));
    assert!(!end_bounds(true, true, None, false, false));
    assert!(!end_bounds(true, false, None, true, false));
    assert!(!end_bounds(true, false, None, false, true));
    assert!(!end_bounds(true, false, Some(BoxZoomRelease::Valid), false, false));
    assert!(end_bounds(false, true, Some(BoxZoomRelease::Invalid), false, false));
    assert!(!end_bounds(false, false, Some(BoxZoomRelease::Invalid), true, false));
    assert!(!end_bounds(false, false, None, false, false));
}

fn zoom_input(started: bool, dragged: bool, released: bool, hover: Option<Value>) -> BoxZoomInput<Value> {
    BoxZoomInput { drag_started: started, dragged_by_button: dragged, drag_released: released, hover_pos: hover }
}

#[test]
fn boxed_zoom_from_press_to_release() {
    // The drag starts at (1, 1).
    let s = box_zoom_step(true, None, zoom_input(true, true, false, Some((1.0, 1.0))));
    assert_eq!(s.last_click, Some((1.0, 1.0)));
    assert_eq!(s.preview, Some(((1.0, 1.0), (1.0, 1.0))));
    assert_eq!(s.zoom_to, None);
    // The pointer moves on while the button is held.
    let s = box_zoom_step(true, s.last_click, zoom_input(false, true, false, Some((4.0, 5.0))));
    assert_eq!(s.last_click, Some((1.0, 1.0)));
    assert_eq!(s.preview, Some(((1.0, 1.0), (4.0, 5.0))));
    assert_eq!(s.zoom_to, None);
    // The button is released: zoom to the box and forget its start.
    let s = box_zoom_step(true, s.last_click, zoom_input(false, false, true, Some((4.0, 6.0))));
    assert_eq!(s.last_click, None);
    assert_eq!(s.preview, None);
    assert_eq!(s.zoom_to, Some(((1.0, 1.0), (4.0, 6.0))));
}

#[test]
fn boxed_zoom_waits_for_the_pointer() {
    let s = box_zoom_step(true, Some((1.0, 1.0)), zoom_input(false, true, true, None));
    assert_eq!(s.last_click, Some((1.0, 1.0)));
    assert_eq!(s.preview, None);
    assert_eq!(s.zoom_to, None);
}

#[test]
fn boxed_zoom_not_allowed() {
    let s = box_zoom_step(false, Some((1.0, 1.0)), zoom_input(true, true, true, Some((2.0, 2.0))));
    assert_eq!(s.last_click, Some((1.0, 1.0)));
    assert_eq!(s.preview, None);
    assert_eq!(s.zoom_to, None);
}

#[test]
fn cursor_priorities() {
    assert_eq!(hover_cursor(true, true, true, false), Some(PlotCursor::Crosshair));
    assert_eq!(hover_cursor(true, true, false, false), Some(PlotCursor::ZoomIn));
    assert_eq!(hover_cursor(true, false, false, false), Some(PlotCursor::Grabbing));
    assert_eq!(hover_cursor(false, false, false, false), None);
    assert_eq!(hover_cursor(false, false, false, true), Some(PlotCursor::Crosshair));
}
