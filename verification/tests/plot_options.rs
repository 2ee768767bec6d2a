use egui_plot::link::LinkedAxisGroup;
use egui_plot::plot::{Plot, PointerButton};

#[test]
fn plot_defaults() {
    let p: Plot<&str, (f64, f64)> = Plot::new("my_plot");
    assert_eq!(p.id_source, "my_plot");
    assert!(!p.center_x_axis);
    assert!(!p.center_y_axis);
    assert!(p.allow_zoom);
    assert!(p.allow_drag);
    assert!(p.allow_scroll);
    assert!(p.allow_boxed_zoom);
    assert_eq!(p.boxed_zoom_pointer_button, PointerButton::Secondary);
    assert!(p.linked_axes.is_none());
    assert!(p.show_x);
    assert!(p.show_y);
    assert!(p.show_background);
    assert_eq!(p.show_axes, [true, true]);
}

#[test]
fn plot_builders_change_one_option_each() {
    let p: Plot<u64, (f64, f64)> = Plot::new(7u64)
        .show_x(false)
        .center_y_axis(true)
        .allow_scroll(false)
        .boxed_zoom_pointer_button(PointerButton::Middle)
        .show_axes([true, false]);
    assert_eq!(p.id_source, 7);
    assert!(!p.show_x);
    assert!(p.show_y);
    assert!(!p.center_x_axis);
    assert!(p.center_y_axis);
    assert!(p.allow_zoom);
    assert!(!p.allow_scroll);
    assert!(p.allow_drag);
    assert_eq!(p.boxed_zoom_pointer_button, PointerButton::Middle);
    assert_eq!(p.show_axes, [true, false]);
    assert!(p.show_background);

    let p: Plot<u64, (f64, f64)> = Plot::new(1u64)
        .show_y(false)
        .center_x_axis(true)
        .allow_zoom(false)
        .allow_boxed_zoom(false)
        .allow_drag(false)
        .show_background(false);
    assert!(p.show_x);
    assert!(!p.show_y);
    assert!(p.center_x_axis);
    assert!(!p.allow_zoom);
    assert!(!p.allow_boxed_zoom);
    assert!(!p.allow_drag);
    assert!(!p.show_background);
    assert!(p.allow_scroll);
}

#[test]
fn plot_belongs_to_at_most_one_group() {
    let p: Plot<u8, (f64, f64)> = Plot::new(0u8).link_axis(LinkedAxisGroup::x()).link_axis(LinkedAxisGroup::both());
    assert_eq!(p.linked_axes, Some(LinkedAxisGroup::both()));
}
