use vstd::prelude::*;

use crate::link::LinkedAxisGroup;

verus! {

/// A button of the pointer.
#[derive(Clone, Copy, Debug, PartialEq, Eq, Structural)]
pub enum PointerButton {
    Primary,
    Secondary,
    Middle,
}

/// A 2D plot, e.g. a graph of a function: the options that decide how it reacts
/// to the user, under an id of the caller's type `I` that is unique within the
/// plot's parent, and the group it is linked to, whose axis ranges are of the
/// caller's type `R`. Its sizes, aspect ratios, margins, the values its bounds must
/// include, and the functions that format labels and space the grid work in
/// floating point and are kept by the caller.
pub struct Plot<I, R> {
    pub id_source: I,
    pub center_x_axis: bool,
    pub center_y_axis: bool,
    pub allow_zoom: bool,
    pub allow_drag: bool,
    pub allow_scroll: bool,
    pub allow_boxed_zoom: bool,
    pub boxed_zoom_pointer_button: PointerButton,
    pub linked_axes: Option<LinkedAxisGroup<R>>,
    pub show_x: bool,
    pub show_y: bool,
    pub show_background: bool,
    pub show_axes: [bool; 2],
}

impl<I, R> Plot<I, R> {
    /// Give a unique id for each plot within the same parent. Zooming, dragging,
    /// scrolling, boxed zooming with the secondary button, showing the pointer's
    /// x and y values, the background and both axes are on; neither axis is kept
    /// centered and the plot is in no linked group.
    pub fn new(id_source: I) -> (p: Self)
        ensures
            p.id_source == id_source,
            !p.center_x_axis,
            !p.center_y_axis,
            p.allow_zoom,
            p.allow_drag,
            p.allow_scroll,
            p.allow_boxed_zoom,
            p.boxed_zoom_pointer_button == PointerButton::Secondary,
            p.linked_axes is None,
            p.show_x,
            p.show_y,
            p.show_background,
            p.show_axes == [true, true],
    {
        Plot {
            id_source,
            center_x_axis: false,
            center_y_axis: false,
            allow_zoom: true,
            allow_drag: true,
            allow_scroll: true,
            allow_boxed_zoom: true,
            boxed_zoom_pointer_button: PointerButton::Secondary,
            linked_axes: None,
            show_x: true,
            show_y: true,
            show_background: true,
            show_axes: [true, true],
        }
    }

    /// Show the x-value (e.g. when hovering). Default: `true`.
    pub fn show_x(self, show_x: bool) -> (p: Self)
        ensures
            p == (Plot { show_x, ..self }),
    {
        Plot { show_x, ..self }
    }

    /// Show the y-value (e.g. when hovering). Default: `true`.
    pub fn show_y(self, show_y: bool) -> (p: Self)
        ensures
            p == (Plot { show_y, ..self }),
    {
        Plot { show_y, ..self }
    }

    /// Always keep the x-axis centered. Default: `false`.
    pub fn center_x_axis(self, on: bool) -> (p: Self)
        ensures
            p == (Plot { center_x_axis: on, ..self }),
    {
        Plot { center_x_axis: on, ..self }
    }

    /// Always keep the y-axis centered. Default: `false`.
    pub fn center_y_axis(self, on: bool) -> (p: Self)
        ensures
            p == (Plot { center_y_axis: on, ..self }),
    {
        Plot { center_y_axis: on, ..self }
    }

    /// Whether to allow zooming in the plot. Default: `true`.
    pub fn allow_zoom(self, on: bool) -> (p: Self)
        ensures
            p == (Plot { allow_zoom: on, ..self }),
    {
        Plot { allow_zoom: on, ..self }
    }

    /// Whether to allow scrolling in the plot. Default: `true`.
    pub fn allow_scroll(self, on: bool) -> (p: Self)
        ensures
            p == (Plot { allow_scroll: on, ..self }),
    {
        Plot { allow_scroll: on, ..self }
    }

    /// Whether to allow zooming in the plot by dragging out a box with the
    /// secondary mouse button. Default: `true`.
    pub fn allow_boxed_zoom(self, on: bool) -> (p: Self)
        ensures
            p == (Plot { allow_boxed_zoom: on, ..self }),
    {
        Plot { allow_boxed_zoom: on, ..self }
    }

    /// Config the button pointer to use for boxed zooming. Default: `Secondary`.
    pub fn boxed_zoom_pointer_button(self, boxed_zoom_pointer_button: PointerButton) -> (p: Self)
        ensures
            p == (Plot { boxed_zoom_pointer_button, ..self }),
    {
        Plot { boxed_zoom_pointer_button, ..self }
    }

    /// Whether to allow dragging in the plot to move the bounds. Default: `true`.
    pub fn allow_drag(self, on: bool) -> (p: Self)
        ensures
            p == (Plot { allow_drag: on, ..self }),
    {
        Plot { allow_drag: on, ..self }
    }

    /// Whether or not to show the background. Can be useful to disable if the
    /// plot is overlaid over existing content. Default: `true`.
    pub fn show_background(self, show: bool) -> (p: Self)
        ensures
            p == (Plot { show_background: show, ..self }),
    {
        Plot { show_background: show, ..self }
    }

    /// Show the axes. Can be useful to disable if the plot is overlaid over an
    /// existing grid or content. Default: `[true; 2]`.
    pub fn show_axes(self, show: [bool; 2]) -> (p: Self)
        ensures
            p == (Plot { show_axes: show, ..self }),
    {
        Plot { show_axes: show, ..self }
    }

    /// Add a `LinkedAxisGroup` so that this plot will share the bounds with other
    /// plots that have this group assigned. A plot cannot belong to more than one
    /// group: the group replaces any earlier one.
    pub fn link_axis(self, group: LinkedAxisGroup<R>) -> (p: Self)
        ensures
            p == (Plot { linked_axes: Some(group), ..self }),
    {
        Plot { linked_axes: Some(group), ..self }
    }
}

} // verus!
