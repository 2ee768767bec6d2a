use vstd::prelude::*;

verus! {

/// The bounds of a plot per axis, each of the caller's type `R` (the range of
/// values shown along that axis).
#[derive(Clone, Copy, Debug, PartialEq)]
pub struct AxisBounds<R> {
    pub x: R,
    pub y: R,
}

/// Defines how multiple plots share the same range for one or both of their axes:
/// which axes a plot of the group takes over from the group, and the bounds that
/// a plot of the group last wrote, if any. Sharing one group between several
/// plots is up to the caller, which hands each plot the same group.
#[derive(Clone, Debug, PartialEq)]
pub struct LinkedAxisGroup<R> {
    pub link_x: bool,
    pub link_y: bool,
    pub bounds: Option<AxisBounds<R>>,
}

impl<R> LinkedAxisGroup<R> {
    /// The bounds that a plot of the group last wrote.
    pub open spec fn spec_bounds(&self) -> Option<AxisBounds<R>> {
        self.bounds
    }

    /// A group that links the x-axis where `link_x` and the y-axis where `link_y`,
    /// and holds no bounds yet.
    pub fn new(link_x: bool, link_y: bool) -> (g: Self)
        ensures
            g.link_x == link_x,
            g.link_y == link_y,
            g.spec_bounds() is None,
    {
        LinkedAxisGroup { link_x, link_y, bounds: None }
    }

    /// Only link the x-axis.
    pub fn x() -> (g: Self)
        ensures
            g.link_x,
            !g.link_y,
            g.spec_bounds() is None,
    {
        Self::new(true, false)
    }

    /// Only link the y-axis.
    pub fn y() -> (g: Self)
        ensures
            !g.link_x,
            g.link_y,
            g.spec_bounds() is None,
    {
        Self::new(false, true)
    }

    /// Link both axes. Note that this still respects the aspect ratio of the individual plots.
    pub fn both() -> (g: Self)
        ensures
            g.link_x,
            g.link_y,
            g.spec_bounds() is None,
    {
        Self::new(true, true)
    }

    /// Change whether the x-axis is linked for this group.
    pub fn set_link_x(&mut self, link: bool)
        ensures
            final(self).link_x == link,
            final(self).link_y == old(self).link_y,
            final(self).spec_bounds() == old(self).spec_bounds(),
    {
        self.link_x = link;
    }

    /// Change whether the y-axis is linked for this group.
    pub fn set_link_y(&mut self, link: bool)
        ensures
            final(self).link_x == old(self).link_x,
            final(self).link_y == link,
            final(self).spec_bounds() == old(self).spec_bounds(),
    {
        self.link_y = link;
    }

    /// The bounds that a plot of the group last wrote, if any.
    pub fn get(&self) -> (b: Option<AxisBounds<R>>)
        where
            R: Copy,
        ensures
            b == self.spec_bounds(),
    {
        self.bounds
    }

    /// Share `bounds` with the other plots of the group: what they read next.
    pub fn set(&mut self, bounds: AxisBounds<R>)
        ensures
            final(self).spec_bounds() == Some(bounds),
            final(self).link_x == old(self).link_x,
            final(self).link_y == old(self).link_y,
    {
        self.bounds = Some(bounds);
    }

    /// The bounds of a plot of this group once it takes over the group's bounds:
    /// each linked axis shows the group's range, each other axis keeps the plot's own.
    pub fn take_linked(&self, own: AxisBounds<R>, group: AxisBounds<R>) -> (b: AxisBounds<R>)
        ensures
            b.x == (if self.link_x { group.x } else { own.x }),
            b.y == (if self.link_y { group.y } else { own.y }),
    {
        let AxisBounds { x: own_x, y: own_y } = own;
        let AxisBounds { x: group_x, y: group_y } = group;
        let x = if self.link_x { group_x } else { own_x };
        let y = if self.link_y { group_y } else { own_y };
        AxisBounds { x, y }
    }

    /// A plot's bounds at the start of a frame: where the group holds bounds, the
    /// plot takes over its linked axes from them (and says so); otherwise it keeps
    /// its own bounds.
    pub fn transfer(&self, own: AxisBounds<R>) -> (r: (AxisBounds<R>, bool))
        where
            R: Copy,
        ensures
            r.1 == self.spec_bounds() is Some,
            self.spec_bounds() is None ==> r.0 == own,
            self.spec_bounds() matches Some(group) ==> {
                &&& r.0.x == (if self.link_x { group.x } else { own.x })
                &&& r.0.y == (if self.link_y { group.y } else { own.y })
            },
    {
        match self.get() {
            Some(group) => (self.take_linked(own, group), true),
            None => (own, false),
        }
    }
}

/// Whether a plot that keeps a fixed data aspect ratio adjusts its x-axis and keeps
/// its y-axis: so it does when it belongs to a group that links the y-axis alone.
pub fn aspect_preserves_y<R>(linked_axes: &Option<LinkedAxisGroup<R>>) -> (b: bool)
    ensures
        b == (linked_axes matches Some(g) && g.link_y && !g.link_x),
{
    match linked_axes {
        Some(group) => group.link_y && !group.link_x,
        None => false,
    }
}

} // verus!
