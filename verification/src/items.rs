use vstd::prelude::*;

use crate::color::Rgba8;

verus! {

// The items a plot draws. Each holds, as plain values, what the plot's own logic
// reads of it (its name, whether it is highlighted, its colour and whether it has
// anything to draw); the geometry itself is of the caller's type `T`.
/// A line through a series of values.
pub struct Line<T> {
    pub name: String,
    pub series: Vec<T>,
    /// Colour of the stroke; transparent means "pick one automatically".
    pub color: Rgba8,
    pub highlight: bool,
}

/// A convex polygon through a series of values.
pub struct Polygon<T> {
    pub name: String,
    pub series: Vec<T>,
    /// Colour of the stroke; transparent means "pick one automatically".
    pub color: Rgba8,
    pub highlight: bool,
}

/// A text placed at a position of the plot.
pub struct Text<T> {
    pub name: String,
    pub position: T,
    pub text: String,
    /// Colour of the text; transparent means the theme's text colour.
    pub color: Rgba8,
    pub highlight: bool,
}

/// A set of data points.
pub struct Points<T> {
    pub name: String,
    pub series: Vec<T>,
    /// Colour of the markers; transparent means "pick one automatically".
    pub color: Rgba8,
    pub highlight: bool,
}

/// Arrows from origins to tips.
pub struct Arrows<T> {
    pub name: String,
    pub origins: Vec<T>,
    pub tips: Vec<T>,
    /// Colour of the arrows; transparent means "pick one automatically".
    pub color: Rgba8,
    pub highlight: bool,
}

/// An image placed in the plot.
pub struct PlotImage<T> {
    pub name: String,
    pub image: T,
    pub highlight: bool,
}

/// A horizontal line across the whole width of the plot.
pub struct HLine<T> {
    pub name: String,
    pub at: T,
    /// Colour of the stroke; transparent means "pick one automatically".
    pub color: Rgba8,
    pub highlight: bool,
}

/// A vertical line across the whole height of the plot.
pub struct VLine<T> {
    pub name: String,
    pub at: T,
    /// Colour of the stroke; transparent means "pick one automatically".
    pub color: Rgba8,
    pub highlight: bool,
}

/// A box plot diagram.
pub struct BoxPlot<T> {
    pub name: String,
    pub boxes: Vec<T>,
    /// The diagram's default colour; transparent means "pick one automatically".
    pub default_color: Rgba8,
    pub highlight: bool,
}

/// A bar chart.
pub struct BarChart<T> {
    pub name: String,
    pub bars: Vec<T>,
    /// The chart's default colour; transparent means "pick one automatically".
    pub default_color: Rgba8,
    pub highlight: bool,
}

/// One item of a plot, of any kind.
pub enum ItemShape<T> {
    Line(Line<T>),
    Polygon(Polygon<T>),
    Text(Text<T>),
    Points(Points<T>),
    Arrows(Arrows<T>),
    Image(PlotImage<T>),
    HLine(HLine<T>),
    VLine(VLine<T>),
    BoxPlot(BoxPlot<T>),
    BarChart(BarChart<T>),
}

/// An item as the plot holds it: its shape, the automatic colour it was given
/// (the index in the sequence of automatic colours, or `None` where it kept its
/// own colour) and whether it is drawn highlighted.
pub struct PlotItem<T> {
    pub shape: ItemShape<T>,
    pub auto_color: Option<usize>,
    pub highlighted: bool,
}

impl<T> ItemShape<T> {
    /// The name under which the item appears in the legend.
    pub open spec fn spec_name(&self) -> Seq<char> {
        match self {
            ItemShape::Line(x) => x.name@,
            ItemShape::Polygon(x) => x.name@,
            ItemShape::Text(x) => x.name@,
            ItemShape::Points(x) => x.name@,
            ItemShape::Arrows(x) => x.name@,
            ItemShape::Image(x) => x.name@,
            ItemShape::HLine(x) => x.name@,
            ItemShape::VLine(x) => x.name@,
            ItemShape::BoxPlot(x) => x.name@,
            ItemShape::BarChart(x) => x.name@,
        }
    }

    /// The name under which the item appears in the legend.
    pub fn name(&self) -> (n: &String)
        ensures
            n@ == self.spec_name(),
    {
        match self {
            ItemShape::Line(x) => &x.name,
            ItemShape::Polygon(x) => &x.name,
            ItemShape::Text(x) => &x.name,
            ItemShape::Points(x) => &x.name,
            ItemShape::Arrows(x) => &x.name,
            ItemShape::Image(x) => &x.name,
            ItemShape::HLine(x) => &x.name,
            ItemShape::VLine(x) => &x.name,
            ItemShape::BoxPlot(x) => &x.name,
            ItemShape::BarChart(x) => &x.name,
        }
    }
}

impl<T> PlotItem<T> {
    /// The name under which the item appears in the legend.
    pub open spec fn spec_name(&self) -> Seq<char> {
        self.shape.spec_name()
    }

    /// The same item, drawn highlighted.
    pub open spec fn spec_highlight(self) -> PlotItem<T> {
        PlotItem { highlighted: true, ..self }
    }
}

} // verus!
