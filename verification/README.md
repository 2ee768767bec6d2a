# egui_plot

The decision logic of a 2D plot widget, verified with Verus.

- `src/color.rs`: the colours that items carry; all-zero means "no colour chosen".
- `src/items.rs`: the items a plot draws (lines, polygons, texts, points, arrows,
  images, horizontal and vertical lines, box plots, bar charts), each holding what
  the plot's logic reads of it and the caller's geometry.
- `src/plot_ui.rs`: `PlotUi`, which collects the items of a plot, leaves out the
  ones with nothing to draw, and hands out automatic colours in order.
- `src/plot.rs`: `Plot`, the options that decide how a plot reacts to the user;
  `frame::begin_frame` and `frame::interactions` decide by them.
- `src/link.rs`: `LinkedAxisGroup`, which axes plots of a group share and the
  bounds a plot of the group last wrote.
- `src/frame.rs`: the decisions of one frame: which items are drawn and in which
  order, when the bounds follow the content, boxed zooming, zooming, scrolling
  and dragging as the options allow, and the cursor; `begin_frame` and
  `end_frame` open and close a frame.
- `src/names.rs`: the set of hidden item names, an `AHashSet` of `ahash`.
- `app/`: the floating-point parts (grid marks, automatic colour hues, coordinate
  and label formatting, the plot's size options and bounds), one frame run
  through the library's decisions (`app/frame.rs`), the sharing of a linked group
  between plots, and the conversions to the types of `epaint`, `emath` and `serde`.
