//! Filtering, grouping and summarising of tabular samples for plotting, with the
//! presentation documents that carry the plots.
//!
//! - `filtering`: keep/drop masks, combined by conjunction and applied to columns.
//! - `aggregate`: the kept samples grouped by legend.
//! - `plot_data`: points grouped by legend, in insertion order.
//! - `stats`: quartile and median positions, metric names, runs of equal keys.
//! - `binning`: assignment of points to the cells of a fixed grid.
//! - `key`: column identifiers and the kind of their values.
//! - `layout`, `palette`: subplot grid and series colours.
//! - `correctness`: confusion counts of a classifier.
//! - `presentation`, `document`, `html`: tables, links and sections, and their HTML.

pub mod aggregate;
pub mod binning;
pub mod correctness;
pub mod document;
pub mod filtering;
pub mod html;
pub mod key;
pub mod layout;
pub mod palette;
pub mod plot_data;
pub mod presentation;
pub mod stats;
