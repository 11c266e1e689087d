//! Interactive catalog of a multi-layer vector dataset: derived per-layer
//! metadata (extent, spatial reference, reprojected display bounding box),
//! wrap-around layer selection, and the key-driven session state machine.
//!
//! Coordinates are IEEE 754 binary64 values carried by their bit patterns,
//! so that the defaulting and degradation rules over them can be verified;
//! conversion to and from native floating-point values happens outside the
//! library, at the boundary that reads the dataset and draws the screen.

pub mod app;
pub mod data;
pub mod layer_list;

pub use data::Extent;
pub use data::LayerInfo;
pub use data::LayerRecord;
pub use data::PositionMap;
pub use data::Srs;
