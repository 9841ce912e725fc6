//! A strongly typed builder and data model for chart configuration
//! documents: host types classify to axis kinds at compile time and carry
//! their own serialization strategies, a fluent builder assembles titles,
//! axes, datasets, transforms and series, and a verified serializer turns
//! the finished configuration into its JSON wire document and into an
//! embeddable script fragment.

pub mod axis_typing;
pub mod builder;
pub mod common;
pub mod json;
pub mod options;
pub mod temporal;
pub mod templates;
pub mod wire;

pub use axis_typing::{AxisKindMarker, CategoryAxis, TimeAxis, ValueAxis};
pub use json::Json;
pub use options::EChartOptions;
