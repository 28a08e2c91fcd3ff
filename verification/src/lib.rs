//! Chart descriptions and label text for histories of indoor climate
//! readings: temperature, pressure, CO₂, humidity and battery level.
//!
//! The crate decodes stored rows into [`Record`]s, says how each
//! [`Metric`] is drawn, and writes the text of tooltips and axis ticks.
//! It draws nothing and opens no file; a front end does both.

pub mod instant;
pub mod metric;
pub mod record;
pub mod row;

pub use instant::{axis_time, is_representable, tooltip_time, TimeError};
pub use metric::{LineColor, Metric, Reading};
pub use record::{decode_rows, History, Record};
pub use row::{Column, Row, RowError};
