//! Timestamp decomposition and strftime-style formatting around the host's
//! calendar and rendering primitives.
//!
//! The library holds the decisions: pattern validation, the buffer-growth
//! protocol of the rendering primitive, millisecond substitution, the
//! time-zone colon fix-up and the named presets. The primitives themselves
//! are driven by the caller, which hands their results back as plain values.

pub mod calendar;
pub mod error;
pub mod fixup;
pub mod pattern;
pub mod presets;
pub mod render;
mod text;
pub mod timestamp;

pub use calendar::{Breakdown, Components};
pub use error::Error;
pub use fixup::{insert_offset_colon, substitute_ms};
pub use pattern::validate_format;
pub use presets::{http_dates_end_in_gmt, iso8601_pattern, DateFormat, Zone};
pub use render::{
    rendering_never_outgrows_its_buffer, take_output, Render, RenderAction, RenderPhase,
};
pub use timestamp::{
    from_system_time, from_system_time_ms, now, now_ms, timestamp_from_secs,
    timestamp_ms_from_parts, TimeStamp, TimeStampMs,
};
