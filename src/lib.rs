//! Duty-status log chart.
//!
//! The library decides everything the chart shows: where each grid line,
//! label and status line goes, which colour and font it takes, and whether
//! the static grid has to be painted at all. It hands the result out as a
//! list of drawing operations with exact integer coordinates; the host that
//! owns the drawing surface carries them out.

pub mod draw;
pub mod geometry;
pub mod redraw;
pub mod labels;
pub mod segment;
pub mod status;
pub mod style;

pub use draw::{draw_grid, draw_segments, DrawOp};
pub use geometry::{hour_position, minute_position, row_center_position, row_rule_position, Point};
pub use labels::{generate_hour_labels, hour_label_of};
pub use redraw::RedrawState;
pub use segment::Segment;
pub use status::DutyStatus;
pub use style::ChartProps;
