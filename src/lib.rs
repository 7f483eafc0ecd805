//! Aggregate laptop battery status: charge percentage and a linear time
//! estimate to full or empty, computed from power-supply telemetry.

pub mod text;
pub mod telemetry;
pub mod aggregate;
pub mod display;
pub mod discovery;
