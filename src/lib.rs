//! Mach-style time calls for an emulated process: the timebase ratio that
//! turns ticks into nanoseconds, and elapsed ticks on the host's monotonic
//! clock since a per-process reference point.

pub mod timebase;
pub mod absolute_time;
