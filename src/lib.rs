//! A fixed-rate pacer: it decides, from readings of a monotonic clock, how long
//! to wait before the next tick or by how much a tick came late.

pub mod laws;
pub mod limiter;
pub mod span;

pub use limiter::{Limiter, Step};
pub use span::Span;
