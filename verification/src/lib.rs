//! Constant-sum curve pricing for a pluggable exchange hook.
//!
//! A constant-sum curve trades two assets at a fixed 1:1 rate, independent of
//! direction and of the currencies involved. The engine here answers the two
//! reciprocal pricing questions of such a curve and reports a version string
//! set once at construction. Every pricing call also hands back the
//! notification record that a host is expected to append to its event log.

pub mod curve;
pub mod primitives;

pub use curve::ConstantSumCurve;
pub use curve::Error;
pub use curve::IUniswapV4Curve;
pub use curve::Notification;
pub use primitives::Currency;
