//! neural-space: the decision logic of an autonomic nervous system for a
//! hypersonic vehicle, verified with Verus.
//!
//! Every physical quantity that the library reads or decides on is held in
//! fixed point: an `i64` count of millionths of the quantity's SI unit
//! (micro-kelvin, micro-pascal, micro-radian per second, ...). See [`units`].
pub mod units;
pub mod afferent;
pub mod central;
pub mod efferent;
pub mod reflex;
