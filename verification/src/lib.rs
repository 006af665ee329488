//! Sampling-and-exposition engine of a weather metrics exporter.
//!
//! A sampler refreshes a metric registry from observations of one weather
//! station, an exposition endpoint renders a point-in-time snapshot of that
//! registry, and a lifecycle controller orders startup and graceful shutdown.
//! Every decision of the engine is a verified function over plain values; the
//! program around it performs the waiting, the network calls and the signals.

pub mod text;
pub mod observation;
pub mod registry;
pub mod exposition;
pub mod sampler;
pub mod lifecycle;
