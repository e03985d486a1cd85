//! Traffic shaping for a byte stream: a bounded ring buffer that decouples a
//! producer from a consumer, and a pacer that decides when bytes may be
//! sent.

pub mod affinity;
pub mod clock;
pub mod pacing;
pub mod pacing_model;
pub mod queue;
pub mod registry;
pub mod ring_model;
pub mod shaper;
