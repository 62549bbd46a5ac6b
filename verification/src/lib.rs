//! A hybrid logical clock: a timestamp pairing physical wall-clock
//! milliseconds with a logical counter, so that successive readings of one
//! clock never decrease and an event that observes a remote timestamp is
//! stamped strictly after it, even under clock skew.

pub mod clock;
pub mod model;
pub mod node;
pub mod time;

pub use clock::HybridLogicalClock;
