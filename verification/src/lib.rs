//! Realtime stimulus engine for a 32-transducer haptic array.
//!
//! A host instrument sends timestamped note and expression commands over a
//! local socket; the server decodes them, pushes them through a bounded
//! lock-free bridge into the audio callback, and synthesises one sample per
//! transducer per frame: propagating-wave voices render a moving point source
//! through 32 fractional delay lines, standing-wave voices emit in phase on
//! every channel.  All sample arithmetic is Q16 fixed point so that the whole
//! pipeline, from command routing to the final limiter, carries contracts.

pub mod bridge;
pub mod codec;
pub mod delay;
pub mod engine;
pub mod envelope;
pub mod fixed;
pub mod pool;
pub mod protocol;
pub mod voice;
