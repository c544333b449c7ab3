//! Push-to-talk audio pipeline.
//!
//! A talk gate, the push-to-talk signal, is open while the user holds the
//! key. Capture side: while it is open, raw samples are assembled into
//! fixed-size frames, each frame is compressed into a packet by a codec that
//! the embedding program drives, and every packet is fanned out to the
//! registered sinks and collected into the burst of the interval; when it
//! closes, the burst is delivered. Playback side: decoded samples are queued
//! in a jitter buffer that is drained in exact amounts, padded with silence
//! when it runs short.

pub mod packet;
pub mod frame;
pub mod assembler;
pub mod burst;
pub mod traits;
pub mod trace;
pub mod recorder;
pub mod channels;
pub mod sinks;
pub mod fanout;
pub mod player;
pub mod transcribe;
pub mod graph;
pub mod relay;
pub mod device;
pub mod options;
pub mod message;
pub mod runtime;
