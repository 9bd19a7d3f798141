//! The fan-out core of an internet-radio relay.
//!
//! Broadcasters upload audio to a *source*; each source is decoded to PCM,
//! paced to real time and cut into batches; each *stream* encodes the batches
//! of one source and hands the bytes to any number of listeners.
//!
//! - [`audio`]: PCM frames, silence, and what decoders and encoders need
//!   around them.
//! - [`config`]: the configured sources and streams.
//! - [`fanout`]: the broadcast channel between the stages.
//! - [`sync`]: the rendezvous that admits one broadcaster at a time.
//! - [`pacing`]: exact rational time.
//! - [`session`]: the batching and the clock of a live session.
//! - [`source`] and [`stream`]: the steps of the two kinds of worker.
//! - [`server`]: the rules of the HTTP endpoints.

pub mod audio;
pub mod config;
pub mod fanout;
pub mod pacing;
pub mod server;
pub mod session;
pub mod source;
pub mod stream;
pub mod sync;
