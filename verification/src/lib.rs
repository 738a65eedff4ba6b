//! The decisions behind streams on CoreAudio devices, above all duplex streams, which capture and
//! render audio in a single device callback.
//!
//! Talking to CoreAudio and deciding what to say to it are kept apart. Everything here decides:
//! a procedure such as building a stream is a value that names the next request and is resumed
//! with the reply, and a callback hands in what it was called with and is told what to do. The
//! program around it carries the requests out.
//!
//! - [`duplex`]: duplex configurations, timestamps, and the render callback of a duplex stream;
//! - [`duplex_builder`] and [`builder`]: building streams, with [`unit`] for the vocabulary;
//! - [`callback`]: the callbacks of streams in one direction;
//! - [`stream`]: starting, stopping, watching and tearing down streams;
//! - [`device`], [`properties`], [`physical`] and [`rate`]: what devices are, say, and are set to;
//! - [`host`]: the host;
//! - [`binary64`], [`time`], [`config`], [`error`] and [`status`]: what all of these speak of;
//! - [`laws`]: what holds of all of this, over whole runs and for all inputs.

pub mod binary64;
pub mod builder;
pub mod callback;
pub mod config;
pub mod device;
pub mod duplex;
pub mod duplex_builder;
pub mod error;
pub mod host;
pub mod laws;
pub mod physical;
pub mod properties;
pub mod rate;
pub mod status;
pub mod stream;
pub mod time;
pub mod unit;
