//! Control core of a device-wide audio equalizer.
//!
//! The crate decides; it performs no call into the audio engine, starts no
//! thread and draws nothing. What it holds and decides:
//!
//! - `registry`: the slot for the single handle to the audio engine;
//! - `bridge`: the operations on the engine, each of which runs the engine
//!   call it is given on the installed handle and keeps a local mirror of
//!   the band gains and the volume in step with the engine's replies;
//! - `poller`: the life cycle of the task that polls the engine for
//!   spectral frames, and the frame on show;
//! - `mapper`, `drag`: the chart geometry that turns a drag gesture into a
//!   gain and a gain into a marker position;
//! - `bands`: the gains themselves;
//! - `error`: the failures that an operation can report.
//!
//! Decibel values are integers in hundredths of a decibel and chart
//! positions are integers in thousandths of a pixel.

pub mod bands;
pub mod bridge;
pub mod drag;
pub mod error;
pub mod mapper;
pub mod poller;
pub mod registry;
