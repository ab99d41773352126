//! Buffer geometry and error handling of a double-double precision real FFT.
//!
//! The transforms themselves run on floating-point data and live outside this
//! library; what is verified here is every decision the transforms make on
//! integers and flags: how long the spectrum of a signal is, which buffers a
//! transform accepts, which error it reports for a wrong buffer or for a
//! spectrum whose edge bins carry an imaginary part, and how an engine error
//! is handed on.

pub mod error;
pub mod shape;
pub mod laws;
