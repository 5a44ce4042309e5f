//! Co-simulation capture library for a simulated VGA output: accumulates one
//! pixel sample per simulator cycle into a frame buffer and, on demand,
//! validates the frame and encodes it as a PNG image.

pub mod capture;
pub mod frame;

pub use capture::SaveOutcome;
pub use frame::State;
