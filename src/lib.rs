//! Acquisition engine for a digital scale on a serial line: the frame
//! parser, the extraction of complete lines from raw read blocks, and the
//! state machine that decides what the polling worker does next.
pub mod text;
pub mod decimal;
pub mod scale;
pub mod session;
pub mod acquisition;
pub mod interval;
pub mod controls;
