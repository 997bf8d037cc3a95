//! Frame-rate estimation for the process in the foreground.
//!
//! Frame times arrive from a capture source, pass the target binding, and
//! are kept in a bounded sliding window; the statistics are computed from a
//! snapshot of that window whenever they are asked for.
//!
//! Everything here is plain computation on values that the caller hands in:
//! no clock is read, no thread or process is started, nothing is locked.
//! The functions that decide on the capture source return a
//! [`source::SourceAction`], which the caller carries out, and take the
//! caller's report of how that went. A caller that feeds a
//! [`fps_capture::FpsCapture`] from one thread and reads it from another
//! keeps it behind one lock.
//!
//! Frame times are whole microseconds. Rates are in thousandths of a frame
//! per second.

pub mod binder;
pub mod capture_laws;
pub mod decimal;
pub mod fallback;
pub mod fps_capture;
pub mod fullscreen;
pub mod helper;
pub mod log;
pub mod overlay;
pub mod settings;
pub mod source;
pub mod stats;
pub mod stats_lemmas;
pub mod text;
pub mod trace;
pub mod tray;
pub mod window;
