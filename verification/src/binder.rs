//! The target binding: which process is measured, and which samples are
//! let through.

use crate::decimal::FrameReading;
use vstd::prelude::*;

verus! {

/// The process id that stands for "no target".
pub const NO_TARGET: u32 = 0;

/// Shortest frame time that is taken for a measurement, in microseconds.
pub const MIN_FRAME_MICROS: u32 = 1_000;

/// Longest frame time that is taken for a measurement, in microseconds.
pub const MAX_FRAME_MICROS: u32 = 1_000_000;

/// Whether a frame time of `micros` microseconds is a measurement rather
/// than noise: between one millisecond and one second, both included.
pub open spec fn valid_frame_time(micros: u64) -> bool {
    MIN_FRAME_MICROS <= micros && micros <= MAX_FRAME_MICROS
}

/// Whether a frame time that was read from text is a measurement rather
/// than noise. The bounds are those of `valid_frame_time`, held against the
/// time as it was written: a time that was rounded down to one second is
/// longer than that, and no measurement.
pub open spec fn valid_reading(time: FrameReading) -> bool {
    MIN_FRAME_MICROS <= time.micros && (time.micros < MAX_FRAME_MICROS || (time.micros
        == MAX_FRAME_MICROS && !time.cut))
}

/// Whether a frame time that was read from text is a measurement rather
/// than noise.
pub fn is_valid_reading(time: FrameReading) -> (valid: bool)
    ensures
        valid == valid_reading(time),
        valid ==> valid_frame_time(time.micros),
{
    MIN_FRAME_MICROS as u64 <= time.micros && (time.micros < MAX_FRAME_MICROS as u64 || (
    time.micros == MAX_FRAME_MICROS as u64 && !time.cut))
}

/// Whether a frame time is a measurement rather than noise.
pub fn is_valid_frame_time(micros: u64) -> (valid: bool)
    ensures
        valid == valid_frame_time(micros),
{
    MIN_FRAME_MICROS as u64 <= micros && micros <= MAX_FRAME_MICROS as u64
}

/// Holds the id of the process that is measured; `NO_TARGET` while none is.
pub struct TargetBinder {
    current: u32,
}

impl TargetBinder {
    /// The bound process id, or `NO_TARGET`.
    pub closed spec fn target(&self) -> u32 {
        self.current
    }

    /// A binder without a target.
    pub fn new() -> (binder: Self)
        ensures
            binder.target() == NO_TARGET,
    {
        TargetBinder { current: NO_TARGET }
    }

    /// The bound process id, or `NO_TARGET`.
    pub fn current(&self) -> (pid: u32)
        ensures
            pid == self.target(),
    {
        self.current
    }

    /// Whether a process is bound.
    pub fn is_bound(&self) -> (bound: bool)
        ensures
            bound == (self.target() != NO_TARGET),
    {
        self.current != NO_TARGET
    }

    /// Makes `pid` the target; `NO_TARGET` unbinds. Returns whether the
    /// target changed, which is when the samples gathered so far no longer
    /// apply.
    pub fn bind(&mut self, pid: u32) -> (changed: bool)
        ensures
            final(self).target() == pid,
            changed == (old(self).target() != pid),
    {
        let changed = self.current != pid;
        self.current = pid;
        changed
    }

    /// Whether a frame time of `micros` microseconds, measured for process
    /// `pid`, belongs in the window: a process is bound, it is that
    /// process, and the frame time is a valid one.
    pub fn accept(&self, pid: u32, micros: u64) -> (accepted: bool)
        ensures
            accepted == (self.target() != NO_TARGET && pid == self.target() && valid_frame_time(
                micros,
            )),
    {
        self.current != NO_TARGET && pid == self.current && is_valid_frame_time(micros)
    }
}

} // verus!
