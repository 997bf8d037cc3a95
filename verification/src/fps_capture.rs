//! The capture context and its entry points. The context holds the target
//! binding, the sample window and what is known of the capture source; its
//! functions decide, and tell the caller what to do to the source that
//! runs outside.

use crate::binder::{is_valid_reading, valid_frame_time, valid_reading, TargetBinder, NO_TARGET};
use crate::decimal::FrameReading;
use crate::fallback::{mark_after_tick, sample_at_tick, FallbackSampler};
use crate::helper::{is_timing_column_of, row_reading, HelperReader, LineOutcome};
use crate::source::{CaptureSourceState, SourceAction, SourceAvailability, SourceKind};
use crate::stats::{compute_stats, fps_of, one_percent_low_of, stats_of};
use crate::trace::{frame_time_since, TraceTracker};
use crate::window::{pushed, SampleWindow, MAX_SAMPLES};
use vstd::prelude::*;

verus! {

/// Frame-rate statistics of one window snapshot. Both rates are in
/// thousandths of a frame per second, so 60 frames per second is 60000.
#[derive(Debug, Clone, Copy, PartialEq, Eq, Structural, Default)]
pub struct FpsData {
    /// Mean rate over the most recent samples.
    pub fps: u64,
    /// Rate implied by the slowest hundredth of the samples.
    pub one_percent_low: u64,
}

/// Where the capture as a whole is in its life.
#[derive(Debug, Clone, Copy, PartialEq, Eq, Structural)]
pub enum LifecycleState {
    /// Created, not initialised.
    Idle,
    /// Initialisation has begun: the sources are being probed.
    Initializing,
    /// Initialised: targets can be bound and samples taken in.
    Running,
    /// Shut down, for good.
    Stopped,
}

/// Why the capture could not be initialised.
#[derive(Debug, Clone, Copy, PartialEq, Eq, Structural)]
pub enum CaptureError {
    /// No kind of capture source is available.
    SourceUnavailable,
    /// The capture has been shut down.
    ShutDown,
}

impl CaptureError {
    /// The wording of the error.
    pub open spec fn text(self) -> Seq<char> {
        match self {
            CaptureError::SourceUnavailable => "no capture source is available"@,
            CaptureError::ShutDown => "frame capture has been shut down"@,
        }
    }

    /// Returns the wording of the error.
    pub fn message(&self) -> (wording: String)
        ensures
            wording@ == self.text(),
    {
        match self {
            CaptureError::SourceUnavailable => "no capture source is available".to_owned(),
            CaptureError::ShutDown => "frame capture has been shut down".to_owned(),
        }
    }
}

/// The state of a capture context, as the contracts see it.
pub struct CaptureModel {
    pub lifecycle: LifecycleState,
    /// The bound process id, or `NO_TARGET`.
    pub target: u32,
    /// The window, oldest sample first, in microseconds.
    pub samples: Seq<u32>,
    /// The kinds of source found available at initialisation.
    pub sources: SourceAvailability,
    /// The kind of source in use.
    pub source: Option<SourceKind>,
    pub source_state: CaptureSourceState,
}

impl CaptureModel {
    /// What holds of every context: the window is within its capacity and
    /// holds valid frame times only, and none without a target or while the
    /// capture does not run; nothing is bound after a shutdown; no source
    /// is chosen before the capture runs; a source that is alive serves a
    /// target, and its state fits its kind.
    pub open spec fn wf(self) -> bool {
        &&& self.samples.len() <= MAX_SAMPLES
        &&& forall|i: int|
            0 <= i < self.samples.len() ==> valid_frame_time(#[trigger] self.samples[i] as u64)
        &&& self.target == NO_TARGET ==> self.samples.len() == 0
        &&& self.lifecycle != LifecycleState::Running ==> self.samples.len() == 0
        &&& self.lifecycle == LifecycleState::Stopped ==> self.target == NO_TARGET
        &&& self.lifecycle != LifecycleState::Running ==> !self.source_state.is_alive()
        &&& (self.lifecycle == LifecycleState::Idle || self.lifecycle
            == LifecycleState::Initializing) ==> self.source is None
        &&& self.source matches Some(kind) ==> self.sources.offers(kind)
        &&& self.source_state.is_alive() ==> self.target != NO_TARGET && self.source is Some
        &&& (self.source_state == CaptureSourceState::Active || self.source_state
            == CaptureSourceState::Degraded) ==> (self.source matches Some(kind)
            && self.source_state == kind.running_state())
    }

    /// The state of a new context.
    pub open spec fn initial() -> CaptureModel {
        CaptureModel {
            lifecycle: LifecycleState::Idle,
            target: NO_TARGET,
            samples: Seq::empty(),
            sources: SourceAvailability { trace: false, helper: false, fallback: false },
            source: None,
            source_state: CaptureSourceState::Uninitialized,
        }
    }

    /// The state after initialisation was begun.
    pub open spec fn begun(self) -> CaptureModel {
        if self.lifecycle == LifecycleState::Idle {
            CaptureModel { lifecycle: LifecycleState::Initializing, ..self }
        } else {
            self
        }
    }

    /// Why initialisation with the sources `available` fails, if it does:
    /// after a shutdown, and where no source is available. A running
    /// capture just stays as it is.
    pub open spec fn init_error(self, available: SourceAvailability) -> Option<CaptureError> {
        match self.lifecycle {
            LifecycleState::Running => None,
            LifecycleState::Stopped => Some(CaptureError::ShutDown),
            _ => if available.preferred() is None {
                Some(CaptureError::SourceUnavailable)
            } else {
                None
            },
        }
    }

    /// The state after initialisation with the sources `available`. The
    /// capture runs from then on, also where no source was found: it then
    /// yields no data. The target that was bound before stays bound, and
    /// the chosen source is started for it.
    pub open spec fn initialized(self, available: SourceAvailability) -> CaptureModel {
        match self.lifecycle {
            LifecycleState::Running => self,
            LifecycleState::Stopped => self,
            _ => CaptureModel {
                lifecycle: LifecycleState::Running,
                sources: available,
                source: available.preferred(),
                source_state: if self.target != NO_TARGET && available.preferred() is Some {
                    CaptureSourceState::Starting
                } else {
                    CaptureSourceState::Uninitialized
                },
                ..self
            },
        }
    }

    /// What initialisation with the sources `available` asks of the
    /// caller: to start the chosen source for the target that is bound
    /// already, if there is one.
    pub open spec fn init_action(self, available: SourceAvailability) -> SourceAction {
        match self.lifecycle {
            LifecycleState::Running => SourceAction::Nothing,
            LifecycleState::Stopped => SourceAction::Nothing,
            _ => match available.preferred() {
                Some(kind) => if self.target != NO_TARGET {
                    SourceAction::Start { kind, pid: self.target }
                } else {
                    SourceAction::Nothing
                },
                None => SourceAction::Nothing,
            },
        }
    }

    /// Whether binding `pid` changes anything: not after a shutdown, and
    /// only if `pid` is not bound already.
    pub open spec fn rebinds(self, pid: u32) -> bool {
        self.lifecycle != LifecycleState::Stopped && pid != self.target
    }

    /// The state after binding `pid`: where that changes the target, the
    /// window is emptied, and the source, if one is chosen, is to be
    /// started for the new target or stopped where there is none.
    pub open spec fn bound(self, pid: u32) -> CaptureModel {
        if !self.rebinds(pid) {
            self
        } else {
            CaptureModel {
                target: pid,
                samples: Seq::empty(),
                source_state: if self.source is None {
                    self.source_state
                } else if pid != NO_TARGET {
                    CaptureSourceState::Starting
                } else if self.source_state.is_alive() {
                    CaptureSourceState::Stopped
                } else {
                    self.source_state
                },
                ..self
            }
        }
    }

    /// What binding `pid` asks of the caller. Before the capture runs no
    /// source is chosen, so nothing is asked for.
    pub open spec fn bind_action(self, pid: u32) -> SourceAction {
        if !self.rebinds(pid) {
            SourceAction::Nothing
        } else {
            match self.source {
                None => SourceAction::Nothing,
                Some(kind) => if pid != NO_TARGET {
                    SourceAction::Start { kind, pid }
                } else if self.source_state.is_alive() {
                    SourceAction::Stop
                } else {
                    SourceAction::Nothing
                },
            }
        }
    }

    /// Whether a frame time of `micros` microseconds measured for `pid` is
    /// taken into the window.
    pub open spec fn accepts(self, pid: u32, micros: u64) -> bool {
        &&& self.lifecycle == LifecycleState::Running
        &&& self.target != NO_TARGET
        &&& pid == self.target
        &&& valid_frame_time(micros)
    }

    /// The state after a frame time of `micros` microseconds measured for
    /// `pid` was offered.
    pub open spec fn ingested(self, pid: u32, micros: u64) -> CaptureModel {
        if self.accepts(pid, micros) {
            CaptureModel { samples: pushed(self.samples, micros as u32), ..self }
        } else {
            self
        }
    }

    /// Whether the frame time `time`, read from text for `pid`, is taken
    /// into the window.
    pub open spec fn accepts_reading(self, pid: u32, time: FrameReading) -> bool {
        &&& self.lifecycle == LifecycleState::Running
        &&& self.target != NO_TARGET
        &&& pid == self.target
        &&& valid_reading(time)
    }

    /// The state after the frame time `time`, read from text for `pid`, was
    /// offered.
    pub open spec fn ingested_reading(self, pid: u32, time: FrameReading) -> CaptureModel {
        if self.accepts_reading(pid, time) {
            CaptureModel { samples: pushed(self.samples, time.micros as u32), ..self }
        } else {
            self
        }
    }

    /// The state after a shutdown.
    pub open spec fn shut_down(self) -> CaptureModel {
        CaptureModel {
            lifecycle: LifecycleState::Stopped,
            target: NO_TARGET,
            samples: Seq::empty(),
            source_state: CaptureSourceState::Stopped,
            ..self
        }
    }

    /// What a shutdown asks of the caller: to stop the source, unless an
    /// earlier shutdown has asked for it.
    pub open spec fn shutdown_action(self) -> SourceAction {
        if self.lifecycle == LifecycleState::Stopped {
            SourceAction::Nothing
        } else {
            SourceAction::Stop
        }
    }

    /// Whether a source of kind `kind` is the one being started.
    pub open spec fn is_starting(self, kind: SourceKind) -> bool {
        &&& self.lifecycle == LifecycleState::Running
        &&& self.source == Some(kind)
        &&& self.source_state == CaptureSourceState::Starting
    }

    /// The state after the source of kind `kind` was reported to run.
    pub open spec fn started(self, kind: SourceKind) -> CaptureModel {
        if self.is_starting(kind) {
            CaptureModel { source_state: kind.running_state(), ..self }
        } else {
            self
        }
    }

    /// The state after the source of kind `kind` was reported not to
    /// start: the next available kind takes its place.
    pub open spec fn failed(self, kind: SourceKind) -> CaptureModel {
        if self.is_starting(kind) {
            CaptureModel {
                source: self.sources.preferred_after(kind),
                source_state: if self.sources.preferred_after(kind) is Some {
                    CaptureSourceState::Starting
                } else {
                    CaptureSourceState::Stopped
                },
                ..self
            }
        } else {
            self
        }
    }

    /// What a failed start of the source of kind `kind` asks of the
    /// caller: to start the next available kind, if there is one.
    pub open spec fn failure_action(self, kind: SourceKind) -> SourceAction {
        if self.is_starting(kind) {
            match self.sources.preferred_after(kind) {
                Some(next) => SourceAction::Start { kind: next, pid: self.target },
                None => SourceAction::Nothing,
            }
        } else {
            SourceAction::Nothing
        }
    }

    /// The state after the source of kind `kind` was reported to have
    /// ended by itself. Nothing is started in its place.
    pub open spec fn exited(self, kind: SourceKind) -> CaptureModel {
        if self.lifecycle == LifecycleState::Running && self.source == Some(kind)
            && self.source_state.is_alive() {
            CaptureModel { source_state: CaptureSourceState::Stopped, ..self }
        } else {
            self
        }
    }

    /// The state after a retry with the sources `available`: while the
    /// capture runs, the choice of source is made anew.
    pub open spec fn retried(self, available: SourceAvailability) -> CaptureModel {
        if self.lifecycle != LifecycleState::Running {
            self
        } else {
            CaptureModel {
                sources: available,
                source: available.preferred(),
                source_state: if self.target != NO_TARGET && available.preferred() is Some {
                    CaptureSourceState::Starting
                } else if self.source_state.is_alive() {
                    CaptureSourceState::Stopped
                } else {
                    self.source_state
                },
                ..self
            }
        }
    }

    /// What a retry with the sources `available` asks of the caller.
    pub open spec fn retry_action(self, available: SourceAvailability) -> SourceAction {
        if self.lifecycle != LifecycleState::Running {
            SourceAction::Nothing
        } else {
            match available.preferred() {
                Some(kind) => if self.target != NO_TARGET {
                    SourceAction::Start { kind, pid: self.target }
                } else {
                    SourceAction::Nothing
                },
                None => if self.source_state.is_alive() {
                    SourceAction::Stop
                } else {
                    SourceAction::Nothing
                },
            }
        }
    }
}

/// The capture context: created once, handed to every entry point. It is
/// owned by one caller at a time; callers on several threads share it behind
/// one lock, which also keeps a change of target and the emptying of the
/// window together.
pub struct FpsCapture {
    lifecycle: LifecycleState,
    binder: TargetBinder,
    window: SampleWindow,
    sources: SourceAvailability,
    source: Option<SourceKind>,
    source_state: CaptureSourceState,
}

impl View for FpsCapture {
    type V = CaptureModel;

    closed spec fn view(&self) -> CaptureModel {
        CaptureModel {
            lifecycle: self.lifecycle,
            target: self.binder.target(),
            samples: self.window@,
            sources: self.sources,
            source: self.source,
            source_state: self.source_state,
        }
    }
}

impl FpsCapture {
    /// What holds of every context that this module hands out.
    pub open spec fn wf(&self) -> bool {
        self@.wf()
    }

    /// Creates an idle context: nothing bound, no samples, no source.
    pub fn new() -> (ctx: Self)
        ensures
            ctx.wf(),
            ctx@ == CaptureModel::initial(),
    {
        FpsCapture {
            lifecycle: LifecycleState::Idle,
            binder: TargetBinder::new(),
            window: SampleWindow::new(),
            sources: SourceAvailability { trace: false, helper: false, fallback: false },
            source: None,
            source_state: CaptureSourceState::Uninitialized,
        }
    }

    /// Begins initialisation. Returns whether the caller should now probe
    /// the sources and call `init`: it should unless the capture runs
    /// already or has been shut down.
    pub fn begin_init(&mut self) -> (probe: bool)
        requires
            old(self).wf(),
        ensures
            final(self).wf(),
            final(self)@ == old(self)@.begun(),
            probe == (final(self)@.lifecycle == LifecycleState::Initializing),
    {
        match self.lifecycle {
            LifecycleState::Idle => {
                self.lifecycle = LifecycleState::Initializing;
                true
            },
            LifecycleState::Initializing => true,
            _ => false,
        }
    }

    /// Offers a frame time of `micros` microseconds measured for process
    /// `pid`. It is appended to the window if the capture runs, `pid` is
    /// the bound target and the frame time is valid; else nothing changes.
    /// Returns whether it was appended.
    pub fn ingest(&mut self, pid: u32, micros: u64) -> (taken: bool)
        requires
            old(self).wf(),
        ensures
            final(self).wf(),
            taken == old(self)@.accepts(pid, micros),
            final(self)@ == old(self)@.ingested(pid, micros),
    {
        if self.lifecycle == LifecycleState::Running && self.binder.accept(pid, micros) {
            self.window.push(micros as u32);
            true
        } else {
            false
        }
    }

    /// Offers the frame time `time`, read from text for process `pid`. It
    /// is appended to the window, in whole microseconds, if the capture
    /// runs, `pid` is the bound target and the time as it was written is
    /// valid; else nothing changes. Returns whether it was appended.
    pub fn ingest_reading(&mut self, pid: u32, time: FrameReading) -> (taken: bool)
        requires
            old(self).wf(),
        ensures
            final(self).wf(),
            taken == old(self)@.accepts_reading(pid, time),
            final(self)@ == old(self)@.ingested_reading(pid, time),
    {
        if self.lifecycle == LifecycleState::Running && self.binder.is_bound() && pid
            == self.binder.current() && is_valid_reading(time) {
            self.window.push(time.micros as u32);
            true
        } else {
            false
        }
    }

    /// Takes a line of the output of the helper that was started for
    /// process `pid`, and returns whether the reader should go on. Until
    /// the header has been seen the line is searched for it and the context
    /// is left alone. After that the reader should go on only while the
    /// capture runs, and the frame time of each row is offered to the
    /// window as `ingest` does.
    pub fn take_helper_line(&mut self, reader: &mut HelperReader, pid: u32, line: &[u8]) -> (go_on:
        bool)
        requires
            old(self).wf(),
        ensures
            final(self).wf(),
            old(reader).column() is None ==> {
                &&& go_on
                &&& is_timing_column_of(line@, final(reader).column())
                &&& final(self)@ == old(self)@
            },
            old(reader).column() matches Some(column) ==> {
                &&& go_on == (old(self)@.lifecycle == LifecycleState::Running)
                &&& final(reader).column() == Some(column)
                &&& final(self)@ == match row_reading(line@, column) {
                    Some(time) => old(self)@.ingested_reading(pid, time),
                    None => old(self)@,
                }
            },
    {
        if reader.has_header() && self.lifecycle != LifecycleState::Running {
            return false;
        }
        match reader.feed(line) {
            LineOutcome::Reading { time } => {
                let _ = self.ingest_reading(pid, time);
            },
            _ => {},
        }
        true
    }

    /// Takes a presentation event of process `pid` at time `now`, on the
    /// caller's clock in microseconds: the frame time that it completes,
    /// if any, is offered to the window as `ingest` does. Returns whether a
    /// sample was appended.
    pub fn take_trace_event(&mut self, tracker: &mut TraceTracker, pid: u32, now: u64) -> (taken:
        bool)
        requires
            old(self).wf(),
        ensures
            final(self).wf(),
            final(tracker)@ == old(tracker)@.insert(pid, now),
            match frame_time_since(old(tracker)@, pid, now) {
                Some(micros) => taken == old(self)@.accepts(pid, micros) && final(self)@ == old(
                    self,
                )@.ingested(pid, micros),
                None => !taken && final(self)@ == old(self)@,
            },
    {
        match tracker.on_present(pid, now) {
            Some(micros) => self.ingest(pid, micros),
            None => false,
        }
    }

    /// Takes a tick of the fallback timer for process `pid`: `alive` says
    /// whether that process still runs, `now` is the caller's clock in
    /// microseconds. The synthetic frame time that is due, if any, is
    /// offered to the window as `ingest` does. Returns whether a sample was
    /// appended.
    pub fn take_fallback_tick(
        &mut self,
        sampler: &mut FallbackSampler,
        pid: u32,
        alive: bool,
        now: u64,
    ) -> (taken: bool)
        requires
            old(self).wf(),
        ensures
            final(self).wf(),
            final(sampler).mark() == mark_after_tick(old(sampler).mark(), alive, now),
            match sample_at_tick(old(sampler).mark(), alive, now) {
                Some(micros) => taken == old(self)@.accepts(pid, micros) && final(self)@ == old(
                    self,
                )@.ingested(pid, micros),
                None => !taken && final(self)@ == old(self)@,
            },
    {
        match sampler.on_tick(alive, now) {
            Some(micros) => self.ingest(pid, micros),
            None => false,
        }
    }

    /// Takes the report that the source of kind `kind`, which the caller
    /// was asked to start, runs. A report that fits no such request changes
    /// nothing.
    pub fn source_started(&mut self, kind: SourceKind)
        requires
            old(self).wf(),
        ensures
            final(self).wf(),
            final(self)@ == old(self)@.started(kind),
    {
        if self.is_starting_kind(kind) {
            self.source_state = kind.state_when_running();
        }
    }

    /// Takes the report that the source of kind `kind`, which the caller
    /// was asked to start, could not be started. The next available kind
    /// takes its place, and the returned action asks to start that one.
    /// A report that fits no such request changes nothing.
    pub fn source_failed(&mut self, kind: SourceKind) -> (action: SourceAction)
        requires
            old(self).wf(),
        ensures
            final(self).wf(),
            final(self)@ == old(self)@.failed(kind),
            action == old(self)@.failure_action(kind),
    {
        if !self.is_starting_kind(kind) {
            return SourceAction::Nothing;
        }
        let next = self.sources.select_after(kind);
        self.source = next;
        match next {
            Some(next_kind) => {
                self.source_state = CaptureSourceState::Starting;
                SourceAction::Start { kind: next_kind, pid: self.binder.current() }
            },
            None => {
                self.source_state = CaptureSourceState::Stopped;
                SourceAction::Nothing
            },
        }
    }

    /// Takes the report that the source of kind `kind` has ended by
    /// itself. Nothing is started in its place: the next change of target
    /// or retry starts a source again.
    pub fn source_exited(&mut self, kind: SourceKind)
        requires
            old(self).wf(),
        ensures
            final(self).wf(),
            final(self)@ == old(self)@.exited(kind),
    {
        if self.lifecycle == LifecycleState::Running && self.source == Some(kind)
            && self.source_state.alive() {
            self.source_state = CaptureSourceState::Stopped;
        }
    }

    /// Makes the choice of source anew, from the sources `available` now.
    /// While a target is bound the returned action asks to start the
    /// chosen source.
    pub fn retry(&mut self, available: SourceAvailability) -> (action: SourceAction)
        requires
            old(self).wf(),
        ensures
            final(self).wf(),
            final(self)@ == old(self)@.retried(available),
            action == old(self)@.retry_action(available),
    {
        if self.lifecycle != LifecycleState::Running {
            return SourceAction::Nothing;
        }
        let chosen = available.select();
        self.sources = available;
        self.source = chosen;
        match chosen {
            Some(kind) => {
                if self.binder.is_bound() {
                    self.source_state = CaptureSourceState::Starting;
                    SourceAction::Start { kind, pid: self.binder.current() }
                } else {
                    if self.source_state.alive() {
                        self.source_state = CaptureSourceState::Stopped;
                    }
                    SourceAction::Nothing
                }
            },
            None => {
                if self.source_state.alive() {
                    self.source_state = CaptureSourceState::Stopped;
                    SourceAction::Stop
                } else {
                    SourceAction::Nothing
                }
            },
        }
    }

    fn is_starting_kind(&self, kind: SourceKind) -> (starting: bool)
        ensures
            starting == self@.is_starting(kind),
    {
        self.lifecycle == LifecycleState::Running && self.source == Some(kind)
            && self.source_state == CaptureSourceState::Starting
    }

    /// Where the capture is in its life.
    pub fn lifecycle(&self) -> (state: LifecycleState)
        ensures
            state == self@.lifecycle,
    {
        self.lifecycle
    }

    /// Whether the capture has been initialised and not shut down.
    pub fn is_running(&self) -> (running: bool)
        ensures
            running == (self@.lifecycle == LifecycleState::Running),
    {
        self.lifecycle == LifecycleState::Running
    }

    /// The bound process id, or `NO_TARGET`.
    pub fn target(&self) -> (pid: u32)
        ensures
            pid == self@.target,
    {
        self.binder.current()
    }

    /// The kind of source in use, if any.
    pub fn source(&self) -> (kind: Option<SourceKind>)
        ensures
            kind == self@.source,
    {
        self.source
    }

    /// Where the source in use is in its life.
    pub fn source_state(&self) -> (state: CaptureSourceState)
        ensures
            state == self@.source_state,
    {
        self.source_state
    }

    /// Whether a source runs, be it measuring or approximating.
    pub fn is_active(&self) -> (active: bool)
        ensures
            active == (self@.source_state == CaptureSourceState::Active || self@.source_state
                == CaptureSourceState::Degraded),
    {
        self.source_state == CaptureSourceState::Active || self.source_state
            == CaptureSourceState::Degraded
    }

    /// Number of samples in the window.
    pub fn sample_count(&self) -> (count: usize)
        ensures
            count == self@.samples.len(),
    {
        self.window.len()
    }

    /// A copy of the window, oldest sample first.
    pub fn snapshot(&self) -> (copy: Vec<u32>)
        ensures
            copy@ == self@.samples,
    {
        self.window.snapshot()
    }
}

/// Initialises the capture with the kinds of source that the caller found
/// available. From then on the capture runs, with the most preferred
/// available kind as its source; where a target is bound already, the
/// returned action asks the caller to start that source for it. Fails with
/// the wording of `CaptureError::SourceUnavailable` where none is available
/// (the capture then runs without data), and with that of
/// `CaptureError::ShutDown` after a shutdown (nothing changes). On a running
/// capture it changes nothing, asks for nothing and succeeds.
pub fn init(ctx: &mut FpsCapture, available: SourceAvailability) -> (result: Result<
    SourceAction,
    String,
>)
    requires
        old(ctx).wf(),
    ensures
        final(ctx).wf(),
        final(ctx)@ == old(ctx)@.initialized(available),
        match result {
            Ok(action) => old(ctx)@.init_error(available) is None && action == old(
                ctx,
            )@.init_action(available),
            Err(wording) => old(ctx)@.init_error(available) matches Some(error) && wording@
                == error.text(),
        },
{
    match ctx.lifecycle {
        LifecycleState::Running => Ok(SourceAction::Nothing),
        LifecycleState::Stopped => Err(CaptureError::ShutDown.message()),
        _ => {
            let chosen = available.select();
            ctx.lifecycle = LifecycleState::Running;
            ctx.sources = available;
            ctx.source = chosen;
            match chosen {
                Some(kind) => {
                    if ctx.binder.is_bound() {
                        ctx.source_state = CaptureSourceState::Starting;
                        Ok(SourceAction::Start { kind, pid: ctx.binder.current() })
                    } else {
                        ctx.source_state = CaptureSourceState::Uninitialized;
                        Ok(SourceAction::Nothing)
                    }
                },
                None => {
                    ctx.source_state = CaptureSourceState::Uninitialized;
                    Err(CaptureError::SourceUnavailable.message())
                },
            }
        },
    }
}

/// Shuts the capture down, for good: nothing stays bound, the window is
/// emptied, and the returned action asks the caller to stop the source. A
/// second shutdown changes nothing and asks for nothing.
pub fn shutdown(ctx: &mut FpsCapture) -> (action: SourceAction)
    requires
        old(ctx).wf(),
    ensures
        final(ctx).wf(),
        final(ctx)@ == old(ctx)@.shut_down(),
        action == old(ctx)@.shutdown_action(),
{
    let action = if ctx.lifecycle == LifecycleState::Stopped {
        SourceAction::Nothing
    } else {
        SourceAction::Stop
    };
    ctx.lifecycle = LifecycleState::Stopped;
    let _ = ctx.binder.bind(NO_TARGET);
    ctx.window.clear();
    ctx.source_state = CaptureSourceState::Stopped;
    action
}

/// Makes `pid` the process that is measured; `NO_TARGET` unbinds. Where
/// that changes the target, the window is emptied and the returned action
/// asks the caller to start the source for the new target, or to stop it
/// where there is none. Before the capture runs the target is bound all
/// the same, and the source is asked for when the capture is initialised.
/// Binding what is bound already changes nothing, and neither does any
/// binding after a shutdown.
pub fn set_target_process(ctx: &mut FpsCapture, pid: u32) -> (action: SourceAction)
    requires
        old(ctx).wf(),
    ensures
        final(ctx).wf(),
        final(ctx)@ == old(ctx)@.bound(pid),
        action == old(ctx)@.bind_action(pid),
        old(ctx)@.lifecycle != LifecycleState::Stopped ==> final(ctx)@.target == pid,
        old(ctx)@.target != pid ==> final(ctx)@.samples.len() == 0,
        old(ctx)@.lifecycle != LifecycleState::Running ==> action == SourceAction::Nothing,
{
    if ctx.lifecycle == LifecycleState::Stopped || ctx.binder.current() == pid {
        return SourceAction::Nothing;
    }
    let _ = ctx.binder.bind(pid);
    ctx.window.clear();
    match ctx.source {
        None => SourceAction::Nothing,
        Some(kind) => {
            if pid != NO_TARGET {
                ctx.source_state = CaptureSourceState::Starting;
                SourceAction::Start { kind, pid }
            } else if ctx.source_state.alive() {
                ctx.source_state = CaptureSourceState::Stopped;
                SourceAction::Stop
            } else {
                SourceAction::Nothing
            }
        },
    }
}

/// Binds `pid` as `set_target_process` does, then returns the statistics of
/// the window together with the action that the binding asks for. There are
/// no statistics while the window is empty, so none right after a change of
/// target.
pub fn get_fps_for_process(ctx: &mut FpsCapture, pid: u32) -> (result: (
    Option<FpsData>,
    SourceAction,
))
    requires
        old(ctx).wf(),
    ensures
        final(ctx).wf(),
        final(ctx)@ == old(ctx)@.bound(pid),
        old(ctx)@.lifecycle != LifecycleState::Stopped ==> final(ctx)@.target == pid,
        result.0 == stats_of(final(ctx)@.samples),
        result.0 matches Some(data) ==> data.fps == fps_of(final(ctx)@.samples)
            && data.one_percent_low == one_percent_low_of(final(ctx)@.samples)
            && data.one_percent_low <= data.fps,
        result.1 == old(ctx)@.bind_action(pid),
{
    let action = set_target_process(ctx, pid);
    let samples = ctx.window.snapshot();
    let stats = compute_stats(&samples);
    (stats, action)
}

} // verus!
