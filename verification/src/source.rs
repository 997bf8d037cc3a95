//! The capture sources: their kinds, their states, and the order in which
//! they are tried.

use vstd::prelude::*;

verus! {

/// A way of measuring frame times.
#[derive(Debug, Clone, Copy, PartialEq, Eq, Structural)]
pub enum SourceKind {
    /// Presentation events of the system's graphics trace.
    Trace,
    /// The output of an external frame-timing helper process.
    ExternalHelper,
    /// A timer that stands in for measurements while the target is alive.
    Fallback,
}

/// Where a capture source is in its life.
#[derive(Debug, Clone, Copy, PartialEq, Eq, Structural)]
pub enum CaptureSourceState {
    /// Never started.
    Uninitialized,
    /// Asked to start; not yet known to run.
    Starting,
    /// Running and measuring.
    Active,
    /// Running, but its samples are approximations.
    Degraded,
    /// Stopped, or ended by itself.
    Stopped,
}

/// Which kinds of source can be used on this machine.
#[derive(Debug, Clone, Copy, PartialEq, Eq, Structural)]
pub struct SourceAvailability {
    pub trace: bool,
    pub helper: bool,
    pub fallback: bool,
}

/// What the caller has to do to the running source after a call.
#[derive(Debug, Clone, Copy, PartialEq, Eq, Structural)]
pub enum SourceAction {
    /// Leave things as they are.
    Nothing,
    /// Stop the running source and wait until it has ended.
    Stop,
    /// Stop the running source, if any, and wait until it has ended; then
    /// start a source of kind `kind` for process `pid`.
    Start { kind: SourceKind, pid: u32 },
}

impl SourceKind {
    /// Place in the order of preference; 0 is tried first.
    pub open spec fn priority(self) -> nat {
        match self {
            SourceKind::Trace => 0,
            SourceKind::ExternalHelper => 1,
            SourceKind::Fallback => 2,
        }
    }

    /// The state of a source of this kind that runs: the fallback only
    /// approximates, so it is never more than degraded.
    pub open spec fn running_state(self) -> CaptureSourceState {
        match self {
            SourceKind::Fallback => CaptureSourceState::Degraded,
            _ => CaptureSourceState::Active,
        }
    }

    /// Returns the state of a source of this kind that runs.
    pub fn state_when_running(&self) -> (state: CaptureSourceState)
        ensures
            state == self.running_state(),
    {
        match self {
            SourceKind::Fallback => CaptureSourceState::Degraded,
            _ => CaptureSourceState::Active,
        }
    }
}

impl CaptureSourceState {
    /// Whether a source in this state has a thread or a process behind it.
    pub open spec fn is_alive(self) -> bool {
        self == CaptureSourceState::Starting || self == CaptureSourceState::Active || self
            == CaptureSourceState::Degraded
    }

    /// Returns whether a source in this state has a thread or a process
    /// behind it.
    pub fn alive(&self) -> (alive: bool)
        ensures
            alive == self.is_alive(),
    {
        match self {
            CaptureSourceState::Starting => true,
            CaptureSourceState::Active => true,
            CaptureSourceState::Degraded => true,
            _ => false,
        }
    }
}

impl SourceAvailability {
    /// Whether a source of kind `kind` can be used.
    pub open spec fn offers(self, kind: SourceKind) -> bool {
        match kind {
            SourceKind::Trace => self.trace,
            SourceKind::ExternalHelper => self.helper,
            SourceKind::Fallback => self.fallback,
        }
    }

    /// The kind to use: the most preferred one that is available.
    pub open spec fn preferred(self) -> Option<SourceKind> {
        if self.trace {
            Some(SourceKind::Trace)
        } else if self.helper {
            Some(SourceKind::ExternalHelper)
        } else if self.fallback {
            Some(SourceKind::Fallback)
        } else {
            None
        }
    }

    /// The kind to use once `failed` could not be started: the most
    /// preferred available one among those that come after it.
    pub open spec fn preferred_after(self, failed: SourceKind) -> Option<SourceKind> {
        match failed {
            SourceKind::Trace => if self.helper {
                Some(SourceKind::ExternalHelper)
            } else if self.fallback {
                Some(SourceKind::Fallback)
            } else {
                None
            },
            SourceKind::ExternalHelper => if self.fallback {
                Some(SourceKind::Fallback)
            } else {
                None
            },
            SourceKind::Fallback => None,
        }
    }

    /// Picks the kind of source to use.
    pub fn select(&self) -> (kind: Option<SourceKind>)
        ensures
            kind == self.preferred(),
    {
        if self.trace {
            Some(SourceKind::Trace)
        } else if self.helper {
            Some(SourceKind::ExternalHelper)
        } else if self.fallback {
            Some(SourceKind::Fallback)
        } else {
            None
        }
    }

    /// Picks the kind of source to fall back to when `failed` could not be
    /// started.
    pub fn select_after(&self, failed: SourceKind) -> (kind: Option<SourceKind>)
        ensures
            kind == self.preferred_after(failed),
    {
        match failed {
            SourceKind::Trace => if self.helper {
                Some(SourceKind::ExternalHelper)
            } else if self.fallback {
                Some(SourceKind::Fallback)
            } else {
                None
            },
            SourceKind::ExternalHelper => if self.fallback {
                Some(SourceKind::Fallback)
            } else {
                None
            },
            SourceKind::Fallback => None,
        }
    }
}

/// The preferred kind is available, and no available kind is tried before
/// it; none is preferred only where none is available.
pub proof fn lemma_preferred_is_first_available(sources: SourceAvailability, kind: SourceKind)
    ensures
        sources.preferred() matches Some(chosen) ==> sources.offers(chosen) && (sources.offers(
            kind,
        ) ==> chosen.priority() <= kind.priority()),
        sources.preferred() is None ==> !sources.offers(kind),
{
}

/// The kind fallen back to is available and comes after the failed one,
/// and no available kind stands between the two; there is none to fall
/// back to only where no later kind is available.
pub proof fn lemma_preferred_after_is_next_available(
    sources: SourceAvailability,
    failed: SourceKind,
    kind: SourceKind,
)
    ensures
        sources.preferred_after(failed) matches Some(next) ==> sources.offers(next)
            && failed.priority() < next.priority() && (sources.offers(kind) && failed.priority()
            < kind.priority() ==> next.priority() <= kind.priority()),
        sources.preferred_after(failed) is None ==> !(sources.offers(kind) && failed.priority()
            < kind.priority()),
{
}

} // verus!
