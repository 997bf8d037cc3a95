//! Laws of the capture context, stated over its model.

use crate::binder::{valid_frame_time, NO_TARGET};
use crate::decimal::FrameReading;
use crate::fps_capture::{CaptureModel, LifecycleState};
use crate::source::{SourceAction, SourceAvailability, SourceKind};
use vstd::prelude::*;

verus! {

/// Binding the same process twice in a row leaves the state that binding
/// it once leaves, and the second binding asks for nothing.
pub proof fn lemma_bind_is_idempotent(m: CaptureModel, pid: u32)
    ensures
        m.bound(pid).bound(pid) == m.bound(pid),
        m.bound(pid).bind_action(pid) == SourceAction::Nothing,
{
}

/// Shutting down twice in a row leaves the state that shutting down once
/// leaves, and the second shutdown asks for nothing.
pub proof fn lemma_shutdown_is_idempotent(m: CaptureModel)
    ensures
        m.shut_down().shut_down() == m.shut_down(),
        m.shut_down().shutdown_action() == SourceAction::Nothing,
{
}

/// Initialising a running capture changes nothing and succeeds, whatever
/// sources are offered: so a second initialisation in a row does.
pub proof fn lemma_init_is_idempotent(
    m: CaptureModel,
    first: SourceAvailability,
    second: SourceAvailability,
)
    requires
        m.lifecycle != LifecycleState::Stopped,
    ensures
        m.initialized(first).lifecycle == LifecycleState::Running,
        m.initialized(first).initialized(second) == m.initialized(first),
        m.initialized(first).init_error(second) is None,
{
}

/// A change of target leaves no sample of the old target behind: after
/// binding a process other than the bound one, the window is empty.
pub proof fn lemma_rebinding_empties_window(m: CaptureModel, pid: u32)
    requires
        m.wf(),
        pid != m.target,
    ensures
        m.bound(pid).samples == Seq::<u32>::empty(),
        m.lifecycle != LifecycleState::Stopped ==> m.bound(pid).target == pid,
{
    assert(m.bound(pid).samples =~= Seq::<u32>::empty());
}

/// A frame time outside the valid range, or one of a process other than
/// the target, leaves the window as it is.
pub proof fn lemma_rejected_sample_changes_nothing(m: CaptureModel, pid: u32, micros: u64)
    requires
        !valid_frame_time(micros) || pid != m.target,
    ensures
        m.ingested(pid, micros) == m,
{
}

/// A binding made before the capture runs is kept when it starts to run,
/// and the source chosen then is asked for on behalf of that target.
pub proof fn lemma_binding_outlasts_init(m: CaptureModel, pid: u32, available: SourceAvailability)
    requires
        m.wf(),
        m.lifecycle == LifecycleState::Idle || m.lifecycle == LifecycleState::Initializing,
        pid != NO_TARGET,
    ensures
        m.bound(pid).target == pid,
        m.bound(pid).bind_action(pid) == SourceAction::Nothing,
        m.bound(pid).initialized(available).target == pid,
        m.bound(pid).initialized(available).lifecycle == LifecycleState::Running,
        m.bound(pid).init_action(available) == match available.preferred() {
            Some(kind) => SourceAction::Start { kind, pid },
            None => SourceAction::Nothing,
        },
        m.bound(pid).initialized(available).bound(pid) == m.bound(pid).initialized(available),
{
}

/// A frame time that was read from text without rounding is taken exactly
/// where the same number of microseconds is, and leaves the same state.
pub proof fn lemma_exact_reading(m: CaptureModel, pid: u32, micros: u64)
    ensures
        m.accepts_reading(pid, FrameReading { micros, cut: false }) == m.accepts(pid, micros),
        m.ingested_reading(pid, FrameReading { micros, cut: false }) == m.ingested(pid, micros),
{
}

/// A frame time that was written as longer than a second or shorter than a
/// millisecond leaves the window as it is, however close to the bound.
pub proof fn lemma_reading_out_of_range(m: CaptureModel, pid: u32, time: FrameReading)
    requires
        time.micros < 1_000 || time.micros > 1_000_000 || (time.micros == 1_000_000 && time.cut),
    ensures
        m.ingested_reading(pid, time) == m,
{
}

/// Nothing leads out of the stopped state, and nothing changes in it.
pub proof fn lemma_stopped_is_final(
    m: CaptureModel,
    pid: u32,
    micros: u64,
    time: FrameReading,
    kind: SourceKind,
    available: SourceAvailability,
)
    requires
        m.wf(),
        m.lifecycle == LifecycleState::Stopped,
    ensures
        m.begun() == m,
        m.initialized(available) == m,
        m.bound(pid) == m,
        m.ingested(pid, micros) == m,
        m.ingested_reading(pid, time) == m,
        m.started(kind) == m,
        m.failed(kind) == m,
        m.exited(kind) == m,
        m.retried(available) == m,
        m.shut_down().lifecycle == LifecycleState::Stopped,
{
}

/// Every step keeps a well-formed state well-formed.
pub proof fn lemma_steps_keep_wf(
    m: CaptureModel,
    pid: u32,
    micros: u64,
    time: FrameReading,
    kind: SourceKind,
    available: SourceAvailability,
)
    requires
        m.wf(),
    ensures
        CaptureModel::initial().wf(),
        m.begun().wf(),
        m.initialized(available).wf(),
        m.bound(pid).wf(),
        m.ingested(pid, micros).wf(),
        m.ingested_reading(pid, time).wf(),
        m.started(kind).wf(),
        m.failed(kind).wf(),
        m.exited(kind).wf(),
        m.retried(available).wf(),
        m.shut_down().wf(),
{
    if m.accepts_reading(pid, time) {
        let after = m.ingested_reading(pid, time).samples;
        assert forall|i: int| 0 <= i < after.len() implies valid_frame_time(
            #[trigger] after[i] as u64,
        ) by {
            let all = m.samples.push(time.micros as u32);
            if all.len() > 2000 {
                assert(after[i] == all[i + all.len() - 2000]);
            } else {
                assert(after[i] == all[i]);
            }
        }
    }
    if m.accepts(pid, micros) {
        let after = m.ingested(pid, micros).samples;
        assert forall|i: int| 0 <= i < after.len() implies valid_frame_time(
            #[trigger] after[i] as u64,
        ) by {
            let all = m.samples.push(micros as u32);
            if all.len() > 2000 {
                assert(after[i] == all[i + all.len() - 2000]);
            } else {
                assert(after[i] == all[i]);
            }
        }
    }
}

} // verus!
