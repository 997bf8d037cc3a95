use easyfps::source::{CaptureSourceState, SourceAvailability, SourceKind};

fn sources(trace: bool, helper: bool, fallback: bool) -> SourceAvailability {
    SourceAvailability { trace, helper, fallback }
}

#[test]
fn selection_follows_the_order_of_preference() {
    assert_eq!(sources(true, true, true).select(), Some(SourceKind::Trace));
    assert_eq!(sources(true, false, false).select(), Some(SourceKind::Trace));
    assert_eq!(sources(false, true, true).select(), Some(SourceKind::ExternalHelper));
    assert_eq!(sources(false, true, false).select(), Some(SourceKind::ExternalHelper));
    assert_eq!(sources(false, false, true).select(), Some(SourceKind::Fallback));
    assert_eq!(sources(false, false, false).select(), None);
}

#[test]
fn fallback_goes_down_the_order() {
    let all = sources(true, true, true);
    assert_eq!(all.select_after(SourceKind::Trace), Some(SourceKind::ExternalHelper));
    assert_eq!(all.select_after(SourceKind::ExternalHelper), Some(SourceKind::Fallback));
    assert_eq!(all.select_after(SourceKind::Fallback), None);
    assert_eq!(sources(true, false, true).select_after(SourceKind::Trace), Some(SourceKind::Fallback));
    assert_eq!(sources(true, false, false).select_after(SourceKind::Trace), None);
    assert_eq!(sources(true, true, false).select_after(SourceKind::ExternalHelper), None);
}

#[test]
fn fallback_never_goes_back_up() {
    let all = sources(true, true, true);
    assert_ne!(all.select_after(SourceKind::ExternalHelper), Some(SourceKind::Trace));
    assert_eq!(sources(true, false, false).select_after(SourceKind::ExternalHelper), None);
    assert_eq!(sources(true, true, false).select_after(SourceKind::Fallback), None);
}

#[test]
fn only_the_fallback_runs_degraded() {
    assert_eq!(SourceKind::Trace.state_when_running(), CaptureSourceState::Active);
    assert_eq!(SourceKind::ExternalHelper.state_when_running(), CaptureSourceState::Active);
    assert_eq!(SourceKind::Fallback.state_when_running(), CaptureSourceState::Degraded);
}

#[test]
fn alive_states() {
    assert!(!CaptureSourceState::Uninitialized.alive());
    assert!(CaptureSourceState::Starting.alive());
    assert!(CaptureSourceState::Active.alive());
    assert!(CaptureSourceState::Degraded.alive());
    assert!(!CaptureSourceState::Stopped.alive());
}
