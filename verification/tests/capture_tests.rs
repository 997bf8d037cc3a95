use easyfps::decimal::FrameReading;
use easyfps::fps_capture::{
    get_fps_for_process, init, set_target_process, shutdown, CaptureError, FpsCapture, FpsData,
    LifecycleState,
};
use easyfps::source::{CaptureSourceState, SourceAction, SourceAvailability, SourceKind};
use easyfps::window::MAX_SAMPLES;

fn every_source() -> SourceAvailability {
    SourceAvailability { trace: true, helper: true, fallback: true }
}

fn no_source() -> SourceAvailability {
    SourceAvailability { trace: false, helper: false, fallback: false }
}

fn running() -> FpsCapture {
    let mut ctx = FpsCapture::new();
    assert_eq!(init(&mut ctx, every_source()), Ok(SourceAction::Nothing));
    ctx
}

#[test]
fn new_context_is_idle() {
    let ctx = FpsCapture::new();
    assert_eq!(ctx.lifecycle(), LifecycleState::Idle);
    assert!(!ctx.is_running());
    assert_eq!(ctx.target(), 0);
    assert_eq!(ctx.sample_count(), 0);
    assert_eq!(ctx.source(), None);
    assert_eq!(ctx.source_state(), CaptureSourceState::Uninitialized);
    assert!(!ctx.is_active());
}

#[test]
fn begin_init_asks_for_a_probe_once_idle() {
    let mut ctx = FpsCapture::new();
    assert!(ctx.begin_init());
    assert_eq!(ctx.lifecycle(), LifecycleState::Initializing);
    assert!(ctx.begin_init());
    assert_eq!(init(&mut ctx, every_source()), Ok(SourceAction::Nothing));
    assert!(!ctx.begin_init());
    assert_eq!(ctx.lifecycle(), LifecycleState::Running);
    shutdown(&mut ctx);
    assert!(!ctx.begin_init());
    assert_eq!(ctx.lifecycle(), LifecycleState::Stopped);
}

#[test]
fn init_prefers_trace_then_helper_then_fallback() {
    let mut ctx = FpsCapture::new();
    assert_eq!(init(&mut ctx, every_source()), Ok(SourceAction::Nothing));
    assert_eq!(ctx.source(), Some(SourceKind::Trace));

    let mut ctx = FpsCapture::new();
    let sources = SourceAvailability { trace: false, helper: true, fallback: true };
    assert_eq!(init(&mut ctx, sources), Ok(SourceAction::Nothing));
    assert_eq!(ctx.source(), Some(SourceKind::ExternalHelper));

    let mut ctx = FpsCapture::new();
    let sources = SourceAvailability { trace: false, helper: false, fallback: true };
    assert_eq!(init(&mut ctx, sources), Ok(SourceAction::Nothing));
    assert_eq!(ctx.source(), Some(SourceKind::Fallback));
}

#[test]
fn init_twice_is_a_no_op() {
    let mut ctx = running();
    set_target_process(&mut ctx, 77);
    assert!(ctx.ingest(77, 16_600));
    assert_eq!(init(&mut ctx, no_source()), Ok(SourceAction::Nothing));
    assert_eq!(ctx.lifecycle(), LifecycleState::Running);
    assert_eq!(ctx.source(), Some(SourceKind::Trace));
    assert_eq!(ctx.target(), 77);
    assert_eq!(ctx.sample_count(), 1);
}

#[test]
fn init_without_any_source_fails_but_runs() {
    let mut ctx = FpsCapture::new();
    let result = init(&mut ctx, no_source());
    assert_eq!(result, Err(CaptureError::SourceUnavailable.message()));
    assert_eq!(result, Err("no capture source is available".to_string()));
    assert_eq!(ctx.lifecycle(), LifecycleState::Running);
    assert_eq!(ctx.source(), None);
    assert_eq!(set_target_process(&mut ctx, 5), SourceAction::Nothing);
    assert_eq!(ctx.target(), 5);
    assert_eq!(get_fps_for_process(&mut ctx, 5), (None, SourceAction::Nothing));
}

#[test]
fn init_after_shutdown_fails() {
    let mut ctx = running();
    shutdown(&mut ctx);
    let result = init(&mut ctx, every_source());
    assert_eq!(result, Err(CaptureError::ShutDown.message()));
    assert_eq!(result, Err("frame capture has been shut down".to_string()));
    assert_eq!(ctx.lifecycle(), LifecycleState::Stopped);
}

#[test]
fn binding_starts_the_source_for_the_target() {
    let mut ctx = running();
    let action = set_target_process(&mut ctx, 1234);
    assert_eq!(action, SourceAction::Start { kind: SourceKind::Trace, pid: 1234 });
    assert_eq!(ctx.target(), 1234);
    assert_eq!(ctx.source_state(), CaptureSourceState::Starting);
    ctx.source_started(SourceKind::Trace);
    assert_eq!(ctx.source_state(), CaptureSourceState::Active);
    assert!(ctx.is_active());
}

#[test]
fn binding_the_same_process_twice_is_idempotent() {
    let mut ctx = running();
    set_target_process(&mut ctx, 1234);
    ctx.source_started(SourceKind::Trace);
    assert!(ctx.ingest(1234, 10_000));
    assert!(ctx.ingest(1234, 20_000));
    let action = set_target_process(&mut ctx, 1234);
    assert_eq!(action, SourceAction::Nothing);
    assert_eq!(ctx.target(), 1234);
    assert_eq!(ctx.snapshot(), vec![10_000, 20_000]);
    assert_eq!(ctx.source_state(), CaptureSourceState::Active);
    let action = set_target_process(&mut ctx, 1234);
    assert_eq!(action, SourceAction::Nothing);
    assert_eq!(ctx.snapshot(), vec![10_000, 20_000]);
}

#[test]
fn switching_target_clears_the_samples() {
    let mut ctx = running();
    set_target_process(&mut ctx, 10);
    for _ in 0..25 {
        assert!(ctx.ingest(10, 16_600));
    }
    assert_eq!(ctx.sample_count(), 25);
    let action = set_target_process(&mut ctx, 20);
    assert_eq!(action, SourceAction::Start { kind: SourceKind::Trace, pid: 20 });
    assert_eq!(ctx.target(), 20);
    assert!(ctx.snapshot().is_empty());
    assert!(!ctx.ingest(10, 16_600));
    assert!(ctx.snapshot().is_empty());
    assert!(ctx.ingest(20, 8_000));
    assert_eq!(ctx.snapshot(), vec![8_000]);
}

#[test]
fn unbinding_stops_the_source() {
    let mut ctx = running();
    set_target_process(&mut ctx, 10);
    ctx.source_started(SourceKind::Trace);
    assert!(ctx.ingest(10, 16_600));
    assert_eq!(set_target_process(&mut ctx, 0), SourceAction::Stop);
    assert_eq!(ctx.target(), 0);
    assert_eq!(ctx.sample_count(), 0);
    assert_eq!(ctx.source_state(), CaptureSourceState::Stopped);
    assert!(!ctx.ingest(0, 16_600));
    assert_eq!(set_target_process(&mut ctx, 0), SourceAction::Nothing);
}

#[test]
fn out_of_range_samples_do_not_affect_the_window() {
    let mut ctx = running();
    set_target_process(&mut ctx, 10);
    assert!(ctx.ingest(10, 16_600));
    let before = ctx.snapshot();
    assert!(!ctx.ingest(10, 500));
    assert_eq!(ctx.sample_count(), 1);
    assert!(!ctx.ingest(10, 1_500_000));
    assert_eq!(ctx.sample_count(), 1);
    assert!(!ctx.ingest(10, 0));
    assert!(!ctx.ingest(10, u64::MAX));
    assert_eq!(ctx.snapshot(), before);
}

#[test]
fn samples_of_other_processes_are_rejected() {
    let mut ctx = running();
    set_target_process(&mut ctx, 10);
    assert!(!ctx.ingest(11, 16_600));
    assert!(!ctx.ingest(0, 16_600));
    assert_eq!(ctx.sample_count(), 0);
}

#[test]
fn binding_before_init_is_kept() {
    let mut ctx = FpsCapture::new();
    assert_eq!(set_target_process(&mut ctx, 10), SourceAction::Nothing);
    assert_eq!(ctx.target(), 10);
    assert_eq!(ctx.source_state(), CaptureSourceState::Uninitialized);
    assert_eq!(set_target_process(&mut ctx, 10), SourceAction::Nothing);
    assert_eq!(set_target_process(&mut ctx, 11), SourceAction::Nothing);
    assert_eq!(ctx.target(), 11);
    assert!(ctx.begin_init());
    assert_eq!(get_fps_for_process(&mut ctx, 12), (None, SourceAction::Nothing));
    assert_eq!(ctx.target(), 12);
    assert_eq!(set_target_process(&mut ctx, 0), SourceAction::Nothing);
    assert_eq!(ctx.target(), 0);
}

#[test]
fn no_sample_is_taken_before_init() {
    let mut ctx = FpsCapture::new();
    set_target_process(&mut ctx, 10);
    assert!(!ctx.ingest(10, 16_600));
    assert_eq!(get_fps_for_process(&mut ctx, 10), (None, SourceAction::Nothing));
    assert_eq!(ctx.sample_count(), 0);
}

#[test]
fn init_starts_the_source_for_a_target_bound_before() {
    let mut ctx = FpsCapture::new();
    set_target_process(&mut ctx, 1234);
    let sources = SourceAvailability { trace: false, helper: true, fallback: true };
    assert_eq!(
        init(&mut ctx, sources),
        Ok(SourceAction::Start { kind: SourceKind::ExternalHelper, pid: 1234 })
    );
    assert_eq!(ctx.target(), 1234);
    assert_eq!(ctx.source_state(), CaptureSourceState::Starting);
    ctx.source_started(SourceKind::ExternalHelper);
    assert_eq!(ctx.source_state(), CaptureSourceState::Active);
    // The binding stands: asking for the same process neither rebinds nor clears.
    assert!(ctx.ingest(1234, 16_600));
    let (stats, action) = get_fps_for_process(&mut ctx, 1234);
    assert_eq!(action, SourceAction::Nothing);
    assert_eq!(stats, Some(FpsData { fps: 60_240, one_percent_low: 60_240 }));
}

#[test]
fn init_without_a_source_keeps_the_binding() {
    let mut ctx = FpsCapture::new();
    set_target_process(&mut ctx, 1234);
    assert!(init(&mut ctx, no_source()).is_err());
    assert_eq!(ctx.lifecycle(), LifecycleState::Running);
    assert_eq!(ctx.target(), 1234);
    assert_eq!(get_fps_for_process(&mut ctx, 1234), (None, SourceAction::Nothing));
}

#[test]
fn shutdown_before_init_unbinds() {
    let mut ctx = FpsCapture::new();
    set_target_process(&mut ctx, 10);
    assert_eq!(shutdown(&mut ctx), SourceAction::Stop);
    assert_eq!(ctx.target(), 0);
    assert_eq!(set_target_process(&mut ctx, 10), SourceAction::Nothing);
    assert_eq!(ctx.target(), 0);
}

#[test]
fn end_to_end_scenario() {
    let mut ctx = running();
    let (stats, action) = get_fps_for_process(&mut ctx, 1234);
    assert_eq!(stats, None);
    assert_eq!(action, SourceAction::Start { kind: SourceKind::Trace, pid: 1234 });
    ctx.source_started(SourceKind::Trace);
    for _ in 0..5 {
        assert!(ctx.ingest(1234, 16_600));
    }
    let (stats, action) = get_fps_for_process(&mut ctx, 1234);
    assert_eq!(action, SourceAction::Nothing);
    let stats = stats.unwrap();
    assert_eq!(stats, FpsData { fps: 60_240, one_percent_low: 60_240 });
    assert!((stats.fps as f64 / 1000.0 - 60.2).abs() < 0.05);
    assert!((stats.one_percent_low as f64 / 1000.0 - 60.2).abs() < 0.05);
}

#[test]
fn get_fps_binds_implicitly() {
    let mut ctx = running();
    set_target_process(&mut ctx, 1);
    assert!(ctx.ingest(1, 10_000));
    let (stats, action) = get_fps_for_process(&mut ctx, 2);
    assert_eq!(stats, None);
    assert_eq!(action, SourceAction::Start { kind: SourceKind::Trace, pid: 2 });
    assert_eq!(ctx.target(), 2);
}

#[test]
fn window_of_the_context_is_bounded() {
    let mut ctx = running();
    set_target_process(&mut ctx, 9);
    for i in 0..(MAX_SAMPLES + 5) {
        assert!(ctx.ingest(9, 1_000 + i as u64));
    }
    let copy = ctx.snapshot();
    assert_eq!(copy.len(), MAX_SAMPLES);
    assert_eq!(copy[0], 1_005);
    assert_eq!(copy[MAX_SAMPLES - 1], 1_000 + (MAX_SAMPLES + 4) as u32);
}

#[test]
fn shutdown_clears_everything() {
    let mut ctx = running();
    set_target_process(&mut ctx, 10);
    ctx.source_started(SourceKind::Trace);
    assert!(ctx.ingest(10, 16_600));
    assert_eq!(shutdown(&mut ctx), SourceAction::Stop);
    assert_eq!(ctx.lifecycle(), LifecycleState::Stopped);
    assert_eq!(ctx.target(), 0);
    assert_eq!(ctx.sample_count(), 0);
    assert_eq!(ctx.source_state(), CaptureSourceState::Stopped);
    assert!(!ctx.is_active());
}

#[test]
fn shutdown_twice_is_idempotent() {
    let mut ctx = running();
    set_target_process(&mut ctx, 10);
    assert!(ctx.ingest(10, 16_600));
    assert_eq!(shutdown(&mut ctx), SourceAction::Stop);
    assert_eq!(shutdown(&mut ctx), SourceAction::Nothing);
    assert_eq!(ctx.lifecycle(), LifecycleState::Stopped);
    assert_eq!(ctx.target(), 0);
    assert_eq!(ctx.sample_count(), 0);
    assert_eq!(ctx.source(), Some(SourceKind::Trace));
    assert_eq!(ctx.source_state(), CaptureSourceState::Stopped);
}

#[test]
fn shutdown_of_an_idle_context_asks_to_stop() {
    let mut ctx = FpsCapture::new();
    assert_eq!(shutdown(&mut ctx), SourceAction::Stop);
    assert_eq!(ctx.lifecycle(), LifecycleState::Stopped);
}

#[test]
fn nothing_happens_after_shutdown() {
    let mut ctx = running();
    shutdown(&mut ctx);
    assert_eq!(set_target_process(&mut ctx, 10), SourceAction::Nothing);
    assert_eq!(ctx.target(), 0);
    assert!(!ctx.ingest(10, 16_600));
    assert_eq!(get_fps_for_process(&mut ctx, 10), (None, SourceAction::Nothing));
    assert_eq!(ctx.retry(every_source()), SourceAction::Nothing);
    assert_eq!(ctx.lifecycle(), LifecycleState::Stopped);
}

#[test]
fn failed_start_falls_back_to_the_next_source() {
    let mut ctx = running();
    set_target_process(&mut ctx, 10);
    let action = ctx.source_failed(SourceKind::Trace);
    assert_eq!(action, SourceAction::Start { kind: SourceKind::ExternalHelper, pid: 10 });
    assert_eq!(ctx.source(), Some(SourceKind::ExternalHelper));
    assert_eq!(ctx.source_state(), CaptureSourceState::Starting);
    let action = ctx.source_failed(SourceKind::ExternalHelper);
    assert_eq!(action, SourceAction::Start { kind: SourceKind::Fallback, pid: 10 });
    ctx.source_started(SourceKind::Fallback);
    assert_eq!(ctx.source_state(), CaptureSourceState::Degraded);
    assert!(ctx.is_active());
}

#[test]
fn failed_start_skips_unavailable_sources() {
    let mut ctx = FpsCapture::new();
    let sources = SourceAvailability { trace: true, helper: false, fallback: true };
    assert_eq!(init(&mut ctx, sources), Ok(SourceAction::Nothing));
    set_target_process(&mut ctx, 10);
    let action = ctx.source_failed(SourceKind::Trace);
    assert_eq!(action, SourceAction::Start { kind: SourceKind::Fallback, pid: 10 });
}

#[test]
fn failed_start_of_the_last_source_leaves_none() {
    let mut ctx = FpsCapture::new();
    let sources = SourceAvailability { trace: false, helper: true, fallback: false };
    assert_eq!(init(&mut ctx, sources), Ok(SourceAction::Nothing));
    set_target_process(&mut ctx, 10);
    assert_eq!(ctx.source_failed(SourceKind::ExternalHelper), SourceAction::Nothing);
    assert_eq!(ctx.source(), None);
    assert_eq!(ctx.source_state(), CaptureSourceState::Stopped);
    assert_eq!(ctx.lifecycle(), LifecycleState::Running);
}

#[test]
fn reports_that_fit_no_request_are_ignored() {
    let mut ctx = running();
    set_target_process(&mut ctx, 10);
    ctx.source_started(SourceKind::Fallback);
    assert_eq!(ctx.source_state(), CaptureSourceState::Starting);
    assert_eq!(ctx.source_failed(SourceKind::ExternalHelper), SourceAction::Nothing);
    assert_eq!(ctx.source(), Some(SourceKind::Trace));
    ctx.source_started(SourceKind::Trace);
    assert_eq!(ctx.source_failed(SourceKind::Trace), SourceAction::Nothing);
    assert_eq!(ctx.source_state(), CaptureSourceState::Active);
}

#[test]
fn exited_source_is_not_restarted() {
    let mut ctx = running();
    set_target_process(&mut ctx, 10);
    ctx.source_started(SourceKind::Trace);
    ctx.source_exited(SourceKind::Trace);
    assert_eq!(ctx.source_state(), CaptureSourceState::Stopped);
    assert_eq!(set_target_process(&mut ctx, 10), SourceAction::Nothing);
    assert_eq!(
        set_target_process(&mut ctx, 11),
        SourceAction::Start { kind: SourceKind::Trace, pid: 11 }
    );
}

#[test]
fn retry_chooses_anew() {
    let mut ctx = FpsCapture::new();
    let sources = SourceAvailability { trace: false, helper: false, fallback: true };
    assert_eq!(init(&mut ctx, sources), Ok(SourceAction::Nothing));
    assert_eq!(ctx.retry(every_source()), SourceAction::Nothing);
    assert_eq!(ctx.source(), Some(SourceKind::Trace));
    set_target_process(&mut ctx, 10);
    ctx.source_started(SourceKind::Trace);
    let sources = SourceAvailability { trace: false, helper: true, fallback: true };
    assert_eq!(
        ctx.retry(sources),
        SourceAction::Start { kind: SourceKind::ExternalHelper, pid: 10 }
    );
    assert_eq!(ctx.source_state(), CaptureSourceState::Starting);
    assert_eq!(ctx.retry(no_source()), SourceAction::Stop);
    assert_eq!(ctx.source(), None);
    assert_eq!(ctx.source_state(), CaptureSourceState::Stopped);
    assert_eq!(ctx.retry(no_source()), SourceAction::Nothing);
}

#[test]
fn readings_from_text_are_taken_in_whole_microseconds() {
    let mut ctx = running();
    set_target_process(&mut ctx, 10);
    assert!(ctx.ingest_reading(10, FrameReading { micros: 16_666, cut: true }));
    assert!(ctx.ingest_reading(10, FrameReading { micros: 1_000_000, cut: false }));
    assert!(!ctx.ingest_reading(10, FrameReading { micros: 1_000_000, cut: true }));
    assert!(!ctx.ingest_reading(10, FrameReading { micros: 999, cut: true }));
    assert!(!ctx.ingest_reading(11, FrameReading { micros: 16_666, cut: false }));
    assert_eq!(ctx.snapshot(), vec![16_666, 1_000_000]);
}
