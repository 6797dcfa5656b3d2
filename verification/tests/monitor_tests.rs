use open_accountability::monitor::{
    monitor_step, sleep_duration_seconds, sleep_step, slice_offsets, throttle_seconds,
    trim_log_lines, MonitorEvent, MonitorPhase, SleepStep,
};
use open_accountability::{MAX_SLEEP_SECONDS, MIN_SLEEP_SECONDS};

#[test]
fn sleep_duration_stays_between_the_bounds() {
    for _ in 0..64 {
        let d = sleep_duration_seconds();
        assert!(MIN_SLEEP_SECONDS <= d && d < MAX_SLEEP_SECONDS);
    }
}

#[test]
fn sleep_counts_down_and_honors_cancellation() {
    assert_eq!(sleep_step(5, false), SleepStep::Continue(4));
    assert_eq!(sleep_step(1, false), SleepStep::Continue(0));
    assert_eq!(sleep_step(0, false), SleepStep::Finished);
    assert_eq!(sleep_step(0, true), SleepStep::Cancelled);
    assert_eq!(sleep_step(300, true), SleepStep::Cancelled);
}

#[test]
fn throttle_scales_elapsed_time_tenfold() {
    assert_eq!(throttle_seconds(0), 0);
    assert_eq!(throttle_seconds(2), 20);
    assert_eq!(throttle_seconds(u64::MAX), u64::MAX);
}

#[test]
fn frames_are_cut_into_fixed_height_slices() {
    assert_eq!(slice_offsets(0), Vec::<u32>::new());
    assert_eq!(slice_offsets(512), vec![0]);
    assert_eq!(slice_offsets(513), vec![0, 512]);
    assert_eq!(slice_offsets(1080), vec![0, 512, 1024]);
}

#[test]
fn log_within_the_limit_is_left_alone() {
    let lines: Vec<String> = (0..5).map(|i| format!("line {}", i)).collect();
    assert!(trim_log_lines(&lines, 10).is_none());
    assert!(trim_log_lines(&lines, 5).is_none());
}

#[test]
fn overgrown_log_keeps_the_newer_lines() {
    let lines: Vec<String> = ["a", "b", "c", "d", "e", "f"]
        .iter()
        .map(|s| s.to_string())
        .collect();
    let kept = trim_log_lines(&lines, 4).expect("the log is over the limit");
    assert_eq!(kept, vec!["c".to_string(), "d".to_string(), "e".to_string(), "f".to_string()]);
}

#[test]
fn loop_walks_one_full_cycle() {
    let p = MonitorPhase::FetchBlacklist;
    let p = monitor_step(p, MonitorEvent::BlacklistReady);
    assert_eq!(p, MonitorPhase::StartCycle);
    let p = monitor_step(p, MonitorEvent::CountsReset);
    assert_eq!(p, MonitorPhase::Capture);
    let p = monitor_step(p, MonitorEvent::DisplaysEnumerated);
    assert_eq!(p, MonitorPhase::Analyze);
    let p = monitor_step(p, MonitorEvent::AnalysisFinished);
    assert_eq!(p, MonitorPhase::Report);
    let p = monitor_step(p, MonitorEvent::ReportPosted);
    assert_eq!(p, MonitorPhase::Sleep);
    let p = monitor_step(p, MonitorEvent::SleepFinished);
    assert_eq!(p, MonitorPhase::StartCycle);
}

#[test]
fn failures_abandon_the_cycle_but_not_the_loop() {
    assert_eq!(
        monitor_step(MonitorPhase::FetchBlacklist, MonitorEvent::FetchFailed),
        MonitorPhase::Sleep
    );
    assert_eq!(
        monitor_step(MonitorPhase::Capture, MonitorEvent::EnumerationFailed),
        MonitorPhase::Report
    );
    assert_eq!(
        monitor_step(MonitorPhase::Report, MonitorEvent::ReportFailed),
        MonitorPhase::Sleep
    );
}

#[test]
fn cancellation_stops_the_loop_from_every_phase() {
    let phases = [
        MonitorPhase::FetchBlacklist,
        MonitorPhase::StartCycle,
        MonitorPhase::Capture,
        MonitorPhase::Analyze,
        MonitorPhase::Report,
        MonitorPhase::Sleep,
    ];
    for p in phases {
        assert_eq!(monitor_step(p, MonitorEvent::CancellationSeen), MonitorPhase::Stopped);
    }
    assert_eq!(
        monitor_step(MonitorPhase::Analyze, MonitorEvent::AnalysisCancelled),
        MonitorPhase::Stopped
    );
    assert_eq!(
        monitor_step(MonitorPhase::Sleep, MonitorEvent::SleepCancelled),
        MonitorPhase::Stopped
    );
}
