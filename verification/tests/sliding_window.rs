use whisper_rust_binding::error::WhisperError;
use whisper_rust_binding::scheduler::WindowRange;
use whisper_rust_binding::sliding_window::plan_sliding_windows;

fn range(start: u64, end: u64) -> WindowRange {
    WindowRange { start, end }
}

#[test]
fn short_recording_is_one_window() {
    assert_eq!(plan_sliding_windows(500, 1000, 500, 1000), Ok(vec![range(0, 500)]));
    assert_eq!(plan_sliding_windows(1000, 1000, 500, 1000), Ok(vec![range(0, 1000)]));
    assert_eq!(plan_sliding_windows(0, 1000, 500, 1000), Ok(vec![range(0, 0)]));
}

#[test]
fn whole_windows_follow_at_the_step() {
    assert_eq!(
        plan_sliding_windows(3400, 1000, 1000, 1000),
        Ok(vec![range(0, 1000), range(1000, 2000), range(2000, 3000)])
    );
    assert_eq!(
        plan_sliding_windows(3000, 1000, 1000, 1000),
        Ok(vec![range(0, 1000), range(1000, 2000), range(2000, 3000)])
    );
}

#[test]
fn rest_is_counted_from_the_next_start() {
    assert_eq!(
        plan_sliding_windows(2000, 1000, 500, 1000),
        Ok(vec![range(0, 1000), range(500, 1500), range(1000, 2000), range(1000, 2000)])
    );
}

#[test]
fn long_tail_gets_one_more_window() {
    assert_eq!(
        plan_sliding_windows(2300, 1000, 500, 1000),
        Ok(vec![range(0, 1000), range(500, 1500), range(1000, 2000), range(1300, 2300)])
    );
    assert_eq!(
        plan_sliding_windows(2100, 1000, 500, 1000),
        Ok(vec![range(0, 1000), range(500, 1500), range(1000, 2000), range(1100, 2100)])
    );
    assert_eq!(
        plan_sliding_windows(1200, 1000, 1000, 1000),
        Ok(vec![range(0, 1000)])
    );
    assert_eq!(
        plan_sliding_windows(1501, 1000, 1000, 1000),
        Ok(vec![range(0, 1000), range(501, 1501)])
    );
}

#[test]
fn plan_settings_are_checked() {
    for (window, step, rate) in [(0, 500, 1000), (1000, 0, 1000), (1000, 1001, 1000), (1000, 500, 0), (1000, 500, -1), (1000, 1, 999)] {
        assert!(matches!(
            plan_sliding_windows(5000, window, step, rate),
            Err(WhisperError::ProcessingError(_))
        ));
    }
}
