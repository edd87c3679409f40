use whisper_rust_binding::buffer::AudioRingBuffer;
use whisper_rust_binding::error::WhisperError;
use whisper_rust_binding::scheduler::{WindowRange, WindowScheduler};

#[test]
fn construction_checks_overlap_and_rate() {
    assert!(matches!(
        WindowScheduler::new(16000, 2000, 2000),
        Err(WhisperError::InvalidConfiguration(_))
    ));
    assert!(matches!(
        WindowScheduler::new(16000, 2000, 2500),
        Err(WhisperError::InvalidConfiguration(_))
    ));
    assert!(matches!(
        WindowScheduler::new(0, 2000, 500),
        Err(WhisperError::InvalidConfiguration(_))
    ));
    let scheduler = WindowScheduler::new(16000, 2000, 500).unwrap();
    assert_eq!(scheduler.last_processed_mark, 0);
    assert_eq!(scheduler.window_sample_count(), 32000);
    assert_eq!(scheduler.overlap_sample_count(), 8000);
    assert_eq!(scheduler.hop_sample_count(), 24000);
}

#[test]
fn first_and_second_window() {
    let mut scheduler = WindowScheduler::new(16000, 2000, 500).unwrap();
    assert_eq!(scheduler.poll(31999), None);
    let first = scheduler.poll(32000).unwrap();
    assert_eq!(first, WindowRange { start: 0, end: 32000 });
    assert_eq!(first.end - first.start, 32000);
    scheduler.advance(32000);
    assert_eq!(scheduler.last_processed_mark, 24000);
    let second = scheduler.poll(32000 + 24000).unwrap();
    assert_eq!(second, WindowRange { start: 24000, end: 56000 });
    assert_eq!(second.start - first.start, 24000);
}

#[test]
fn no_window_twice_at_the_same_occupancy() {
    let mut scheduler = WindowScheduler::new(16000, 2000, 500).unwrap();
    assert!(scheduler.poll(40000).is_some());
    scheduler.advance(40000);
    assert_eq!(scheduler.poll(40000), None);
}

#[test]
fn long_overlap_makes_a_window_due_again() {
    let mut scheduler = WindowScheduler::new(1000, 3000, 2000).unwrap();
    assert_eq!(scheduler.poll(3000), Some(WindowRange { start: 0, end: 3000 }));
    scheduler.advance(3000);
    assert_eq!(scheduler.last_processed_mark, 1000);
    assert_eq!(scheduler.poll(3000), Some(WindowRange { start: 0, end: 3000 }));
}

#[test]
fn polling_leaves_the_watermark() {
    let scheduler = WindowScheduler::new(16000, 2000, 500).unwrap();
    assert!(scheduler.poll(32000).is_some());
    assert!(scheduler.poll(32000).is_some());
    assert_eq!(scheduler.last_processed_mark, 0);
}

#[test]
fn watermark_never_goes_below_zero() {
    let mut scheduler = WindowScheduler::new(16000, 2000, 500).unwrap();
    scheduler.advance(100);
    assert_eq!(scheduler.last_processed_mark, 0);
}

#[test]
fn consecutive_windows_share_the_overlap() {
    let mut buffer: AudioRingBuffer<f32> = AudioRingBuffer::new(16000, 10000).unwrap();
    let mut scheduler = WindowScheduler::new(16000, 2000, 500).unwrap();
    let first_feed: Vec<f32> = (0..32000).map(|i| i as f32).collect();
    buffer.append(&first_feed);
    let first = scheduler.poll(buffer.len() as u64).unwrap();
    let first_window = buffer.extract_range(first.start as usize, first.end as usize).unwrap();
    scheduler.advance(buffer.len() as u64);
    let second_feed: Vec<f32> = (32000..56000).map(|i| i as f32).collect();
    buffer.append(&second_feed);
    let second = scheduler.poll(buffer.len() as u64).unwrap();
    let second_window = buffer.extract_range(second.start as usize, second.end as usize).unwrap();
    assert_eq!(first_window.len(), 32000);
    assert_eq!(second_window.len(), 32000);
    assert_eq!(first_window[24000..], second_window[..8000]);
    assert_eq!(second_window[0], 24000.0);
    assert_eq!(first_window[23999], 23999.0);
    assert_eq!(second_window[8000], 32000.0);
}

#[test]
fn tail_of_a_closed_stream() {
    let mut scheduler = WindowScheduler::new(16000, 2000, 500).unwrap();
    assert_eq!(scheduler.poll_final(8000, 500), None);
    assert_eq!(scheduler.poll_final(8001, 500), Some(WindowRange { start: 0, end: 8001 }));
    assert_eq!(scheduler.poll_final(32000, 500), Some(WindowRange { start: 0, end: 32000 }));
    scheduler.advance(32000);
    assert_eq!(scheduler.poll_final(32000, 500), None);
    assert_eq!(scheduler.poll_final(33000, 500), Some(WindowRange { start: 24000, end: 33000 }));
    assert_eq!(scheduler.poll_final(33000, 1000), None);
    scheduler.finish(33000);
    assert_eq!(scheduler.last_processed_mark, 33000);
    assert_eq!(scheduler.poll_final(33000, 500), None);
    assert_eq!(scheduler.poll_final(33000, 0), None);
}
