use whisper_rust_binding::buffer::{AudioRingBuffer, OccupancyStatus};
use whisper_rust_binding::error::WhisperError;
use whisper_rust_binding::timing::samples_for;

#[test]
fn capacity_is_rate_times_duration() {
    let buffer: AudioRingBuffer<f32> = AudioRingBuffer::new(16000, 10000).unwrap();
    assert_eq!(buffer.capacity(), 160000);
    assert_eq!(buffer.sample_rate(), 16000);
    assert_eq!(buffer.max_buffer_duration_ms(), 10000);
    assert_eq!(buffer.len(), 0);
    assert_eq!(samples_for(16000, 10000), 160000);
    assert_eq!(samples_for(44100, 1), 44);
}

#[test]
fn overflow_evicts_oldest_and_counts_each_sample() {
    let mut buffer: AudioRingBuffer<f32> = AudioRingBuffer::new(16000, 10000).unwrap();
    let samples = vec![0.0f32; 170000];
    let status = buffer.append(&samples);
    assert_eq!(buffer.len(), 160000);
    assert_eq!(
        status,
        OccupancyStatus { samples_count: 160000, current_duration_ms: 10000, evicted: 10000 }
    );
}

#[test]
fn length_never_exceeds_capacity() {
    let mut buffer: AudioRingBuffer<f32> = AudioRingBuffer::new(1000, 10).unwrap();
    assert_eq!(buffer.capacity(), 10);
    let mut evicted_total = 0;
    let mut appended_total = 0;
    for chunk in [3usize, 4, 0, 5, 25, 1] {
        let samples = vec![1.0f32; chunk];
        let status = buffer.append(&samples);
        appended_total += chunk;
        evicted_total += status.evicted;
        assert!(buffer.len() <= buffer.capacity());
        assert_eq!(status.samples_count, buffer.len());
        assert_eq!(appended_total - evicted_total, buffer.len());
    }
    assert_eq!(evicted_total, 28);
}

#[test]
fn eviction_is_first_in_first_out() {
    let mut buffer: AudioRingBuffer<f32> = AudioRingBuffer::new(1000, 5).unwrap();
    let first: Vec<f32> = vec![0.0, 1.0, 2.0];
    let second: Vec<f32> = vec![3.0, 4.0, 5.0, 6.0];
    assert_eq!(buffer.append(&first).evicted, 0);
    assert_eq!(buffer.append(&second).evicted, 2);
    assert_eq!(buffer.extract_range(0, 5), Ok(vec![2.0, 3.0, 4.0, 5.0, 6.0]));
}

#[test]
fn empty_append_changes_nothing() {
    let mut buffer: AudioRingBuffer<f32> = AudioRingBuffer::new(1000, 5).unwrap();
    buffer.append(&[1.0, 2.0]);
    let status = buffer.append(&[]);
    assert_eq!(status, OccupancyStatus { samples_count: 2, current_duration_ms: 2, evicted: 0 });
    assert_eq!(buffer.extract_range(0, 2), Ok(vec![1.0, 2.0]));
}

#[test]
fn zero_capacity_keeps_nothing() {
    let mut buffer: AudioRingBuffer<f32> = AudioRingBuffer::new(1, 500).unwrap();
    assert_eq!(buffer.capacity(), 0);
    let status = buffer.append(&[1.0, 2.0, 3.0]);
    assert_eq!(status, OccupancyStatus { samples_count: 0, current_duration_ms: 0, evicted: 3 });
    assert_eq!(buffer.usage_percent(), 100);
}

#[test]
fn construction_rejects_zero_rate_and_zero_duration() {
    assert!(matches!(
        AudioRingBuffer::<f32>::new(0, 1000),
        Err(WhisperError::InvalidConfiguration(_))
    ));
    assert!(matches!(
        AudioRingBuffer::<f32>::new(16000, 0),
        Err(WhisperError::InvalidConfiguration(_))
    ));
}

#[test]
fn latest_window_is_the_tail() {
    let mut buffer: AudioRingBuffer<f32> = AudioRingBuffer::new(1000, 100).unwrap();
    let samples: Vec<f32> = vec![0.0, 1.0, 2.0, 3.0, 4.0, 5.0, 6.0, 7.0];
    buffer.append(&samples);
    assert_eq!(buffer.extract_latest_window(3), Ok(vec![5.0, 6.0, 7.0]));
    assert_eq!(buffer.extract_latest_window(8), Ok(samples.clone()));
    assert_eq!(buffer.extract_latest_window(50), Ok(samples.clone()));
    assert_eq!(buffer.len(), 8);
    assert!(matches!(
        buffer.extract_latest_window(0),
        Err(WhisperError::InvalidParameter(_))
    ));
}

#[test]
fn range_outside_the_buffer_is_rejected() {
    let mut buffer: AudioRingBuffer<f32> = AudioRingBuffer::new(1000, 100).unwrap();
    buffer.append(&[0.0, 1.0, 2.0]);
    assert_eq!(buffer.extract_range(1, 3), Ok(vec![1.0, 2.0]));
    assert_eq!(buffer.extract_range(2, 2), Ok(vec![]));
    assert!(matches!(buffer.extract_range(2, 1), Err(WhisperError::InvalidParameter(_))));
    assert!(matches!(buffer.extract_range(0, 4), Err(WhisperError::InvalidParameter(_))));
    assert_eq!(buffer.copy_range(0, 2), vec![0.0, 1.0]);
}

#[test]
fn occupancy_in_milliseconds_and_percent() {
    let mut buffer: AudioRingBuffer<f32> = AudioRingBuffer::new(16000, 5000).unwrap();
    let samples = vec![0.0f32; 8000];
    buffer.append(&samples);
    assert_eq!(buffer.occupancy_duration_ms(), 500);
    assert_eq!(buffer.usage_percent(), 10);
}
