use whisper_rust_binding::error::WhisperError;
use whisper_rust_binding::flutter_api::{
    cleanup_all_transcribers, FlutterTranscriberApi, FrbTranscriberConfig,
};
use whisper_rust_binding::flutter_transcriber::{check_configuration, BufferStatus, FlutterTranscriber};
use whisper_rust_binding::validation::ValidationType;

fn session() -> FlutterTranscriber<f32> {
    FlutterTranscriber::new("m.bin".to_string(), "ar".to_string(), 16000, 2000, 500, 50, true)
        .unwrap()
}

#[test]
fn default_settings() {
    let config = FrbTranscriberConfig::default();
    assert_eq!(
        config,
        FrbTranscriberConfig {
            model_path: "ggml-tiny.bin".to_string(),
            language: "ar".to_string(),
            sample_rate: 16000,
            window_duration_ms: 2000,
            overlap_duration_ms: 500,
            chunk_size_ms: 50,
        }
    );
}

#[test]
fn session_settings_are_checked() {
    assert!(check_configuration(16000, 2000, 500, 50));
    assert!(check_configuration(16000, 2000, 500, 500));
    assert!(!check_configuration(16000, 2000, 500, 501));
    assert!(!check_configuration(16000, 2000, 2000, 50));
    assert!(!check_configuration(0, 2000, 500, 50));
    assert!(!check_configuration(16000, u32::MAX / 5 + 1, 500, 50));
    assert!(matches!(
        FlutterTranscriber::<f32>::new("m".to_string(), "ar".to_string(), 16000, 2000, 2000, 50, true),
        Err(WhisperError::InvalidConfiguration(_))
    ));
    assert!(matches!(
        FlutterTranscriber::<f32>::new("m".to_string(), "ar".to_string(), 16000, 2000, 500, 600, true),
        Err(WhisperError::InvalidConfiguration(_))
    ));
    assert!(matches!(
        FlutterTranscriber::<f32>::new("m".to_string(), "ar".to_string(), 16000, 2000, 2000, 50, false),
        Err(WhisperError::InvalidConfiguration(_))
    ));
    match FlutterTranscriber::<f32>::new("m".to_string(), "ar".to_string(), 16000, 2000, 500, 50, false) {
        Err(e) => assert_eq!(e, WhisperError::ModelInitError("m".to_string())),
        Ok(_) => panic!("a session without a model"),
    }
}

#[test]
fn session_buffer_holds_five_windows() {
    let mut session = session();
    assert_eq!(session.audio_buffer.capacity(), 160000);
    let status = session.add_audio_chunk(&vec![0.0f32; 170000]);
    assert_eq!(
        status,
        BufferStatus {
            current_duration_ms: 10000,
            buffer_usage_percent: 100,
            is_ready_for_processing: true,
            samples_count: 160000,
        }
    );
    assert_eq!(session.get_stats().buffer_overflows, 10000);
    assert_eq!(session.get_buffer_status(), status);
}

#[test]
fn session_dispatches_window_by_window() {
    let mut session = session();
    let feed: Vec<f32> = (0..31999).map(|i| i as f32).collect();
    let status = session.add_audio_chunk(&feed);
    assert!(!status.is_ready_for_processing);
    assert_eq!(status.current_duration_ms, 1999);
    assert!(session.process_if_ready().is_none());
    session.add_audio_chunk(&[31999.0]);
    let request = session.process_if_ready().unwrap();
    assert_eq!(request.samples.len(), 32000);
    assert_eq!(request.samples[0], 0.0);
    assert_eq!(request.samples[31999], 31999.0);
    assert_eq!(request.sample_rate, 16000);
    assert_eq!(request.language, Some("ar".to_string()));
    assert!(session.dispatcher.is_busy);
    assert_eq!(session.scheduler.last_processed_mark, 24000);

    let more: Vec<f32> = (32000..56000).map(|i| i as f32).collect();
    session.add_audio_chunk(&more);
    let stats_before = session.get_stats();
    let mark_before = session.scheduler.last_processed_mark;
    assert!(session.process_if_ready().is_none());
    assert_eq!(session.get_stats(), stats_before);
    assert_eq!(session.scheduler.last_processed_mark, mark_before);

    let first = session.complete_processing(Ok(" بسم الله ".to_string()), 120).unwrap().unwrap();
    assert_eq!(first.text, "بسم الله");
    assert_eq!(first.processing_time_ms, 120);
    assert!(first.is_real_time);
    assert_eq!(first.end_time_ms, 2000);
    assert!(!session.dispatcher.is_busy);
    assert_eq!(session.get_stats().total_processed_windows, 1);
    assert_eq!(session.get_stats().successful_transcriptions, 1);

    let second = session.process_if_ready().unwrap();
    assert_eq!(second.samples.len(), 32000);
    assert_eq!(second.samples[0], 24000.0);
    assert_eq!(second.samples[..8000], request.samples[24000..]);
    assert_eq!(session.complete_processing(Ok("".to_string()), 90), Ok(None));
    assert_eq!(session.get_stats().total_processed_windows, 2);
    assert_eq!(session.get_stats().successful_transcriptions, 1);
    assert!(session.process_if_ready().is_none());
}

#[test]
fn failed_inference_does_not_stall_the_session() {
    let mut session = session();
    session.add_audio_chunk(&vec![0.0f32; 32000]);
    assert!(session.process_if_ready().is_some());
    assert_eq!(
        session.complete_processing(Err("timeout".to_string()), 3000),
        Err(WhisperError::ProcessingError("timeout".to_string()))
    );
    assert!(!session.dispatcher.is_busy);
    assert_eq!(session.get_stats().total_processed_windows, 1);
    assert_eq!(session.get_stats().successful_transcriptions, 0);
    assert!(matches!(
        session.complete_processing(Ok("late".to_string()), 1),
        Err(WhisperError::InvalidParameter(_))
    ));
    assert_eq!(session.get_stats().total_processed_windows, 1);
    session.add_audio_chunk(&vec![0.0f32; 16000]);
    assert!(session.process_if_ready().is_some());
}

#[test]
fn session_validates_text() {
    let session = session();
    let result = session.validate_transcription("Hello", " hello ");
    assert_eq!(result.validation_type, ValidationType::ExactMatch);
}

#[test]
fn create_list_destroy() {
    let mut api: FlutterTranscriberApi<f32> = FlutterTranscriberApi::new();
    assert_eq!(api.list_transcribers(), Vec::<String>::new());
    assert_eq!(
        api.create_transcriber("a".to_string(), FrbTranscriberConfig::default(), true),
        Ok(())
    );
    assert_eq!(api.create_arabic_transcriber("b".to_string(), "m.bin".to_string(), true), Ok(()));
    assert_eq!(api.create_murajaah_transcriber("c".to_string(), "m.bin".to_string(), true), Ok(()));
    assert_eq!(api.create_fast_transcriber("d".to_string(), "m.bin".to_string(), true), Ok(()));
    assert_eq!(api.list_transcribers(), vec!["a", "b", "c", "d"]);
    assert_eq!(api.find(&"c".to_string()), Some(2));
    assert_eq!(api.find(&"z".to_string()), None);

    let murajaah = &api.instances[2].transcriber;
    assert_eq!(murajaah.scheduler.window_duration_ms, 3000);
    assert_eq!(murajaah.scheduler.overlap_duration_ms, 1000);
    assert_eq!(murajaah.model_path, "m.bin");
    let fast = &api.instances[3].transcriber;
    assert_eq!(fast.scheduler.window_duration_ms, 1500);
    assert_eq!(fast.scheduler.overlap_duration_ms, 300);
    let arabic = &api.instances[1].transcriber;
    assert_eq!(arabic.scheduler.window_duration_ms, 2000);
    assert_eq!(arabic.scheduler.overlap_duration_ms, 500);
    assert_eq!(arabic.dispatcher.language, Some("ar".to_string()));

    assert_eq!(
        api.create_transcriber("a".to_string(), FrbTranscriberConfig::default(), true),
        Err(WhisperError::AlreadyExists("a".to_string()))
    );
    assert_eq!(api.destroy_transcriber("b".to_string()), Ok(()));
    assert_eq!(api.list_transcribers(), vec!["a", "c", "d"]);
    assert_eq!(
        api.destroy_transcriber("b".to_string()),
        Err(WhisperError::NotFound("b".to_string()))
    );
    assert_eq!(cleanup_all_transcribers(&mut api), 3);
    assert_eq!(api.list_transcribers(), Vec::<String>::new());
}

#[test]
fn failed_creation_registers_nothing() {
    let mut api: FlutterTranscriberApi<f32> = FlutterTranscriberApi::new();
    let mut bad = FrbTranscriberConfig::default();
    bad.overlap_duration_ms = 2000;
    assert!(matches!(
        api.create_transcriber("a".to_string(), bad, true),
        Err(WhisperError::InvalidConfiguration(_))
    ));
    assert!(matches!(
        api.create_transcriber("a".to_string(), FrbTranscriberConfig::default(), false),
        Err(WhisperError::ModelInitError(_))
    ));
    assert_eq!(api.list_transcribers(), Vec::<String>::new());
}

#[test]
fn sessions_are_independent() {
    let mut api: FlutterTranscriberApi<f32> = FlutterTranscriberApi::new();
    api.create_transcriber("a".to_string(), FrbTranscriberConfig::default(), true).unwrap();
    api.create_transcriber("b".to_string(), FrbTranscriberConfig::default(), true).unwrap();
    let status = api.add_audio_chunk("a".to_string(), &vec![0.5f32; 32000]).unwrap();
    assert_eq!(status.samples_count, 32000);
    assert_eq!(status.current_duration_ms, 2000);
    assert_eq!(status.buffer_usage_percent, 20);
    assert!(status.is_ready_for_processing);
    assert_eq!(api.get_buffer_status("b".to_string()).unwrap().samples_count, 0);
    assert_eq!(api.get_buffer_status("a".to_string()), Ok(status));

    assert!(api.process_if_ready("b".to_string()).unwrap().is_none());
    let request = api.process_if_ready("a".to_string()).unwrap().unwrap();
    assert_eq!(request.samples.len(), 32000);
    assert!(api.process_if_ready("a".to_string()).unwrap().is_none());
    let text = api.complete_processing("a".to_string(), Ok("salam".to_string()), 500).unwrap().unwrap();
    assert_eq!(text.text, "salam");
    assert!(matches!(
        api.complete_processing("b".to_string(), Ok("salam".to_string()), 500),
        Err(WhisperError::InvalidParameter(_))
    ));

    let stats = api.get_processing_stats("a".to_string()).unwrap();
    assert_eq!(stats.total_processed_windows, 1);
    assert_eq!(api.get_processing_stats("b".to_string()).unwrap().total_processed_windows, 0);

    let health = api.health_check("a".to_string()).unwrap();
    assert_eq!(health.buffer, status);
    assert_eq!(health.stats, stats);
    assert_eq!(health.success_rate_percent, 100);
    assert_eq!(health.real_time_factor_permille, 4000);
}

#[test]
fn unknown_session_is_an_error_everywhere() {
    let mut api: FlutterTranscriberApi<f32> = FlutterTranscriberApi::new();
    let missing = || WhisperError::NotFound("x".to_string());
    assert_eq!(api.add_audio_chunk("x".to_string(), &[0.0]), Err(missing()));
    assert!(matches!(api.process_if_ready("x".to_string()), Err(WhisperError::NotFound(_))));
    assert_eq!(api.complete_processing("x".to_string(), Ok("t".to_string()), 1), Err(missing()));
    assert_eq!(
        api.validate_transcription("x".to_string(), "a".to_string(), "a".to_string()),
        Err(missing())
    );
    assert_eq!(api.get_buffer_status("x".to_string()), Err(missing()));
    assert_eq!(api.get_processing_stats("x".to_string()), Err(missing()));
    assert_eq!(api.health_check("x".to_string()), Err(missing()));
    assert_eq!(api.destroy_transcriber("x".to_string()), Err(missing()));
}

#[test]
fn registry_validates_text() {
    let mut api: FlutterTranscriberApi<f32> = FlutterTranscriberApi::new();
    api.create_transcriber("a".to_string(), FrbTranscriberConfig::default(), true).unwrap();
    let result = api
        .validate_transcription("a".to_string(), "hello word".to_string(), "hello world".to_string())
        .unwrap();
    assert_eq!(result.validation_type, ValidationType::FuzzyMatch);
    assert!(result.is_match);
}

#[test]
fn last_window_of_a_closed_stream() {
    let mut session = session();
    let feed: Vec<f32> = (0..10000).map(|i| i as f32).collect();
    session.add_audio_chunk(&feed);
    assert!(session.process_if_ready().is_none());
    assert!(session.process_remaining(1000).is_none());
    let request = session.process_remaining(500).unwrap();
    assert_eq!(request.samples, feed);
    assert!(session.dispatcher.is_busy);
    assert_eq!(session.scheduler.last_processed_mark, 10000);
    assert_eq!(session.complete_processing(Ok("end".to_string()), 10).unwrap().unwrap().text, "end");
    assert!(session.process_remaining(500).is_none());
}

#[test]
fn sessions_can_be_read_by_identifier() {
    let mut api: FlutterTranscriberApi<f32> = FlutterTranscriberApi::new();
    api.create_fast_transcriber("fast".to_string(), "m.bin".to_string(), true).unwrap();
    let session = api.get(&"fast".to_string()).unwrap();
    assert_eq!(session.scheduler.window_duration_ms, 1500);
    assert!(api.get(&"slow".to_string()).is_none());
}
