use golem_tts::error::DomainError;
use golem_tts::streaming::StreamManager;
use golem_tts::types::{AudioConfig, AudioFormat, SynthesisOptions};

fn options(voice: &str, sample_rate: Option<u32>) -> SynthesisOptions {
    SynthesisOptions {
        voice_id: voice.to_string(),
        audio_config: sample_rate.map(|sr| AudioConfig {
            format: AudioFormat::Pcm,
            sample_rate: Some(sr),
            bit_rate: None,
            channels: Some(1),
        }),
        voice_settings: None,
        model_version: None,
        enable_timing: None,
        enable_word_timing: None,
        seed: None,
    }
}

#[test]
fn full_streaming_lifecycle() {
    let mut manager = StreamManager::new("key".to_string());

    // create -> send -> finish -> drain chunks -> close
    let session = manager
        .create_stream(&options("aura-asteria-en", Some(16000)))
        .unwrap();
    assert_eq!(session.model, "aura-asteria-en");
    assert_eq!(session.encoding, "linear16");
    assert_eq!(session.sample_rate, 16000);

    manager.send_text(&session.session_id).unwrap();
    manager
        .push_chunk(&session.session_id, vec![1, 2])
        .unwrap();
    manager.push_chunk(&session.session_id, vec![3]).unwrap();
    manager.finish(&session.session_id).unwrap();

    let status = manager.get_status(&session.session_id).unwrap();
    assert_eq!(status.status, "finished");
    assert!(!status.is_active);
    assert!(status.has_pending_chunks);
    assert!(status.error.is_none());

    // Chunks come out in FIFO order until none remain.
    assert!(manager.has_pending(&session.session_id).unwrap());
    assert_eq!(
        manager.receive_chunk(&session.session_id).unwrap(),
        Some(vec![1, 2])
    );
    assert_eq!(
        manager.receive_chunk(&session.session_id).unwrap(),
        Some(vec![3])
    );
    assert_eq!(manager.receive_chunk(&session.session_id).unwrap(), None);
    assert!(!manager.has_pending(&session.session_id).unwrap());

    manager.close(&session.session_id).unwrap();

    // After close, every operation fails with a session-not-found error.
    assert!(matches!(
        manager.send_text(&session.session_id),
        Err(DomainError::SessionNotFound(_))
    ));
    assert!(matches!(
        manager.finish(&session.session_id),
        Err(DomainError::SessionNotFound(_))
    ));
    assert!(matches!(
        manager.receive_chunk(&session.session_id),
        Err(DomainError::SessionNotFound(_))
    ));
    assert!(matches!(
        manager.has_pending(&session.session_id),
        Err(DomainError::SessionNotFound(_))
    ));
    assert!(matches!(
        manager.get_status(&session.session_id),
        Err(DomainError::SessionNotFound(_))
    ));
    assert!(matches!(
        manager.close(&session.session_id),
        Err(DomainError::SessionNotFound(_))
    ));
}

#[test]
fn finishing_twice_is_a_no_op_success() {
    let mut manager = StreamManager::new("key".to_string());
    let session = manager.create_stream(&options("voice", None)).unwrap();
    assert_eq!(session.sample_rate, 24000);
    manager.finish(&session.session_id).unwrap();
    manager.finish(&session.session_id).unwrap();
    let status = manager.get_status(&session.session_id).unwrap();
    assert_eq!(status.status, "finished");
}

#[test]
fn sending_after_finish_is_rejected() {
    let mut manager = StreamManager::new("key".to_string());
    let session = manager.create_stream(&options("voice", None)).unwrap();
    manager.finish(&session.session_id).unwrap();
    assert!(matches!(
        manager.send_text(&session.session_id),
        Err(DomainError::InvalidInput(_))
    ));
}

#[test]
fn sessions_are_independent_and_identifiers_fresh() {
    let mut manager = StreamManager::new("key".to_string());
    let a = manager.create_stream(&options("a", None)).unwrap();
    let b = manager.create_stream(&options("b", None)).unwrap();
    assert_ne!(a.session_id, b.session_id);

    manager.push_chunk(&a.session_id, vec![9]).unwrap();
    assert!(manager.has_pending(&a.session_id).unwrap());
    assert!(!manager.has_pending(&b.session_id).unwrap());

    manager.close(&a.session_id).unwrap();
    // Closing one session leaves the other alive.
    let status = manager.get_status(&b.session_id).unwrap();
    assert_eq!(status.status, "active");
    assert!(status.is_active);
}

#[test]
fn unknown_identifiers_are_not_found() {
    let mut manager = StreamManager::new("key".to_string());
    assert!(matches!(
        manager.get_status("12345"),
        Err(DomainError::SessionNotFound(_))
    ));
    assert!(matches!(
        manager.push_chunk("0", vec![1]),
        Err(DomainError::SessionNotFound(_))
    ));
}
