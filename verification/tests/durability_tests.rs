use golem_tts::durability::{CallAction, CallInput, CallOutcome, DurableJournal};
use golem_tts::error::DomainError;
use golem_tts::guest::{
    DurableTts, ExtendedGuest, TtsStreamingGuest, TtsSynthesisGuest, TtsVoicesGuest,
};
use golem_tts::types::{
    LanguageInfo, StreamSession, StreamStatus, SynthesisOptions, SynthesisResult, TextInput,
    TextType, TimingInfo, ValidationResult, VoiceFilter, VoiceInfo,
};

/// A provider whose synthesis outcomes are scripted, counting how often
/// the (stand-in for the) network is invoked.
struct ScriptedProvider {
    synth_calls: u32,
    other_calls: u32,
}

fn unsupported() -> DomainError {
    DomainError::UnsupportedOperation("not in this harness".to_string())
}

impl TtsVoicesGuest for ScriptedProvider {
    fn list_voices(&mut self, _filter: Option<VoiceFilter>) -> Result<Vec<VoiceInfo>, DomainError> {
        self.other_calls += 1;
        Ok(vec![])
    }
    fn get_voice(&mut self, _voice_id: String) -> Result<VoiceInfo, DomainError> {
        self.other_calls += 1;
        Err(unsupported())
    }
    fn search_voices(
        &mut self,
        _query: String,
        _filter: Option<VoiceFilter>,
    ) -> Result<Vec<VoiceInfo>, DomainError> {
        self.other_calls += 1;
        Ok(vec![])
    }
    fn list_languages(&mut self) -> Result<Vec<LanguageInfo>, DomainError> {
        self.other_calls += 1;
        Ok(vec![])
    }
}

impl TtsSynthesisGuest for ScriptedProvider {
    fn synthesize(
        &mut self,
        input: TextInput,
        _options: SynthesisOptions,
    ) -> Result<SynthesisResult, DomainError> {
        self.synth_calls += 1;
        Ok(SynthesisResult {
            audio_data: input.content.into_bytes(),
            metadata: None,
        })
    }
    fn synthesize_batch(
        &mut self,
        inputs: Vec<TextInput>,
        _options: SynthesisOptions,
    ) -> Result<Vec<SynthesisResult>, DomainError> {
        self.synth_calls += 1;
        Ok(inputs
            .into_iter()
            .map(|i| SynthesisResult {
                audio_data: i.content.into_bytes(),
                metadata: None,
            })
            .collect())
    }
    fn get_timing_marks(
        &mut self,
        _input: TextInput,
        _voice_id: String,
    ) -> Result<Vec<TimingInfo>, DomainError> {
        self.other_calls += 1;
        Err(unsupported())
    }
    fn validate_input(
        &mut self,
        _input: TextInput,
        _voice_id: String,
    ) -> Result<ValidationResult, DomainError> {
        self.other_calls += 1;
        Err(unsupported())
    }
}

impl TtsStreamingGuest for ScriptedProvider {
    fn create_stream(&mut self, _options: SynthesisOptions) -> Result<StreamSession, DomainError> {
        Err(unsupported())
    }
    fn stream_send_text(
        &mut self,
        _session_id: String,
        _input: TextInput,
    ) -> Result<(), DomainError> {
        Err(unsupported())
    }
    fn stream_finish(&mut self, _session_id: String) -> Result<(), DomainError> {
        Err(unsupported())
    }
    fn stream_receive_chunk(
        &mut self,
        _session_id: String,
    ) -> Result<Option<Vec<u8>>, DomainError> {
        Err(unsupported())
    }
    fn stream_has_pending(&mut self, _session_id: String) -> Result<bool, DomainError> {
        Err(unsupported())
    }
    fn stream_get_status(&mut self, _session_id: String) -> Result<StreamStatus, DomainError> {
        Err(unsupported())
    }
    fn stream_close(&mut self, _session_id: String) -> Result<(), DomainError> {
        Err(unsupported())
    }
}

impl ExtendedGuest for ScriptedProvider {}

fn text(t: &str) -> TextInput {
    TextInput {
        content: t.to_string(),
        language: None,
        text_type: TextType::Plain,
    }
}

fn options(voice: &str) -> SynthesisOptions {
    SynthesisOptions {
        voice_id: voice.to_string(),
        audio_config: None,
        voice_settings: None,
        model_version: None,
        enable_timing: None,
        enable_word_timing: None,
        seed: None,
    }
}

#[test]
fn live_calls_execute_and_are_persisted() {
    let provider = ScriptedProvider {
        synth_calls: 0,
        other_calls: 0,
    };
    let mut durable = DurableTts::new(provider);

    let r1 = durable.synthesize(text("one"), options("v")).unwrap();
    assert_eq!(r1.audio_data, b"one".to_vec());
    let r2 = durable.synthesize(text("two"), options("v")).unwrap();
    assert_eq!(r2.audio_data, b"two".to_vec());

    assert_eq!(durable.inner.synth_calls, 2);
    assert_eq!(durable.journal.records.len(), 2);
    assert_eq!(durable.journal.position, 2);
}

#[test]
fn replay_returns_identical_outcomes_without_invoking_the_provider() {
    // Record a completed execution.
    let provider = ScriptedProvider {
        synth_calls: 0,
        other_calls: 0,
    };
    let mut live = DurableTts::new(provider);
    let first = live.synthesize(text("hello"), options("v")).unwrap();
    let batch = live
        .synthesize_batch(vec![text("a"), text("b")], options("v"))
        .unwrap();
    assert_eq!(live.inner.synth_calls, 2);
    let recorded = live.journal.records;

    // Recover and replay the same call sequence.
    let fresh = ScriptedProvider {
        synth_calls: 0,
        other_calls: 0,
    };
    let mut replayed = DurableTts::recover(fresh, recorded);
    let first_again = replayed.synthesize(text("hello"), options("v")).unwrap();
    let batch_again = replayed
        .synthesize_batch(vec![text("a"), text("b")], options("v"))
        .unwrap();

    // Identical outcomes, and zero calls reached the provider.
    assert_eq!(first_again.audio_data, first.audio_data);
    assert_eq!(batch_again.len(), batch.len());
    assert_eq!(batch_again[0].audio_data, batch[0].audio_data);
    assert_eq!(batch_again[1].audio_data, batch[1].audio_data);
    assert_eq!(replayed.inner.synth_calls, 0);
    assert_eq!(replayed.inner.other_calls, 0);

    // After the recorded prefix, execution is live again.
    assert!(replayed.journal.is_live());
    let extra = replayed.synthesize(text("three"), options("v")).unwrap();
    assert_eq!(extra.audio_data, b"three".to_vec());
    assert_eq!(replayed.inner.synth_calls, 1);
}

#[test]
fn a_diverging_replay_is_a_fatal_mismatch() {
    let provider = ScriptedProvider {
        synth_calls: 0,
        other_calls: 0,
    };
    let mut live = DurableTts::new(provider);
    live.synthesize(text("recorded"), options("v")).unwrap();
    let recorded = live.journal.records;

    let fresh = ScriptedProvider {
        synth_calls: 0,
        other_calls: 0,
    };
    let mut replayed = DurableTts::recover(fresh, recorded);
    match replayed.synthesize(text("different"), options("v")) {
        Err(DomainError::InternalError(_)) => {}
        other => panic!("unexpected: {:?}", other),
    }
    // The mismatch never reached the provider and recorded nothing new.
    assert_eq!(replayed.inner.synth_calls, 0);
    assert_eq!(replayed.journal.records.len(), 1);
}

#[test]
fn journal_replays_a_whole_sequence() {
    let mut journal = DurableJournal::new();
    let in1 = CallInput::Synthesize(text("x"), options("v"));
    let out1 = CallOutcome::Synthesize(Ok(SynthesisResult {
        audio_data: vec![1],
        metadata: None,
    }));
    assert!(journal.is_live());
    match journal.next_action(&in1).unwrap() {
        CallAction::Execute => {}
        CallAction::Return(_) => panic!("live journal must execute"),
    }
    journal.record(in1, out1);

    let mut replay = DurableJournal::from_records(journal.records);
    let inputs = vec![CallInput::Synthesize(text("x"), options("v"))];
    let outs = replay.replay_sequence(&inputs).unwrap();
    assert_eq!(outs.len(), 1);
    match &outs[0] {
        CallOutcome::Synthesize(Ok(r)) => assert_eq!(r.audio_data, vec![1]),
        other => panic!("unexpected: {:?}", {
            let _ = other;
            "wrong outcome shape"
        }),
    }
    assert!(replay.is_live());
}

#[test]
fn passthrough_operations_do_not_touch_the_journal() {
    let provider = ScriptedProvider {
        synth_calls: 0,
        other_calls: 0,
    };
    let mut durable = DurableTts::new(provider);
    let _ = durable.list_voices(None);
    let _ = durable.list_languages();
    let _ = durable.validate_input(text("x"), "v".to_string());
    assert_eq!(durable.inner.other_calls, 3);
    assert_eq!(durable.journal.records.len(), 0);
}
