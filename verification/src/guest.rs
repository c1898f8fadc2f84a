//! The uniform operation surface each provider adapter implements, and the
//! durability decorator that wraps any implementation of it.
//!
//! `DurableTts` passes voice, validation and streaming operations through
//! untouched; `synthesize` and `synthesize_batch` go through the journal:
//! replayed while recorded entries remain, executed and persisted once the
//! journal is exhausted.

use vstd::prelude::*;

verus! {

use crate::durability::{DurableJournal, CallInput, CallOutcome, CallAction, CallRecord,
    call_input_view, call_outcome_view, synth_result_view, batch_result_view, inputs_view,
    duplicate_synth, duplicate_batch};
use crate::error::{DomainError, err_view, internal_error};
use crate::types::{TextInput, SynthesisOptions, SynthesisResult, ValidationResult, TimingInfo,
    VoiceInfo, VoiceFilter, LanguageInfo, StreamSession, StreamStatus, text_input_view,
    options_view};

/// Voice discovery operations.
pub trait TtsVoicesGuest {
    fn list_voices(&mut self, filter: Option<VoiceFilter>) -> Result<Vec<VoiceInfo>, DomainError>;

    fn get_voice(&mut self, voice_id: String) -> Result<VoiceInfo, DomainError>;

    fn search_voices(&mut self, query: String, filter: Option<VoiceFilter>) -> Result<
        Vec<VoiceInfo>,
        DomainError,
    >;

    fn list_languages(&mut self) -> Result<Vec<LanguageInfo>, DomainError>;
}

/// Synthesis operations.
pub trait TtsSynthesisGuest {
    fn synthesize(&mut self, input: TextInput, options: SynthesisOptions) -> Result<
        SynthesisResult,
        DomainError,
    >;

    fn synthesize_batch(&mut self, inputs: Vec<TextInput>, options: SynthesisOptions) -> Result<
        Vec<SynthesisResult>,
        DomainError,
    >;

    fn get_timing_marks(&mut self, input: TextInput, voice_id: String) -> Result<
        Vec<TimingInfo>,
        DomainError,
    >;

    fn validate_input(&mut self, input: TextInput, voice_id: String) -> Result<
        ValidationResult,
        DomainError,
    >;
}

/// Streaming operations.
pub trait TtsStreamingGuest {
    fn create_stream(&mut self, options: SynthesisOptions) -> Result<StreamSession, DomainError>;

    fn stream_send_text(&mut self, session_id: String, input: TextInput) -> Result<
        (),
        DomainError,
    >;

    fn stream_finish(&mut self, session_id: String) -> Result<(), DomainError>;

    fn stream_receive_chunk(&mut self, session_id: String) -> Result<Option<Vec<u8>>, DomainError>;

    fn stream_has_pending(&mut self, session_id: String) -> Result<bool, DomainError>;

    fn stream_get_status(&mut self, session_id: String) -> Result<StreamStatus, DomainError>;

    fn stream_close(&mut self, session_id: String) -> Result<(), DomainError>;
}

/// The whole uniform surface a provider adapter offers.
pub trait ExtendedGuest: TtsVoicesGuest + TtsSynthesisGuest + TtsStreamingGuest {

}

/// The durability decorator over any provider implementation.
pub struct DurableTts<Impl> {
    pub inner: Impl,
    pub journal: DurableJournal,
}

impl<Impl: ExtendedGuest> DurableTts<Impl> {
    /// Wraps a provider with a fresh journal: every call is live.
    pub fn new(inner: Impl) -> (r: DurableTts<Impl>)
        ensures
            r.journal.wf(),
            r.journal.spec_is_live(),
            r.journal.records@.len() == 0,
    {
        DurableTts { inner, journal: DurableJournal::new() }
    }

    /// Wraps a provider with a recovered journal: the recorded prefix is
    /// replayed before anything runs live.
    pub fn recover(inner: Impl, records: Vec<CallRecord>) -> (r: DurableTts<Impl>)
        ensures
            r.journal.wf(),
            r.journal.records == records,
            r.journal.position == 0,
    {
        DurableTts { inner, journal: DurableJournal::from_records(records) }
    }

    /// Synthesizes durably. While the journal holds a recorded entry at the
    /// cursor, a matching call returns the recorded outcome, the provider
    /// is not invoked, and nothing new is persisted; a diverging call is a
    /// fatal replay mismatch. Once the journal is exhausted, the provider
    /// runs and its outcome is persisted at the tail.
    pub fn synthesize(&mut self, input: TextInput, options: SynthesisOptions) -> (r: Result<
        SynthesisResult,
        DomainError,
    >)
        requires
            old(self).journal.wf(),
        ensures
            final(self).journal.wf(),
            old(self).journal.spec_is_live() ==> {
                &&& final(self).journal.records@.len() == old(self).journal.records@.len() + 1
                &&& final(self).journal.spec_is_live()
                &&& call_input_view(final(self).journal.records@.last().input) == (
                    0int,
                    seq![text_input_view(input)],
                    options_view(options),
                )
                &&& call_outcome_view(final(self).journal.records@.last().outcome) == (
                    0int,
                    Some(synth_result_view(r)),
                    None::<Result<Seq<crate::durability::ResView>, crate::durability::ErrView>>,
                )
            },
            !old(self).journal.spec_is_live() ==> {
                let rec = old(self).journal.records@[old(self).journal.position as int];
                &&& final(self).journal.records == old(self).journal.records
                &&& final(self).inner == old(self).inner
                &&& if call_input_view(rec.input) == (
                    0int,
                    seq![text_input_view(input)],
                    options_view(options),
                ) {
                    match rec.outcome {
                        CallOutcome::Synthesize(ro) => synth_result_view(r) == synth_result_view(
                            ro,
                        ),
                        CallOutcome::SynthesizeBatch(_) => r is Err && err_view(r->Err_0).0 == 12,
                    }
                } else {
                    r is Err && err_view(r->Err_0).0 == 12
                }
            },
    {
        let call = CallInput::Synthesize(input.duplicate(), options.duplicate());
        match self.journal.next_action(&call) {
            Ok(CallAction::Execute) => {
                let result = self.inner.synthesize(input, options);
                let outcome = CallOutcome::Synthesize(duplicate_synth(&result));
                self.journal.record(call, outcome);
                result
            },
            Ok(CallAction::Return(out)) => {
                match out {
                    CallOutcome::Synthesize(res) => res,
                    CallOutcome::SynthesizeBatch(_) => Err(
                        internal_error("durable replay mismatch: recorded outcome has wrong shape"),
                    ),
                }
            },
            Err(e) => Err(e),
        }
    }

    /// Synthesizes a batch durably, with the same journal discipline as
    /// `synthesize`: the whole batch call is one recorded entry.
    pub fn synthesize_batch(&mut self, inputs: Vec<TextInput>, options: SynthesisOptions) -> (r:
        Result<Vec<SynthesisResult>, DomainError>)
        requires
            old(self).journal.wf(),
        ensures
            final(self).journal.wf(),
            old(self).journal.spec_is_live() ==> {
                &&& final(self).journal.records@.len() == old(self).journal.records@.len() + 1
                &&& final(self).journal.spec_is_live()
                &&& call_input_view(final(self).journal.records@.last().input) == (
                    1int,
                    inputs_view(inputs@),
                    options_view(options),
                )
                &&& call_outcome_view(final(self).journal.records@.last().outcome) == (
                    1int,
                    None::<Result<crate::durability::ResView, crate::durability::ErrView>>,
                    Some(batch_result_view(r)),
                )
            },
            !old(self).journal.spec_is_live() ==> {
                let rec = old(self).journal.records@[old(self).journal.position as int];
                &&& final(self).journal.records == old(self).journal.records
                &&& final(self).inner == old(self).inner
                &&& if call_input_view(rec.input) == (
                    1int,
                    inputs_view(inputs@),
                    options_view(options),
                ) {
                    match rec.outcome {
                        CallOutcome::SynthesizeBatch(ro) => batch_result_view(r)
                            == batch_result_view(ro),
                        CallOutcome::Synthesize(_) => r is Err && err_view(r->Err_0).0 == 12,
                    }
                } else {
                    r is Err && err_view(r->Err_0).0 == 12
                }
            },
    {
        let call = CallInput::SynthesizeBatch(duplicate_inputs(&inputs), options.duplicate());
        match self.journal.next_action(&call) {
            Ok(CallAction::Execute) => {
                let result = self.inner.synthesize_batch(inputs, options);
                let outcome = CallOutcome::SynthesizeBatch(duplicate_batch(&result));
                self.journal.record(call, outcome);
                result
            },
            Ok(CallAction::Return(out)) => {
                match out {
                    CallOutcome::SynthesizeBatch(res) => res,
                    CallOutcome::Synthesize(_) => Err(
                        internal_error("durable replay mismatch: recorded outcome has wrong shape"),
                    ),
                }
            },
            Err(e) => Err(e),
        }
    }

    /// Lists voices; never recorded.
    pub fn list_voices(&mut self, filter: Option<VoiceFilter>) -> (r: Result<
        Vec<VoiceInfo>,
        DomainError,
    >)
        requires
            old(self).journal.wf(),
        ensures
            final(self).journal == old(self).journal,
    {
        self.inner.list_voices(filter)
    }

    /// Looks a voice up; never recorded.
    pub fn get_voice(&mut self, voice_id: String) -> (r: Result<VoiceInfo, DomainError>)
        requires
            old(self).journal.wf(),
        ensures
            final(self).journal == old(self).journal,
    {
        self.inner.get_voice(voice_id)
    }

    /// Searches voices; never recorded.
    pub fn search_voices(&mut self, query: String, filter: Option<VoiceFilter>) -> (r: Result<
        Vec<VoiceInfo>,
        DomainError,
    >)
        requires
            old(self).journal.wf(),
        ensures
            final(self).journal == old(self).journal,
    {
        self.inner.search_voices(query, filter)
    }

    /// Lists languages; never recorded.
    pub fn list_languages(&mut self) -> (r: Result<Vec<LanguageInfo>, DomainError>)
        requires
            old(self).journal.wf(),
        ensures
            final(self).journal == old(self).journal,
    {
        self.inner.list_languages()
    }

    /// Timing marks; never recorded.
    pub fn get_timing_marks(&mut self, input: TextInput, voice_id: String) -> (r: Result<
        Vec<TimingInfo>,
        DomainError,
    >)
        requires
            old(self).journal.wf(),
        ensures
            final(self).journal == old(self).journal,
    {
        self.inner.get_timing_marks(input, voice_id)
    }

    /// Validation; pure in every provider, never recorded.
    pub fn validate_input(&mut self, input: TextInput, voice_id: String) -> (r: Result<
        ValidationResult,
        DomainError,
    >)
        requires
            old(self).journal.wf(),
        ensures
            final(self).journal == old(self).journal,
    {
        self.inner.validate_input(input, voice_id)
    }

    /// Opens a streaming session; never recorded.
    pub fn create_stream(&mut self, options: SynthesisOptions) -> (r: Result<
        StreamSession,
        DomainError,
    >)
        requires
            old(self).journal.wf(),
        ensures
            final(self).journal == old(self).journal,
    {
        self.inner.create_stream(options)
    }

    /// Sends text into a session; never recorded.
    pub fn stream_send_text(&mut self, session_id: String, input: TextInput) -> (r: Result<
        (),
        DomainError,
    >)
        requires
            old(self).journal.wf(),
        ensures
            final(self).journal == old(self).journal,
    {
        self.inner.stream_send_text(session_id, input)
    }

    /// Finishes a session; never recorded.
    pub fn stream_finish(&mut self, session_id: String) -> (r: Result<(), DomainError>)
        requires
            old(self).journal.wf(),
        ensures
            final(self).journal == old(self).journal,
    {
        self.inner.stream_finish(session_id)
    }

    /// Receives one buffered chunk; never recorded.
    pub fn stream_receive_chunk(&mut self, session_id: String) -> (r: Result<
        Option<Vec<u8>>,
        DomainError,
    >)
        requires
            old(self).journal.wf(),
        ensures
            final(self).journal == old(self).journal,
    {
        self.inner.stream_receive_chunk(session_id)
    }

    /// Whether chunks are pending; never recorded.
    pub fn stream_has_pending(&mut self, session_id: String) -> (r: Result<bool, DomainError>)
        requires
            old(self).journal.wf(),
        ensures
            final(self).journal == old(self).journal,
    {
        self.inner.stream_has_pending(session_id)
    }

    /// A session's status; never recorded.
    pub fn stream_get_status(&mut self, session_id: String) -> (r: Result<
        StreamStatus,
        DomainError,
    >)
        requires
            old(self).journal.wf(),
        ensures
            final(self).journal == old(self).journal,
    {
        self.inner.stream_get_status(session_id)
    }

    /// Closes a session; never recorded.
    pub fn stream_close(&mut self, session_id: String) -> (r: Result<(), DomainError>)
        requires
            old(self).journal.wf(),
        ensures
            final(self).journal == old(self).journal,
    {
        self.inner.stream_close(session_id)
    }
}

/// A copy of a text-input list whose element views are unchanged.
fn duplicate_inputs(inputs: &Vec<TextInput>) -> (d: Vec<TextInput>)
    ensures
        inputs_view(d@) == inputs_view(inputs@),
{
    let mut out: Vec<TextInput> = Vec::new();
    let mut i: usize = 0;
    while i < inputs.len()
        invariant
            i <= inputs@.len(),
            out@.len() == i,
            forall|k: int| 0 <= k < i ==> text_input_view(out@[k]) == text_input_view(inputs@[k]),
        decreases inputs@.len() - i,
    {
        out.push(inputs[i].duplicate());
        i = i + 1;
    }
    proof {
        assert(inputs_view(out@) =~= inputs_view(inputs@));
    }
    out
}

} // verus!
