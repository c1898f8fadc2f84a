//! The record/replay durability journal.
//!
//! A remote synthesis call is not naturally idempotent, so its input and
//! outcome are persisted at a monotonically increasing position within the
//! enclosing durable execution. After a restart, the same call sequence is
//! replayed against the journal: while recorded entries remain, the journal
//! answers from them and the network is never invoked; a diverging input is
//! a fatal replay mismatch; once the recorded prefix is exhausted, execution
//! is live again and every call is persisted.

use vstd::prelude::*;

verus! {

use crate::error::{DomainError, err_view, internal_error};
use crate::types::{TextInput, SynthesisOptions, SynthesisResult, text_input_view, options_view,
    result_view};

/// The view of a domain error: variant index, message, numeric payload.
pub type ErrView = (int, Seq<char>, int);

/// The view of a synthesis result.
pub type ResView = (Seq<u8>, Option<(u64, u32, u32, u32, Seq<char>, Option<Seq<char>>)>);

/// The input of a durable operation, one variant per recorded operation.
pub enum CallInput {
    Synthesize(TextInput, SynthesisOptions),
    SynthesizeBatch(Vec<TextInput>, SynthesisOptions),
}

/// The persisted outcome of a durable operation.
pub enum CallOutcome {
    Synthesize(Result<SynthesisResult, DomainError>),
    SynthesizeBatch(Result<Vec<SynthesisResult>, DomainError>),
}

/// One persisted (input, outcome) pair.
pub struct CallRecord {
    pub input: CallInput,
    pub outcome: CallOutcome,
}

/// The view of a sequence of text inputs.
pub open spec fn inputs_view(s: Seq<TextInput>) -> Seq<(Seq<char>, Option<Seq<char>>,
    crate::types::TextType)> {
    s.map_values(|t: TextInput| text_input_view(t))
}

/// The view of a call input: operation index plus the argument views.
pub open spec fn call_input_view(i: CallInput) -> (
    int,
    Seq<(Seq<char>, Option<Seq<char>>, crate::types::TextType)>,
    (
        Seq<char>,
        Option<crate::types::AudioConfig>,
        Option<crate::types::VoiceSettings>,
        Option<Seq<char>>,
        (Option<bool>, Option<bool>, Option<u32>),
    ),
) {
    match i {
        CallInput::Synthesize(t, o) => (0int, seq![text_input_view(t)], options_view(o)),
        CallInput::SynthesizeBatch(ts, o) => (1int, inputs_view(ts@), options_view(o)),
    }
}

/// The view of a single synthesis outcome.
pub open spec fn synth_result_view(r: Result<SynthesisResult, DomainError>) -> Result<
    ResView,
    ErrView,
> {
    match r {
        Ok(s) => Ok(result_view(s)),
        Err(e) => Err(err_view(e)),
    }
}

/// The view of a batch outcome.
pub open spec fn batch_result_view(r: Result<Vec<SynthesisResult>, DomainError>) -> Result<
    Seq<ResView>,
    ErrView,
> {
    match r {
        Ok(s) => Ok(s@.map_values(|x: SynthesisResult| result_view(x))),
        Err(e) => Err(err_view(e)),
    }
}

/// The view of a persisted outcome: operation index plus the outcome views.
pub open spec fn call_outcome_view(o: CallOutcome) -> (
    int,
    Option<Result<ResView, ErrView>>,
    Option<Result<Seq<ResView>, ErrView>>,
) {
    match o {
        CallOutcome::Synthesize(r) => (0int, Some(synth_result_view(r)), None),
        CallOutcome::SynthesizeBatch(r) => (1int, None, Some(batch_result_view(r))),
    }
}

/// Equality of two text-input sequences, up to views.
fn inputs_match(a: &Vec<TextInput>, b: &Vec<TextInput>) -> (r: bool)
    ensures
        r == (inputs_view(a@) == inputs_view(b@)),
{
    if a.len() != b.len() {
        proof {
            assert(inputs_view(a@).len() != inputs_view(b@).len());
        }
        return false;
    }
    let mut i: usize = 0;
    while i < a.len()
        invariant
            a@.len() == b@.len(),
            i <= a@.len(),
            forall|k: int| 0 <= k < i ==> inputs_view(a@)[k] == inputs_view(b@)[k],
        decreases a@.len() - i,
    {
        if !a[i].matches(&b[i]) {
            proof {
                assert(inputs_view(a@)[i as int] != inputs_view(b@)[i as int]);
            }
            return false;
        }
        i = i + 1;
    }
    proof {
        assert(inputs_view(a@) =~= inputs_view(b@));
    }
    true
}

impl CallInput {
    /// Equality of two call inputs, up to views.
    pub fn matches(&self, other: &CallInput) -> (r: bool)
        ensures
            r == (call_input_view(*self) == call_input_view(*other)),
    {
        match (self, other) {
            (CallInput::Synthesize(t1, o1), CallInput::Synthesize(t2, o2)) => {
                let r = t1.matches(t2) && o1.matches(o2);
                proof {
                    if text_input_view(*t1) == text_input_view(*t2) {
                        assert(seq![text_input_view(*t1)] =~= seq![text_input_view(*t2)]);
                    } else {
                        assert(seq![text_input_view(*t1)][0] != seq![text_input_view(*t2)][0]);
                    }
                }
                r
            },
            (CallInput::SynthesizeBatch(ts1, o1), CallInput::SynthesizeBatch(ts2, o2)) => {
                inputs_match(ts1, ts2) && o1.matches(o2)
            },
            _ => false,
        }
    }
}

/// A copy of a synthesis outcome with the same view.
pub(crate) fn duplicate_synth(r: &Result<SynthesisResult, DomainError>) -> (d: Result<
    SynthesisResult,
    DomainError,
>)
    ensures
        synth_result_view(d) == synth_result_view(*r),
{
    match r {
        Ok(s) => Ok(s.duplicate()),
        Err(e) => Err(e.duplicate()),
    }
}

/// A copy of a batch outcome with the same view.
pub(crate) fn duplicate_batch(r: &Result<Vec<SynthesisResult>, DomainError>) -> (d: Result<
    Vec<SynthesisResult>,
    DomainError,
>)
    ensures
        batch_result_view(d) == batch_result_view(*r),
{
    match r {
        Ok(s) => {
            let mut out: Vec<SynthesisResult> = Vec::new();
            let mut i: usize = 0;
            while i < s.len()
                invariant
                    i <= s@.len(),
                    out@.len() == i,
                    forall|k: int| 0 <= k < i ==> result_view(out@[k]) == result_view(s@[k]),
                decreases s@.len() - i,
            {
                out.push(s[i].duplicate());
                i = i + 1;
            }
            proof {
                assert(out@.map_values(|x: SynthesisResult| result_view(x)) =~= s@.map_values(
                    |x: SynthesisResult| result_view(x),
                ));
            }
            Ok(out)
        },
        Err(e) => Err(e.duplicate()),
    }
}

impl CallOutcome {
    /// A copy of this outcome with the same view.
    pub fn duplicate(&self) -> (d: CallOutcome)
        ensures
            call_outcome_view(d) == call_outcome_view(*self),
    {
        match self {
            CallOutcome::Synthesize(r) => CallOutcome::Synthesize(duplicate_synth(r)),
            CallOutcome::SynthesizeBatch(r) => CallOutcome::SynthesizeBatch(duplicate_batch(r)),
        }
    }
}

/// What the durable wrapper should do for the next call: run the live
/// operation, or return the replayed outcome without any network work.
pub enum CallAction {
    Execute,
    Return(CallOutcome),
}

/// The persisted journal plus the replay cursor. Positions below
/// `records.len()` are replayed; at the end of the journal execution is
/// live.
pub struct DurableJournal {
    pub records: Vec<CallRecord>,
    pub position: usize,
}

impl DurableJournal {
    /// The cursor never passes the end of the journal.
    pub open spec fn wf(self) -> bool {
        self.position <= self.records@.len()
    }

    /// Live means the recorded prefix is exhausted: the next call executes.
    pub open spec fn spec_is_live(self) -> bool {
        self.position >= self.records@.len()
    }

    /// A fresh journal: nothing recorded, execution live from the start.
    pub fn new() -> (r: DurableJournal)
        ensures
            r.records@.len() == 0,
            r.position == 0,
            r.wf(),
            r.spec_is_live(),
    {
        DurableJournal { records: Vec::new(), position: 0 }
    }

    /// A journal recovered from persisted records, replaying from the
    /// beginning.
    pub fn from_records(records: Vec<CallRecord>) -> (r: DurableJournal)
        ensures
            r.records == records,
            r.position == 0,
            r.wf(),
    {
        DurableJournal { records, position: 0 }
    }

    /// Whether the next call executes live.
    pub fn is_live(&self) -> (r: bool)
        ensures
            r == self.spec_is_live(),
    {
        self.position >= self.records.len()
    }

    /// Decides the next call: `Execute` when live; when replaying, the
    /// recorded outcome for a matching input, or a fatal mismatch error for
    /// a diverging one. Only a successful replay advances the cursor.
    pub fn next_action(&mut self, input: &CallInput) -> (r: Result<CallAction, DomainError>)
        requires
            old(self).wf(),
        ensures
            final(self).wf(),
            final(self).records == old(self).records,
            old(self).spec_is_live() ==> r == Ok::<CallAction, DomainError>(CallAction::Execute)
                && *final(self) == *old(self),
            !old(self).spec_is_live() ==> {
                let rec = old(self).records@[old(self).position as int];
                if call_input_view(*input) == call_input_view(rec.input) {
                    &&& final(self).position == old(self).position + 1
                    &&& match r {
                        Ok(CallAction::Return(o)) => call_outcome_view(o) == call_outcome_view(
                            rec.outcome,
                        ),
                        _ => false,
                    }
                } else {
                    &&& final(self).position == old(self).position
                    &&& r is Err
                    &&& err_view(r->Err_0).0 == 12
                }
            },
    {
        if self.position >= self.records.len() {
            return Ok(CallAction::Execute);
        }
        let rec = &self.records[self.position];
        if input.matches(&rec.input) {
            let out = rec.outcome.duplicate();
            self.position = self.position + 1;
            Ok(CallAction::Return(out))
        } else {
            Err(internal_error("durable replay mismatch: call sequence diverged"))
        }
    }

    /// Persists a live call's input and outcome at the tail of the journal.
    pub fn record(&mut self, input: CallInput, outcome: CallOutcome)
        requires
            old(self).wf(),
            old(self).spec_is_live(),
        ensures
            final(self).wf(),
            final(self).spec_is_live(),
            final(self).records@ == old(self).records@.push(
                CallRecord { input: input, outcome: outcome },
            ),
            final(self).position == old(self).position + 1,
    {
        self.records.push(CallRecord { input, outcome });
        self.position = self.records.len();
    }

    /// Replays a whole recorded execution: runs the given call sequence
    /// against this journal from its current cursor. When every input
    /// matches the corresponding record, the recorded outcomes come back
    /// identically (up to views), nothing is executed, and no record is
    /// created; the first diverging input is a fatal mismatch.
    pub fn replay_sequence(&mut self, inputs: &Vec<CallInput>) -> (r: Result<
        Vec<CallOutcome>,
        DomainError,
    >)
        requires
            old(self).wf(),
            old(self).position + inputs@.len() <= old(self).records@.len(),
        ensures
            final(self).wf(),
            final(self).records == old(self).records,
            (forall|k: int|
                0 <= k < inputs@.len() ==> call_input_view(inputs@[k]) == call_input_view(
                    old(self).records@[old(self).position + k].input,
                )) ==> match r {
                Ok(outs) => outs@.len() == inputs@.len() && (forall|k: int|
                    0 <= k < outs@.len() ==> call_outcome_view(outs@[k]) == call_outcome_view(
                        old(self).records@[old(self).position + k].outcome,
                    )) && final(self).position == old(self).position + inputs@.len(),
                Err(_) => false,
            },
    {
        let mut outs: Vec<CallOutcome> = Vec::new();
        let mut i: usize = 0;
        while i < inputs.len()
            invariant
                self.wf(),
                self.records == old(self).records,
                i <= inputs@.len(),
                old(self).position + inputs@.len() <= old(self).records@.len(),
                self.position == old(self).position + i,
                outs@.len() == i,
                (forall|k: int|
                    0 <= k < inputs@.len() ==> call_input_view(inputs@[k]) == call_input_view(
                        old(self).records@[old(self).position + k].input,
                    )) ==> forall|k: int|
                    0 <= k < i ==> call_outcome_view(outs@[k]) == call_outcome_view(
                        old(self).records@[old(self).position + k].outcome,
                    ),
                forall|k: int|
                    0 <= k < i ==> call_input_view(inputs@[k]) == call_input_view(
                        old(self).records@[old(self).position + k].input,
                    ),
            decreases inputs@.len() - i,
        {
            match self.next_action(&inputs[i]) {
                Ok(CallAction::Return(o)) => {
                    outs.push(o);
                },
                Ok(CallAction::Execute) => {
                    return Err(internal_error(
                        "durable replay mismatch: journal ended before the call sequence",
                    ));
                },
                Err(e) => {
                    return Err(e);
                },
            }
            i = i + 1;
        }
        Ok(outs)
    }
}

} // verus!
