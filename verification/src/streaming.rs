//! The streaming session registry and its lifecycle state machine.
//!
//! Sessions are created `Active`, accumulate pending audio chunks in FIFO
//! order, move to `Finished` on an explicit finish (finishing twice is a
//! no-op success), and are removed entirely on close: any operation on a
//! closed or unknown session identifier fails with `SessionNotFound`.
//! The registry owns every session; identifiers are the decimal form of a
//! monotonically increasing counter, so a fresh session never collides
//! with a live one.

use vstd::prelude::*;

verus! {

use vstd::string::StringExecFns;
use crate::error::DomainError;
use crate::text::{spec_dec_u64, u64_to_string, str_eq, lemma_dec_roundtrip};
use crate::types::{SynthesisOptions, StreamSession, StreamStatus};

/// A session's lifecycle phase.
#[derive(Debug, Clone, PartialEq, Eq)]
pub enum StreamPhase {
    Connecting,
    Active,
    Finished,
    Error(String),
}

/// One live session's state.
pub struct StreamSessionData {
    pub session_id: String,
    pub seq: u64,
    pub model: String,
    pub encoding: String,
    pub sample_rate: u32,
    pub phase: StreamPhase,
    pub pending_chunks: Vec<Vec<u8>>,
}

/// The registry of live sessions. All access goes through one owner; no
/// two sessions share state.
pub struct StreamManager {
    pub sessions: Vec<StreamSessionData>,
    pub next_seq: u64,
    pub api_key: String,
}

/// The index of the first session with the given identifier, scanning
/// from `i`.
pub open spec fn spec_find_from(s: Seq<StreamSessionData>, sid: Seq<char>, i: int) -> Option<int>
    decreases s.len() - i,
{
    if i < 0 || i >= s.len() {
        None
    } else if s[i].session_id@ == sid {
        Some(i)
    } else {
        spec_find_from(s, sid, i + 1)
    }
}

/// The index of the session with the given identifier, if any.
pub open spec fn spec_find(s: Seq<StreamSessionData>, sid: Seq<char>) -> Option<int> {
    spec_find_from(s, sid, 0)
}

/// Distinct counter values have distinct decimal identifiers.
pub proof fn lemma_dec_injective(a: nat, b: nat)
    requires
        spec_dec_u64(a) == spec_dec_u64(b),
    ensures
        a == b,
{
    lemma_dec_roundtrip(a);
    lemma_dec_roundtrip(b);
}

/// The two sessions agree on everything but phase and buffered chunks.
pub open spec fn same_identity(a: StreamSessionData, b: StreamSessionData) -> bool {
    a.session_id == b.session_id && a.seq == b.seq && a.model == b.model && a.encoding == b.encoding
        && a.sample_rate == b.sample_rate
}

/// The registries agree everywhere but possibly at index `i`.
pub open spec fn others_unchanged(a: Seq<StreamSessionData>, b: Seq<StreamSessionData>, i: int) -> bool {
    a.len() == b.len() && forall|k: int| 0 <= k < a.len() && k != i ==> a[k] == b[k]
}

/// What a successful `create_stream` leaves behind and hands back.
pub open spec fn create_post(
    pre: StreamManager,
    post: StreamManager,
    options: SynthesisOptions,
    r: Result<StreamSession, DomainError>,
) -> bool {
    let session = r->Ok_0;
    &&& r is Ok
    &&& session.session_id@ == spec_dec_u64(pre.next_seq as nat)
    &&& session.model@ == options.voice_id@
    &&& session.encoding@ == "linear16"@
    &&& session.sample_rate == spec_requested_rate(options)
    &&& spec_find(pre.sessions@, session.session_id@) is None
    &&& post.sessions@.len() == pre.sessions@.len() + 1
    &&& post.sessions@.subrange(0, pre.sessions@.len() as int) == pre.sessions@
    &&& post.sessions@.last().session_id@ == session.session_id@
    &&& post.sessions@.last().phase == StreamPhase::Active
    &&& post.sessions@.last().pending_chunks@.len() == 0
    &&& post.next_seq == pre.next_seq + 1
}

/// The sample rate a session is created with: the requested one, or 24000.
pub open spec fn spec_requested_rate(options: SynthesisOptions) -> u32 {
    match options.audio_config {
        Some(c) => match c.sample_rate {
            Some(sr) => sr,
            None => 24000u32,
        },
        None => 24000u32,
    }
}

/// What `send_text` does: nothing changes; an active session accepts, a
/// finished or failed one rejects, an unknown identifier is not found.
pub open spec fn send_text_post(
    pre: StreamManager,
    post: StreamManager,
    sid: Seq<char>,
    r: Result<(), DomainError>,
) -> bool {
    &&& post == pre
    &&& match spec_find(pre.sessions@, sid) {
        Some(i) => if pre.sessions@[i].phase == StreamPhase::Active {
            r is Ok
        } else {
            r is Err && r->Err_0 is InvalidInput
        },
        None => r is Err && r->Err_0 is SessionNotFound,
    }
}

/// What `push_chunk` does: the chunk lands at the tail of the session's
/// FIFO buffer; nothing else changes.
pub open spec fn push_chunk_post(
    pre: StreamManager,
    post: StreamManager,
    sid: Seq<char>,
    chunk: Seq<u8>,
    r: Result<(), DomainError>,
) -> bool {
    match spec_find(pre.sessions@, sid) {
        Some(i) => {
            &&& r is Ok
            &&& others_unchanged(pre.sessions@, post.sessions@, i)
            &&& same_identity(pre.sessions@[i], post.sessions@[i])
            &&& post.sessions@[i].phase == pre.sessions@[i].phase
            &&& post.sessions@[i].pending_chunks@.len() == pre.sessions@[i].pending_chunks@.len() + 1
            &&& post.sessions@[i].pending_chunks@.last()@ == chunk
            &&& post.sessions@[i].pending_chunks@.subrange(
                0,
                pre.sessions@[i].pending_chunks@.len() as int,
            ) == pre.sessions@[i].pending_chunks@
            &&& post.next_seq == pre.next_seq
        },
        None => r is Err && r->Err_0 is SessionNotFound && post == pre,
    }
}

/// What `finish` does: an active or connecting session becomes finished,
/// a finished one stays finished (no-op success), a failed one keeps its
/// error; unknown identifiers are not found.
pub open spec fn finish_post(
    pre: StreamManager,
    post: StreamManager,
    sid: Seq<char>,
    r: Result<(), DomainError>,
) -> bool {
    match spec_find(pre.sessions@, sid) {
        Some(i) => {
            &&& r is Ok
            &&& others_unchanged(pre.sessions@, post.sessions@, i)
            &&& same_identity(pre.sessions@[i], post.sessions@[i])
            &&& post.sessions@[i].pending_chunks == pre.sessions@[i].pending_chunks
            &&& post.sessions@[i].phase == (if pre.sessions@[i].phase is Error {
                pre.sessions@[i].phase
            } else {
                StreamPhase::Finished
            })
            &&& post.next_seq == pre.next_seq
        },
        None => r is Err && r->Err_0 is SessionNotFound && post == pre,
    }
}

/// What `receive_chunk` does: the oldest chunk comes out and leaves the
/// buffer; an empty buffer yields `None`; nothing else changes.
pub open spec fn receive_post(
    pre: StreamManager,
    post: StreamManager,
    sid: Seq<char>,
    r: Result<Option<Vec<u8>>, DomainError>,
) -> bool {
    match spec_find(pre.sessions@, sid) {
        Some(i) => {
            &&& others_unchanged(pre.sessions@, post.sessions@, i)
            &&& same_identity(pre.sessions@[i], post.sessions@[i])
            &&& post.sessions@[i].phase == pre.sessions@[i].phase
            &&& post.next_seq == pre.next_seq
            &&& if pre.sessions@[i].pending_chunks@.len() == 0 {
                r == Ok::<Option<Vec<u8>>, DomainError>(None) && post.sessions@[i].pending_chunks
                    == pre.sessions@[i].pending_chunks
            } else {
                match r {
                    Ok(Some(c)) => c@ == pre.sessions@[i].pending_chunks@[0]@
                        && post.sessions@[i].pending_chunks@
                        == pre.sessions@[i].pending_chunks@.drop_first(),
                    _ => false,
                }
            }
        },
        None => r is Err && r->Err_0 is SessionNotFound && post == pre,
    }
}

/// What `close` does: the session's state is removed entirely.
pub open spec fn close_post(
    pre: StreamManager,
    post: StreamManager,
    sid: Seq<char>,
    r: Result<(), DomainError>,
) -> bool {
    match spec_find(pre.sessions@, sid) {
        Some(i) => {
            &&& r is Ok
            &&& post.sessions@ == pre.sessions@.subrange(0, i) + pre.sessions@.subrange(
                i + 1,
                pre.sessions@.len() as int,
            )
            &&& post.next_seq == pre.next_seq
        },
        None => r is Err && r->Err_0 is SessionNotFound && post == pre,
    }
}

/// What `get_status` reports for a live session.
pub open spec fn status_post(
    pre: StreamManager,
    sid: Seq<char>,
    r: Result<StreamStatus, DomainError>,
) -> bool {
    match spec_find(pre.sessions@, sid) {
        Some(i) => {
            let phase = pre.sessions@[i].phase;
            match r {
                Ok(st) => {
                    &&& st.status@ == spec_phase_name(phase)
                    &&& st.is_active == (phase is Active)
                    &&& st.has_pending_chunks == (pre.sessions@[i].pending_chunks@.len() > 0)
                    &&& match phase {
                        StreamPhase::Error(m) => st.error matches Some(e) && e@ == m@,
                        _ => st.error is None,
                    }
                },
                Err(_) => false,
            }
        },
        None => r is Err && r->Err_0 is SessionNotFound,
    }
}

/// The reported name of each phase.
pub open spec fn spec_phase_name(phase: StreamPhase) -> Seq<char> {
    match phase {
        StreamPhase::Connecting => "connecting"@,
        StreamPhase::Active => "active"@,
        StreamPhase::Finished => "finished"@,
        StreamPhase::Error(_) => "error"@,
    }
}

impl StreamManager {
    /// Every session identifier is the decimal form of its counter value,
    /// and every counter value is below the next one to be assigned.
    pub open spec fn wf(self) -> bool {
        forall|i: int|
            0 <= i < self.sessions@.len() ==> (#[trigger] self.sessions@[i]).session_id@
                == spec_dec_u64(self.sessions@[i].seq as nat) && self.sessions@[i].seq
                < self.next_seq
    }

    /// An empty registry.
    pub fn new(api_key: String) -> (r: StreamManager)
        ensures
            r.wf(),
            r.sessions@.len() == 0,
            r.next_seq == 0,
    {
        StreamManager { sessions: Vec::new(), next_seq: 0, api_key }
    }

    /// The index of the session with this identifier, if one is live.
    fn find(&self, session_id: &str) -> (r: Option<usize>)
        ensures
            match r {
                Some(i) => spec_find(self.sessions@, session_id@) == Some(i as int),
                None => spec_find(self.sessions@, session_id@) is None,
            },
    {
        let mut i: usize = 0;
        while i < self.sessions.len()
            invariant
                i <= self.sessions@.len(),
                spec_find(self.sessions@, session_id@) == spec_find_from(
                    self.sessions@,
                    session_id@,
                    i as int,
                ),
            decreases self.sessions@.len() - i,
        {
            if str_eq(self.sessions[i].session_id.as_str(), session_id) {
                return Some(i);
            }
            i = i + 1;
        }
        None
    }

    /// Opens a new session: always succeeds while the counter has room.
    /// The returned handle carries a fresh identifier (held by no other
    /// live session), the option's voice as the model, linear16 encoding,
    /// and the requested or default sample rate; the session starts
    /// `Active` with no pending chunks.
    pub fn create_stream(&mut self, options: &SynthesisOptions) -> (r: Result<
        StreamSession,
        DomainError,
    >)
        requires
            old(self).wf(),
            old(self).next_seq < u64::MAX,
        ensures
            final(self).wf(),
            create_post(*old(self), *final(self), *options, r),
    {
        let seq = self.next_seq;
        let session_id = u64_to_string(seq);
        proof {
            let ghost ss = self.sessions@;
            assert forall|i: int| 0 <= i < ss.len() implies (#[trigger] ss[i]).session_id@
                != session_id@ by {
                if ss[i].session_id@ == session_id@ {
                    lemma_dec_injective(ss[i].seq as nat, seq as nat);
                }
            }
            lemma_absent_not_found(self.sessions@, session_id@, 0);
        }
        let sample_rate: u32 = match &options.audio_config {
            Some(c) => match c.sample_rate {
                Some(sr) => sr,
                None => 24000,
            },
            None => 24000,
        };
        let model = options.voice_id.clone();
        let data = StreamSessionData {
            session_id: session_id.clone(),
            seq,
            model: model.clone(),
            encoding: encoding_linear16(),
            sample_rate,
            phase: StreamPhase::Active,
            pending_chunks: Vec::new(),
        };
        self.sessions.push(data);
        self.next_seq = seq + 1;
        proof {
            assert(self.sessions@.subrange(0, old(self).sessions@.len() as int) =~= old(
                self,
            ).sessions@);
        }
        Ok(StreamSession { session_id, model, encoding: encoding_linear16(), sample_rate })
    }

    /// Accepts text for an active session. Unknown identifiers fail with
    /// `SessionNotFound`; a session past `Active` rejects further text.
    pub fn send_text(&mut self, session_id: &str) -> (r: Result<(), DomainError>)
        requires
            old(self).wf(),
        ensures
            final(self).wf(),
            send_text_post(*old(self), *final(self), session_id@, r),
    {
        match self.find(session_id) {
            Some(i) => {
                proof {
                    lemma_find_in_range(self.sessions@, session_id@, 0);
                }
                let active = match &self.sessions[i].phase {
                    StreamPhase::Active => true,
                    _ => false,
                };
                if active {
                    Ok(())
                } else {
                    Err(DomainError::InvalidInput(not_active_message()))
                }
            },
            None => Err(DomainError::SessionNotFound(session_id.to_owned())),
        }
    }

    /// Deposits one audio chunk at the tail of a session's FIFO buffer,
    /// as the transport layer hands audio back.
    pub fn push_chunk(&mut self, session_id: &str, chunk: Vec<u8>) -> (r: Result<(), DomainError>)
        requires
            old(self).wf(),
        ensures
            final(self).wf(),
            push_chunk_post(*old(self), *final(self), session_id@, chunk@, r),
    {
        let ghost chunk_view = chunk@;
        match self.find(session_id) {
            Some(i) => {
                proof {
                    lemma_find_in_range(self.sessions@, session_id@, 0);
                }
                let session = &mut self.sessions[i];
                session.pending_chunks.push(chunk);
                proof {
                    assert(self.sessions@[i as int].pending_chunks@.subrange(
                        0,
                        old(self).sessions@[i as int].pending_chunks@.len() as int,
                    ) =~= old(self).sessions@[i as int].pending_chunks@);
                }
                Ok(())
            },
            None => Err(DomainError::SessionNotFound(session_id.to_owned())),
        }
    }

    /// Finishes a session: an active (or connecting) session becomes
    /// `Finished`; finishing an already finished session is a no-op
    /// success; a failed session keeps its error. Unknown identifiers fail
    /// with `SessionNotFound`.
    pub fn finish(&mut self, session_id: &str) -> (r: Result<(), DomainError>)
        requires
            old(self).wf(),
        ensures
            final(self).wf(),
            finish_post(*old(self), *final(self), session_id@, r),
    {
        match self.find(session_id) {
            Some(i) => {
                proof {
                    lemma_find_in_range(self.sessions@, session_id@, 0);
                }
                let errored = match &self.sessions[i].phase {
                    StreamPhase::Error(_) => true,
                    _ => false,
                };
                if !errored {
                    let session = &mut self.sessions[i];
                    session.phase = StreamPhase::Finished;
                }
                Ok(())
            },
            None => Err(DomainError::SessionNotFound(session_id.to_owned())),
        }
    }

    /// Takes the oldest pending chunk, if any: chunks come out in the
    /// order they were deposited. Unknown identifiers fail with
    /// `SessionNotFound`.
    pub fn receive_chunk(&mut self, session_id: &str) -> (r: Result<Option<Vec<u8>>, DomainError>)
        requires
            old(self).wf(),
        ensures
            final(self).wf(),
            receive_post(*old(self), *final(self), session_id@, r),
    {
        match self.find(session_id) {
            Some(i) => {
                proof {
                    lemma_find_in_range(self.sessions@, session_id@, 0);
                }
                if self.sessions[i].pending_chunks.len() == 0 {
                    Ok(None)
                } else {
                    let session = &mut self.sessions[i];
                    let chunk = session.pending_chunks.remove(0);
                    proof {
                        assert(self.sessions@[i as int].pending_chunks@ =~= old(
                            self,
                        ).sessions@[i as int].pending_chunks@.drop_first());
                    }
                    Ok(Some(chunk))
                }
            },
            None => Err(DomainError::SessionNotFound(session_id.to_owned())),
        }
    }

    /// Whether a session still holds undelivered chunks. Unknown
    /// identifiers fail with `SessionNotFound`.
    pub fn has_pending(&self, session_id: &str) -> (r: Result<bool, DomainError>)
        ensures
            match spec_find(self.sessions@, session_id@) {
                Some(i) => r == Ok::<bool, DomainError>(
                    self.sessions@[i].pending_chunks@.len() > 0,
                ),
                None => r is Err && r->Err_0 is SessionNotFound,
            },
    {
        match self.find(session_id) {
            Some(i) => {
                proof {
                    lemma_find_in_range(self.sessions@, session_id@, 0);
                }
                Ok(self.sessions[i].pending_chunks.len() > 0)
            },
            None => Err(DomainError::SessionNotFound(session_id.to_owned())),
        }
    }

    /// A session's status snapshot: the phase's name, whether it is
    /// active, whether chunks are pending, and the error message if it
    /// failed. Unknown identifiers fail with `SessionNotFound`.
    pub fn get_status(&self, session_id: &str) -> (r: Result<StreamStatus, DomainError>)
        ensures
            status_post(*self, session_id@, r),
    {
        proof {
            reveal_strlit("connecting");
            reveal_strlit("active");
            reveal_strlit("finished");
            reveal_strlit("error");
        }
        match self.find(session_id) {
            Some(i) => {
                proof {
                    lemma_find_in_range(self.sessions@, session_id@, 0);
                }
                let session = &self.sessions[i];
                let status: String = match &session.phase {
                    StreamPhase::Connecting => String::from_str("connecting"),
                    StreamPhase::Active => String::from_str("active"),
                    StreamPhase::Finished => String::from_str("finished"),
                    StreamPhase::Error(_) => String::from_str("error"),
                };
                let is_active = match &session.phase {
                    StreamPhase::Active => true,
                    _ => false,
                };
                let error = match &session.phase {
                    StreamPhase::Error(m) => Some(m.clone()),
                    _ => None,
                };
                Ok(
                    StreamStatus {
                        status,
                        is_active,
                        has_pending_chunks: session.pending_chunks.len() > 0,
                        error,
                    },
                )
            },
            None => Err(DomainError::SessionNotFound(session_id.to_owned())),
        }
    }

    /// Closes a session: terminal from any phase, removing its state
    /// entirely, so that every further operation on the identifier fails
    /// with `SessionNotFound`.
    pub fn close(&mut self, session_id: &str) -> (r: Result<(), DomainError>)
        requires
            old(self).wf(),
        ensures
            final(self).wf(),
            close_post(*old(self), *final(self), session_id@, r),
    {
        match self.find(session_id) {
            Some(i) => {
                proof {
                    lemma_find_in_range(self.sessions@, session_id@, 0);
                }
                self.sessions.remove(i);
                proof {
                    assert(self.sessions@ =~= old(self).sessions@.subrange(0, i as int) + old(
                        self,
                    ).sessions@.subrange(i + 1, old(self).sessions@.len() as int));
                }
                Ok(())
            },
            None => Err(DomainError::SessionNotFound(session_id.to_owned())),
        }
    }
}

/// A found index lies inside the session list and names that identifier.
proof fn lemma_find_in_range(s: Seq<StreamSessionData>, sid: Seq<char>, i: int)
    requires
        spec_find_from(s, sid, i) is Some,
        0 <= i <= s.len(),
    ensures
        i <= spec_find_from(s, sid, i)->0 < s.len(),
        s[spec_find_from(s, sid, i)->0].session_id@ == sid,
    decreases s.len() - i,
{
    if i < s.len() && s[i].session_id@ != sid {
        lemma_find_in_range(s, sid, i + 1);
    }
}

/// An identifier that no session carries is not found.
proof fn lemma_absent_not_found(s: Seq<StreamSessionData>, sid: Seq<char>, i: int)
    requires
        0 <= i <= s.len(),
        forall|k: int| 0 <= k < s.len() ==> (#[trigger] s[k]).session_id@ != sid,
    ensures
        spec_find_from(s, sid, i) is None,
    decreases s.len() - i,
{
    if i < s.len() {
        lemma_absent_not_found(s, sid, i + 1);
    }
}

/// The streaming encoding every session uses.
fn encoding_linear16() -> (r: String)
    ensures
        r@ == "linear16"@,
{
    String::from_str("linear16")
}

/// The message sent back when text arrives for a session that is no
/// longer active.
fn not_active_message() -> (r: String) {
    String::from_str("session is not active")
}

} // verus!
