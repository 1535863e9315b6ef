//! What the server keeps between requests: the approvals that wait for an
//! answer and the streams that are open.

use crate::strmap::StrMap;
use vstd::prelude::*;

verus! {

/// What is waiting to be approved.
pub enum ApprovalType {
    CommandExecution { command: Vec<String>, cwd: String, reason: String },
    FileChange { reason: String },
}

impl ApprovalType {
    /// The two values say the same: the same kind, with the same texts.
    pub open spec fn same_as(self, other: Self) -> bool {
        match (self, other) {
            (
                ApprovalType::CommandExecution { command, cwd, reason },
                ApprovalType::CommandExecution { command: command2, cwd: cwd2, reason: reason2 },
            ) => command@ == command2@ && cwd == cwd2 && reason == reason2,
            (ApprovalType::FileChange { reason }, ApprovalType::FileChange { reason: reason2 }) => {
                reason == reason2
            },
            _ => false,
        }
    }

    /// A copy of the value.
    pub fn duplicate(&self) -> (r: Self)
        ensures
            r.same_as(*self),
    {
        match self {
            ApprovalType::CommandExecution { command, cwd, reason } => {
                let copy = crate::text::clone_words(command);
                ApprovalType::CommandExecution {
                    command: copy,
                    cwd: cwd.clone(),
                    reason: reason.clone(),
                }
            },
            ApprovalType::FileChange { reason } => ApprovalType::FileChange {
                reason: reason.clone(),
            },
        }
    }
}

/// The user's answer to a request for approval.
#[derive(PartialEq, Eq, Structural, Clone, Copy, Debug)]
pub enum ApprovalDecision {
    /// Approved, this once.
    Approved,
    /// Approved, and the same thing need not be asked again in this session.
    ApprovedForSession,
    /// Not approved.
    Denied,
    /// Not approved, and the turn is given up.
    Abort,
}

impl ApprovalDecision {
    pub open spec fn spec_is_approval(self) -> bool {
        self is Approved || self is ApprovedForSession
    }

    /// Whether the decision lets the command run.
    pub fn is_approval(&self) -> (r: bool)
        ensures
            r == self.spec_is_approval(),
    {
        match self {
            ApprovalDecision::Approved => true,
            ApprovalDecision::ApprovedForSession => true,
            _ => false,
        }
    }

    /// The decision that the two answers of the approval endpoint stand for.
    pub fn from_answer(approve: bool) -> (r: Self)
        ensures
            r == if approve {
                ApprovalDecision::Approved
            } else {
                ApprovalDecision::Denied
            },
    {
        if approve {
            ApprovalDecision::Approved
        } else {
            ApprovalDecision::Denied
        }
    }
}

#[derive(PartialEq, Eq, Structural, Clone, Copy, Debug)]
pub struct ApprovalResponse {
    pub decision: ApprovalDecision,
}

/// What a waiter acts on once its reply channel has resolved: the decision
/// that was sent, or `Denied` when the channel was closed without one.
pub fn decision_or_denied(reply: Option<ApprovalResponse>) -> (r: ApprovalDecision)
    ensures
        r == match reply {
            Some(response) => response.decision,
            None => ApprovalDecision::Denied,
        },
{
    match reply {
        Some(response) => response.decision,
        None => ApprovalDecision::Denied,
    }
}

/// What identifies the thing being approved: the tool, and the command line
/// or the paths it is about.
pub struct CacheKey {
    pub tool_name: String,
    pub key: Vec<String>,
}

/// One approval that waits for its answer. Times are milliseconds on the
/// caller's monotonic clock.
pub struct ApprovalContext {
    pub thread_id: String,
    pub item_id: String,
    pub approval_type: ApprovalType,
    /// The number under which the caller keeps the one-shot reply channel.
    pub response_channel: u64,
    /// The channels of the requests that were joined to this one.
    pub joined: Vec<u64>,
    /// Set when an answer `ApprovedForSession` is to be remembered.
    pub cache_key: Option<CacheKey>,
    pub created_at: u64,
    pub timeout: u64,
}

/// The time that has passed at `now` since `created_at`; none if the clock
/// reads less than it did then.
pub open spec fn spec_elapsed(now: u64, created_at: u64) -> u64 {
    if now >= created_at {
        (now - created_at) as u64
    } else {
        0
    }
}

pub fn elapsed(now: u64, created_at: u64) -> (r: u64)
    ensures
        r == spec_elapsed(now, created_at),
{
    if now >= created_at {
        now - created_at
    } else {
        0
    }
}

impl ApprovalContext {
    /// The approval has waited for its whole timeout.
    pub open spec fn spec_expired(&self, now: u64) -> bool {
        spec_elapsed(now, self.created_at) >= self.timeout
    }

    pub fn expired(&self, now: u64) -> (r: bool)
        ensures
            r == self.spec_expired(now),
    {
        elapsed(now, self.created_at) >= self.timeout
    }
}

/// How many event streams are open on each thread. A thread without a stream
/// has no entry.
pub struct SessionStore {
    active_streams: StrMap<usize>,
}

impl SessionStore {
    /// The streams open on `thread_id`.
    pub closed spec fn streams(&self, thread_id: Seq<char>) -> nat {
        if self.active_streams.contains_key(thread_id) {
            self.active_streams.value_of(thread_id) as nat
        } else {
            0
        }
    }

    /// Whether the store has an entry for `thread_id`.
    pub closed spec fn tracks(&self, thread_id: Seq<char>) -> bool {
        self.active_streams.contains_key(thread_id)
    }

    /// Every entry counts at least one stream.
    #[verifier::type_invariant]
    pub closed spec fn wf(&self) -> bool {
        &&& self.active_streams.wf()
        &&& forall|k: Seq<char>| #[trigger]
            self.active_streams.contains_key(k) ==> self.active_streams.value_of(k) >= 1
    }

    pub fn new() -> (s: Self)
        ensures
            forall|t: Seq<char>| !s.tracks(t) && s.streams(t) == 0,
    {
        SessionStore { active_streams: StrMap::new() }
    }

    /// The number of streams open on `thread_id`.
    pub fn stream_count(&self, thread_id: &str) -> (n: usize)
        ensures
            n == self.streams(thread_id@),
    {
        match self.active_streams.get(thread_id) {
            Some(n) => *n,
            None => 0,
        }
    }

    /// One more stream is open on `thread_id`. The count stops at the largest
    /// number the machine holds.
    pub fn register_stream(&mut self, thread_id: String)
        ensures
            final(self).tracks(thread_id@),
            final(self).streams(thread_id@) == if old(self).streams(thread_id@) < usize::MAX {
                old(self).streams(thread_id@) + 1
            } else {
                old(self).streams(thread_id@)
            },
            forall|t: Seq<char>|
                t != thread_id@ ==> final(self).tracks(t) == old(self).tracks(t)
                    && final(self).streams(t) == old(self).streams(t),
    {
        proof {
            use_type_invariant(&*self);
        }
        let mut active_streams = StrMap::new();
        std::mem::swap(&mut active_streams, &mut self.active_streams);
        let ghost before = active_streams;
        let count = match active_streams.get(thread_id.as_str()) {
            Some(n) => *n,
            None => 0,
        };
        let next = if count < usize::MAX {
            count + 1
        } else {
            count
        };
        let _ = active_streams.insert(thread_id, next);
        proof {
            assert forall|k: Seq<char>| #[trigger]
                active_streams.contains_key(k) implies active_streams.value_of(k) >= 1 by {
                assert(active_streams.as_map().dom().contains(k));
                if k != thread_id@ {
                    assert(before.as_map().dom().contains(k));
                    assert(before.contains_key(k));
                    assert(active_streams.as_map()[k] == before.as_map()[k]);
                } else {
                    assert(active_streams.as_map()[k] == next);
                }
            }
            assert forall|t: Seq<char>| t != thread_id@ implies active_streams.contains_key(t)
                == before.contains_key(t) && (active_streams.contains_key(t)
                ==> active_streams.value_of(t) == before.value_of(t)) by {
                assert(active_streams.as_map().dom().contains(t) == before.as_map().dom().contains(
                    t,
                ));
                if active_streams.contains_key(t) {
                    assert(active_streams.as_map()[t] == before.as_map()[t]);
                }
            }
            assert(active_streams.as_map().dom().contains(thread_id@));
            assert(active_streams.as_map()[thread_id@] == next);
        }
        self.active_streams = active_streams;
    }

    /// One stream on `thread_id` was closed. The entry goes when its last
    /// stream does; a thread without an entry is left alone.
    pub fn unregister_stream(&mut self, thread_id: &str)
        ensures
            final(self).streams(thread_id@) == if old(self).streams(thread_id@) > 0 {
                (old(self).streams(thread_id@) - 1) as nat
            } else {
                0
            },
            final(self).tracks(thread_id@) == (old(self).streams(thread_id@) > 1),
            forall|t: Seq<char>|
                t != thread_id@ ==> final(self).tracks(t) == old(self).tracks(t)
                    && final(self).streams(t) == old(self).streams(t),
    {
        proof {
            use_type_invariant(&*self);
        }
        let count = match self.active_streams.get(thread_id) {
            Some(n) => *n,
            None => {
                return ;
            },
        };
        let mut active_streams = StrMap::new();
        std::mem::swap(&mut active_streams, &mut self.active_streams);
        let ghost before = active_streams;
        assert(before.as_map().dom().contains(thread_id@));
        if count <= 1 {
            let _ = active_streams.remove(thread_id);
        } else {
            let _ = active_streams.insert(thread_id.to_string(), count - 1);
        }
        proof {
            assert forall|k: Seq<char>| #[trigger]
                active_streams.contains_key(k) implies active_streams.value_of(k) >= 1 by {
                assert(active_streams.as_map().dom().contains(k));
                if k != thread_id@ {
                    assert(before.as_map().dom().contains(k));
                    assert(before.contains_key(k));
                    assert(active_streams.as_map()[k] == before.as_map()[k]);
                } else {
                    assert(active_streams.as_map()[k] == count - 1);
                }
            }
            assert forall|t: Seq<char>| t != thread_id@ implies active_streams.contains_key(t)
                == before.contains_key(t) && (active_streams.contains_key(t)
                ==> active_streams.value_of(t) == before.value_of(t)) by {
                assert(active_streams.as_map().dom().contains(t) == before.as_map().dom().contains(
                    t,
                ));
                if active_streams.contains_key(t) {
                    assert(active_streams.as_map()[t] == before.as_map()[t]);
                }
            }
            assert(active_streams.as_map().dom().contains(thread_id@) == (count > 1));
            if count > 1 {
                assert(active_streams.as_map()[thread_id@] == count - 1);
            }
        }
        self.active_streams = active_streams;
    }
}

} // verus!
