//! The approval gate: the approvals that wait for the user, and the answers
//! that are remembered for the session.
//!
//! The caller owns the reply channels and the clock. A context holds the
//! number of its channel; `now` is a reading of the caller's monotonic clock
//! in milliseconds.

use crate::state::ApprovalContext;
use crate::state::ApprovalDecision;
use crate::state::ApprovalResponse;
use crate::state::ApprovalType;
use crate::state::CacheKey;
use crate::state::elapsed;
use crate::state::spec_elapsed;
use crate::strmap::StrMap;
use crate::text::words;
use crate::text::words_eq;
use vstd::prelude::*;

verus! {

/// The timeout of an interactive approval, in milliseconds.
pub const DEFAULT_APPROVAL_TIMEOUT_MS: u64 = 900000;

/// The name under which approvals of commands are remembered.
pub const EXEC_TOOL_NAME: &'static str = "exec";

/// The name under which approvals of patches are remembered.
pub const PATCH_TOOL_NAME: &'static str = "apply_patch";

/// One remembered answer.
pub struct CacheEntry {
    pub tool_name: String,
    pub key: Vec<String>,
    pub decision: ApprovalDecision,
}

/// The answers remembered for the session, oldest first. An answer, once
/// remembered, is never changed or forgotten.
pub struct ApprovalCache {
    entries: Vec<CacheEntry>,
}

/// The answer that `entries` holds for `tool_name` and `key`: that of the
/// oldest entry for them.
pub open spec fn lookup_in(entries: Seq<CacheEntry>, tool_name: Seq<char>, key: Seq<Seq<char>>) -> Option<
    ApprovalDecision,
>
    decreases entries.len(),
{
    if entries.len() == 0 {
        None
    } else {
        match lookup_in(entries.drop_last(), tool_name, key) {
            Some(d) => Some(d),
            None => if entries.last().tool_name@ == tool_name && words(entries.last().key@) == key {
                Some(entries.last().decision)
            } else {
                None
            },
        }
    }
}

/// Every answer of `before` is an answer of `after`.
pub open spec fn cache_extends(before: Seq<CacheEntry>, after: Seq<CacheEntry>) -> bool {
    forall|tool_name: Seq<char>, key: Seq<Seq<char>>|
        (#[trigger] lookup_in(before, tool_name, key)) is Some ==> lookup_in(after, tool_name, key)
            == lookup_in(before, tool_name, key)
}

/// An answer found in the first entries is the answer of the whole list.
pub proof fn lemma_lookup_prefix(
    entries: Seq<CacheEntry>,
    n: int,
    tool_name: Seq<char>,
    key: Seq<Seq<char>>,
)
    requires
        0 <= n <= entries.len(),
        lookup_in(entries.take(n), tool_name, key) is Some,
    ensures
        lookup_in(entries, tool_name, key) == lookup_in(entries.take(n), tool_name, key),
    decreases entries.len() - n,
{
    if n < entries.len() {
        assert(entries.take(n + 1).drop_last() =~= entries.take(n));
        lemma_lookup_prefix(entries, n + 1, tool_name, key);
    } else {
        assert(entries.take(n) =~= entries);
    }
}

/// Remembering one more answer changes none of those remembered before.
pub proof fn lemma_cache_is_monotonic(entries: Seq<CacheEntry>, entry: CacheEntry)
    ensures
        cache_extends(entries, entries.push(entry)),
{
    assert(entries.push(entry).drop_last() =~= entries);
}

/// `cache_extends` is transitive, and holds of a cache and itself.
pub proof fn lemma_cache_extends_chain(a: Seq<CacheEntry>, b: Seq<CacheEntry>, c: Seq<CacheEntry>)
    requires
        cache_extends(a, b),
        cache_extends(b, c),
    ensures
        cache_extends(a, c),
        cache_extends(a, a),
{
    assert forall|tool_name: Seq<char>, key: Seq<Seq<char>>|
        (#[trigger] lookup_in(a, tool_name, key)) is Some implies lookup_in(c, tool_name, key)
        == lookup_in(a, tool_name, key) by {
        assert(lookup_in(b, tool_name, key) is Some);
    }
}

impl ApprovalCache {
    /// The remembered answers, oldest first.
    pub closed spec fn entries(&self) -> Seq<CacheEntry> {
        self.entries@
    }

    pub fn new() -> (c: Self)
        ensures
            c.entries() == Seq::<CacheEntry>::empty(),
    {
        ApprovalCache { entries: Vec::new() }
    }

    /// The number of remembered answers.
    pub fn len(&self) -> (n: usize)
        ensures
            n == self.entries().len(),
    {
        self.entries.len()
    }

    /// The answer remembered for `tool_name` and `key`, if there is one.
    pub fn lookup(&self, tool_name: &str, key: &Vec<String>) -> (r: Option<ApprovalDecision>)
        ensures
            r == lookup_in(self.entries(), tool_name@, words(key@)),
    {
        let mut i: usize = 0;
        while i < self.entries.len()
            invariant
                i <= self.entries.len(),
                lookup_in(self.entries@.take(i as int), tool_name@, words(key@)) is None,
            decreases self.entries.len() - i,
        {
            proof {
                assert(self.entries@.take(i + 1).drop_last() =~= self.entries@.take(i as int));
            }
            let entry = &self.entries[i];
            if *entry.tool_name.as_str() == *tool_name && words_eq(&entry.key, key) {
                proof {
                    lemma_lookup_prefix(self.entries@, i + 1, tool_name@, words(key@));
                }
                return Some(entry.decision);
            }
            i += 1;
        }
        assert(self.entries@.take(self.entries@.len() as int) =~= self.entries@);
        None
    }

    /// Remembers `decision` for `tool_name` and `key`, unless an answer for
    /// them is remembered already: that one stays.
    pub fn remember(&mut self, tool_name: String, key: Vec<String>, decision: ApprovalDecision)
        ensures
            cache_extends(old(self).entries(), final(self).entries()),
            lookup_in(old(self).entries(), tool_name@, words(key@)) is Some ==> final(self).entries() == old(self).entries(),
            lookup_in(old(self).entries(), tool_name@, words(key@)) is None ==> final(self).entries() == old(self).entries().push(CacheEntry { tool_name, key, decision }),
            lookup_in(final(self).entries(), tool_name@, words(key@)) is Some,
    {
        if self.lookup(tool_name.as_str(), &key).is_none() {
            let entry = CacheEntry { tool_name, key, decision };
            proof {
                lemma_cache_is_monotonic(self.entries@, entry);
                assert(self.entries@.push(entry).drop_last() =~= self.entries@);
            }
            self.entries.push(entry);
        }
    }
}

/// What to send, and on which channels: the channel of the request that was
/// answered first, then those of the requests joined to it.
pub struct Delivery {
    pub channels: Vec<u64>,
    pub response: ApprovalResponse,
}

#[derive(PartialEq, Eq, Structural, Clone, Copy, Debug)]
pub enum RespondError {
    /// No approval waits under this id.
    NotFound,
    /// The approval had waited for its whole timeout when the answer came.
    TimedOut,
    /// The waiter was gone when the answer was sent.
    Disconnected,
}

impl RespondError {
    /// The error as it is shown.
    pub fn message(&self) -> (s: &'static str)
        ensures
            s@ == match *self {
                RespondError::NotFound => "Approval request not found"@,
                RespondError::TimedOut => "Approval request has timed out"@,
                RespondError::Disconnected => "Failed to send approval response"@,
            },
    {
        match self {
            RespondError::NotFound => "Approval request not found",
            RespondError::TimedOut => "Approval request has timed out",
            RespondError::Disconnected => "Failed to send approval response",
        }
    }
}

/// The outcome of handing the decision to the waiter's channel: a send that
/// failed means the waiter is gone.
pub fn delivery_result(sent: bool) -> (r: Result<(), RespondError>)
    ensures
        r == if sent {
            Ok::<(), RespondError>(())
        } else {
            Err::<(), RespondError>(RespondError::Disconnected)
        },
{
    if sent {
        Ok(())
    } else {
        Err(RespondError::Disconnected)
    }
}

/// What is known of a waiting approval, without its channel.
pub struct ApprovalInfo {
    pub thread_id: String,
    pub item_id: String,
    pub approval_type: ApprovalType,
    /// Milliseconds since the approval was registered.
    pub elapsed: u64,
    /// The approval's timeout in milliseconds.
    pub timeout: u64,
}

/// What becomes of a request for approval.
pub enum GateOutcome {
    /// The answer is remembered: nobody is asked.
    Cached { decision: ApprovalDecision },
    /// The same thing is being asked already: the request waits for that
    /// answer, under the id of the approval it was joined to.
    Joined { approval_id: String },
    /// The user is asked; the approval waits under the id that was given.
    Prompt,
}

pub struct ApprovalManager {
    pending_approvals: StrMap<ApprovalContext>,
    cache: ApprovalCache,
}

/// `context` waits for an answer about `tool_name` and `key`.
pub open spec fn asks_about(context: ApprovalContext, tool_name: Seq<char>, key: Seq<Seq<char>>) -> bool {
    context.cache_key matches Some(ck) && ck.tool_name@ == tool_name && words(ck.key@) == key
}

/// The index of the oldest of `contexts` that asks about `tool_name` and
/// `key`.
pub open spec fn first_in_flight(
    contexts: Seq<ApprovalContext>,
    tool_name: Seq<char>,
    key: Seq<Seq<char>>,
) -> Option<int>
    decreases contexts.len(),
{
    if contexts.len() == 0 {
        None
    } else {
        match first_in_flight(contexts.drop_last(), tool_name, key) {
            Some(i) => Some(i),
            None => if asks_about(contexts.last(), tool_name, key) {
                Some(contexts.len() - 1)
            } else {
                None
            },
        }
    }
}

/// An index found among the first contexts is the index for the whole list.
pub proof fn lemma_in_flight_prefix(
    contexts: Seq<ApprovalContext>,
    n: int,
    tool_name: Seq<char>,
    key: Seq<Seq<char>>,
)
    requires
        0 <= n <= contexts.len(),
        first_in_flight(contexts.take(n), tool_name, key) is Some,
    ensures
        first_in_flight(contexts, tool_name, key) == first_in_flight(
            contexts.take(n),
            tool_name,
            key,
        ),
    decreases contexts.len() - n,
{
    if n < contexts.len() {
        assert(contexts.take(n + 1).drop_last() =~= contexts.take(n));
        lemma_in_flight_prefix(contexts, n + 1, tool_name, key);
    } else {
        assert(contexts.take(n) =~= contexts);
    }
}

/// What `respond_to_approval` does: `before` and `cache_before` are what
/// waited and what was remembered, `after` and `cache_after` what waits and
/// is remembered afterwards.
pub open spec fn respond_post(
    before: Map<Seq<char>, ApprovalContext>,
    cache_before: Seq<CacheEntry>,
    approval_id: Seq<char>,
    decision: ApprovalDecision,
    now: u64,
    after: Map<Seq<char>, ApprovalContext>,
    cache_after: Seq<CacheEntry>,
    result: Result<Delivery, RespondError>,
) -> bool {
    if !before.contains_key(approval_id) {
        &&& result == Err::<Delivery, RespondError>(RespondError::NotFound)
        &&& after == before
        &&& cache_after == cache_before
    } else {
        let context = before[approval_id];
        &&& after == before.remove(approval_id)
        &&& if context.spec_expired(now) {
            &&& result == Err::<Delivery, RespondError>(RespondError::TimedOut)
            &&& cache_after == cache_before
        } else {
            &&& result matches Ok(delivery)
            &&& delivery.response == (ApprovalResponse { decision })
            &&& delivery.channels@ == seq![context.response_channel] + context.joined@
            &&& cache_extends(cache_before, cache_after)
            &&& match context.cache_key {
                Some(ck) => if decision is ApprovedForSession && lookup_in(
                    cache_before,
                    ck.tool_name@,
                    words(ck.key@),
                ) is None {
                    cache_after == cache_before.push(
                        CacheEntry { tool_name: ck.tool_name, key: ck.key, decision },
                    )
                } else {
                    cache_after == cache_before
                },
                None => cache_after == cache_before,
            }
        }
    }
}

/// `context` is one of the approvals in `pending`.
pub open spec fn was_pending(pending: Map<Seq<char>, ApprovalContext>, context: ApprovalContext) -> bool {
    exists|id: Seq<char>| #[trigger] pending.contains_key(id) && pending[id] == context
}

/// What `request_approval` does; `ids` and `contexts` are the approvals that
/// wait, oldest first.
pub open spec fn request_post(
    ids: Seq<Seq<char>>,
    contexts: Seq<ApprovalContext>,
    cache_before: Seq<CacheEntry>,
    approval_id: Seq<char>,
    context: ApprovalContext,
    retrying: bool,
    ids_after: Seq<Seq<char>>,
    contexts_after: Seq<ApprovalContext>,
    cache_after: Seq<CacheEntry>,
    outcome: GateOutcome,
) -> bool {
    let ck = context.cache_key->0;
    let remembered = lookup_in(cache_before, ck.tool_name@, words(ck.key@));
    let in_flight = first_in_flight(contexts, ck.tool_name@, words(ck.key@));
    let retrying = retrying || context.cache_key is None;
    &&& cache_after == cache_before
    &&& if !retrying && remembered is Some {
        &&& outcome == (GateOutcome::Cached { decision: remembered->0 })
        &&& ids_after == ids
        &&& contexts_after == contexts
    } else if !retrying && in_flight is Some {
        let i = in_flight->0;
        &&& outcome matches GateOutcome::Joined { approval_id: joined_id }
        &&& joined_id@ == ids[i]
        &&& ids_after == ids
        &&& contexts_after.len() == contexts.len()
        &&& forall|j: int| 0 <= j < contexts.len() && j != i ==> contexts_after[j] == contexts[j]
        &&& contexts_after[i].joined@ == contexts[i].joined@.push(context.response_channel)
            + context.joined@
        &&& contexts_after[i].response_channel == contexts[i].response_channel
        &&& contexts_after[i].cache_key == contexts[i].cache_key
        &&& contexts_after[i].created_at == contexts[i].created_at
        &&& contexts_after[i].timeout == contexts[i].timeout
        &&& contexts_after[i].thread_id == contexts[i].thread_id
        &&& contexts_after[i].item_id == contexts[i].item_id
        &&& contexts_after[i].approval_type == contexts[i].approval_type
    } else {
        &&& outcome is Prompt
        &&& if ids.contains(approval_id) {
            ids_after == ids && contexts_after == contexts.update(ids.index_of(approval_id), context)
        } else {
            ids_after == ids.push(approval_id) && contexts_after == contexts.push(context)
        }
    }
}

impl ApprovalManager {
    /// The approvals that wait, by id.
    pub closed spec fn pending(&self) -> Map<Seq<char>, ApprovalContext> {
        self.pending_approvals.as_map()
    }

    /// The ids of the approvals that wait, oldest first.
    pub closed spec fn pending_ids(&self) -> Seq<Seq<char>> {
        self.pending_approvals.keys()
    }

    /// The approvals that wait, in the order of `pending_ids`.
    pub closed spec fn pending_contexts(&self) -> Seq<ApprovalContext> {
        self.pending_approvals.values()
    }

    /// The remembered answers, oldest first.
    pub closed spec fn cache(&self) -> Seq<CacheEntry> {
        self.cache.entries()
    }

    /// A manager for the approvals in `pending_approvals`, with nothing
    /// remembered.
    pub fn new(pending_approvals: StrMap<ApprovalContext>) -> (m: Self)
        ensures
            m.pending() == pending_approvals.as_map(),
            m.pending_ids() == pending_approvals.keys(),
            m.pending_contexts() == pending_approvals.values(),
            m.cache() == Seq::<CacheEntry>::empty(),
    {
        ApprovalManager { pending_approvals, cache: ApprovalCache::new() }
    }

    /// The number of approvals that wait.
    pub fn pending_count(&self) -> (n: usize)
        ensures
            n == self.pending_ids().len(),
    {
        self.pending_approvals.len()
    }

    /// Whether an approval waits under `approval_id`.
    pub fn is_pending(&self, approval_id: &str) -> (r: bool)
        ensures
            r == self.pending().contains_key(approval_id@),
    {
        self.pending_approvals.has_key(approval_id)
    }

    /// The answer remembered for `tool_name` and `key`, if there is one.
    pub fn cached_decision(&self, tool_name: &str, key: &Vec<String>) -> (r: Option<
        ApprovalDecision,
    >)
        ensures
            r == lookup_in(self.cache(), tool_name@, words(key@)),
    {
        self.cache.lookup(tool_name, key)
    }

    /// Registers an approval that waits from `now` on. An approval that
    /// waited under the same id is replaced.
    pub fn register_approval(
        &mut self,
        approval_id: String,
        thread_id: String,
        item_id: String,
        approval_type: ApprovalType,
        response_channel: u64,
        timeout: u64,
        now: u64,
    )
        ensures
            final(self).cache() == old(self).cache(),
            final(self).pending().contains_key(approval_id@),
            final(self).pending().remove(approval_id@) == old(self).pending().remove(approval_id@),
            ({
                let context = final(self).pending()[approval_id@];
                &&& context.thread_id == thread_id
                &&& context.item_id == item_id
                &&& context.approval_type == approval_type
                &&& context.response_channel == response_channel
                &&& context.joined@ == Seq::<u64>::empty()
                &&& context.cache_key is None
                &&& context.created_at == now
                &&& context.timeout == timeout
            }),
    {
        let context = ApprovalContext {
            thread_id,
            item_id,
            approval_type,
            response_channel,
            joined: Vec::new(),
            cache_key: None,
            created_at: now,
            timeout,
        };
        let ghost before = self.pending_approvals.as_map();
        let _ = self.pending_approvals.insert(approval_id, context);
        assert(self.pending_approvals.as_map().remove(approval_id@) =~= before.remove(approval_id@));
    }

    /// Answers the approval that waits under `approval_id`. The approval is
    /// taken out in any case. If it had waited for its whole timeout the
    /// answer is refused; otherwise the caller is told what to send on which
    /// channels, and an answer `ApprovedForSession` is remembered under the
    /// approval's cache key.
    pub fn respond_to_approval(&mut self, approval_id: &str, decision: ApprovalDecision, now: u64) -> (r:
        Result<Delivery, RespondError>)
        ensures
            respond_post(
                old(self).pending(),
                old(self).cache(),
                approval_id@,
                decision,
                now,
                final(self).pending(),
                final(self).cache(),
                r,
            ),
    {
        let ghost before = self.pending_approvals.as_map();
        let ghost cache_before = self.cache.entries();
        let context = match self.pending_approvals.remove(approval_id) {
            Some(context) => context,
            None => {
                assert(self.pending_approvals.as_map() =~= before);
                return Err(RespondError::NotFound);
            },
        };
        assert(before.contains_key(approval_id@));
        assert(context == before[approval_id@]);
        if context.expired(now) {
            return Err(RespondError::TimedOut);
        }
        let ApprovalContext { response_channel, joined, cache_key, .. } = context;
        let mut channels: Vec<u64> = Vec::new();
        channels.push(response_channel);
        let mut joined = joined;
        channels.append(&mut joined);
        assert(channels@ =~= seq![context.response_channel] + context.joined@);
        proof {
            lemma_cache_extends_chain(cache_before, cache_before, cache_before);
        }
        match cache_key {
            Some(ck) => {
                if let ApprovalDecision::ApprovedForSession = decision {
                    let CacheKey { tool_name, key } = ck;
                    self.cache.remember(tool_name, key, decision);
                }
            },
            None => {},
        }
        Ok(Delivery { channels, response: ApprovalResponse { decision } })
    }

    /// Takes out every approval that has waited for its whole timeout at
    /// `now` and gives them back, so that the caller can drop their channels.
    /// The others stay as they are.
    pub fn cleanup_expired(&mut self, now: u64) -> (removed: Vec<ApprovalContext>)
        ensures
            final(self).cache() == old(self).cache(),
            forall|id: Seq<char>|
                #![trigger final(self).pending().contains_key(id)]
                final(self).pending().contains_key(id) <==> old(self).pending().contains_key(id)
                    && !old(self).pending()[id].spec_expired(now),
            forall|id: Seq<char>|
                #![trigger final(self).pending()[id]]
                final(self).pending().contains_key(id) ==> final(self).pending()[id] == old(
                    self,
                ).pending()[id],
            forall|i: int|
                0 <= i < removed@.len() ==> (#[trigger] removed@[i]).spec_expired(now),
            forall|i: int|
                0 <= i < removed@.len() ==> was_pending(old(self).pending(), #[trigger] removed@[i]),
            removed@.len() + final(self).pending_ids().len() == old(self).pending_ids().len(),
    {
        let mut removed: Vec<ApprovalContext> = Vec::new();
        let ghost before = self.pending_approvals.as_map();
        let ghost before_len = self.pending_approvals.keys().len();
        let mut pending = StrMap::new();
        std::mem::swap(&mut pending, &mut self.pending_approvals);
        let mut i: usize = 0;
        proof {
            use_type_invariant(&pending);
            pending.lemma_shape();
        }
        while i < pending.len()
            invariant
                pending.wf(),
                i <= pending.spec_len(),
                pending.keys().len() == pending.values().len(),
                removed@.len() + pending.keys().len() == before_len,
                forall|id: Seq<char>|
                    #![trigger pending.as_map().contains_key(id)]
                    pending.as_map().contains_key(id) ==> before.contains_key(id)
                        && pending.as_map()[id] == before[id],
                forall|id: Seq<char>|
                    #![trigger before.contains_key(id)]
                    before.contains_key(id) && !before[id].spec_expired(now)
                        ==> pending.as_map().contains_key(id),
                forall|j: int| 0 <= j < i ==> !(#[trigger] pending.values()[j]).spec_expired(now),
                forall|j: int|
                    0 <= j < removed@.len() ==> (#[trigger] removed@[j]).spec_expired(now),
                forall|j: int|
                    0 <= j < removed@.len() ==> was_pending(before, #[trigger] removed@[j]),
            decreases pending.spec_len() - i,
        {
            if pending.value_at(i).expired(now) {
                let ghost prev = pending;
                proof {
                    prev.lemma_shape();
                }
                let entry = pending.remove_at(i);
                proof {
                    pending.lemma_shape();
                    assert(prev.as_map().contains_key(prev.keys()[i as int])) by {
                        assert(prev.keys().contains(prev.keys()[i as int]));
                    }
                    assert(prev.as_map()[prev.keys()[i as int]] == prev.values()[i as int]);
                    assert(before.contains_key(prev.keys()[i as int]) && before[prev.keys()[i as int]]
                        == entry.1);
                    assert(was_pending(before, entry.1));
                }
                removed.push(entry.1);
            } else {
                i += 1;
            }
        }
        proof {
            pending.lemma_shape();
            assert forall|id: Seq<char>| #[trigger]
                pending.as_map().contains_key(id) implies !before[id].spec_expired(now) by {
                let j = pending.keys().index_of(id);
                assert(0 <= j < pending.keys().len() && pending.keys()[j] == id);
                assert(pending.as_map()[id] == pending.values()[j]);
            }
        }
        self.pending_approvals = pending;
        removed
    }

    /// Takes a request for approval about `context.cache_key`, to wait under
    /// `approval_id` from `context.created_at` on. `retrying` says that the
    /// request follows a denial by the sandbox.
    ///
    /// Unless retrying, a remembered answer is given at once, and a request
    /// about something that is being asked already is joined to the oldest
    /// approval that asks about it. In every other case, and always when
    /// retrying or without a cache key, the approval is registered and the
    /// user is asked.
    pub fn request_approval(
        &mut self,
        approval_id: String,
        context: ApprovalContext,
        retrying: bool,
    ) -> (outcome: GateOutcome)
        ensures
            request_post(
                old(self).pending_ids(),
                old(self).pending_contexts(),
                old(self).cache(),
                approval_id@,
                context,
                retrying,
                final(self).pending_ids(),
                final(self).pending_contexts(),
                final(self).cache(),
                outcome,
            ),
            final(self).pending() == match outcome {
                GateOutcome::Cached { .. } => old(self).pending(),
                GateOutcome::Joined { approval_id: joined_id } => old(self).pending().insert(
                    joined_id@,
                    final(self).pending()[joined_id@],
                ),
                GateOutcome::Prompt => old(self).pending().insert(approval_id@, context),
            },
    {
        let ghost ids = self.pending_approvals.keys();
        let ghost contexts = self.pending_approvals.values();
        proof {
            self.pending_approvals.lemma_shape();
        }
        if !retrying {
            let found = match &context.cache_key {
                Some(ck) => {
                    match self.cache.lookup(ck.tool_name.as_str(), &ck.key) {
                        Some(decision) => {
                            return GateOutcome::Cached { decision };
                        },
                        None => {},
                    }
                    self.find_in_flight(ck.tool_name.as_str(), &ck.key)
                },
                None => None,
            };
            match found {
                Some(i) => {
                    let mut pending = StrMap::new();
                    std::mem::swap(&mut pending, &mut self.pending_approvals);
                    let joined_id = pending.key_at(i).clone();
                    let ApprovalContext {
                        thread_id,
                        item_id,
                        approval_type,
                        response_channel,
                        joined,
                        cache_key,
                        created_at,
                        timeout,
                    } = context;
                    let placeholder = ApprovalContext {
                        thread_id,
                        item_id,
                        approval_type,
                        response_channel,
                        joined: Vec::new(),
                        cache_key,
                        created_at,
                        timeout,
                    };
                    let mut joined_to = pending.swap_value_at(i, placeholder);
                    joined_to.joined.push(response_channel);
                    let mut more = joined;
                    joined_to.joined.append(&mut more);
                    let _ = pending.swap_value_at(i, joined_to);
                    self.pending_approvals = pending;
                    assert(self.pending_approvals.values() =~= contexts.update(
                        i as int,
                        joined_to,
                    ));
                    assert(self.pending_approvals.as_map() =~= old(self).pending().insert(
                        joined_id@,
                        self.pending_approvals.as_map()[joined_id@],
                    ));
                    return GateOutcome::Joined { approval_id: joined_id };
                },
                None => {},
            }
        }
        let _ = self.pending_approvals.insert(approval_id, context);
        GateOutcome::Prompt
    }

    /// Asks for the approval of the command `argv`, to be run in `cwd`; the
    /// approval waits under `call_id` for the default timeout. `reason` is
    /// the retry reason: with one the user is asked in any case, past the
    /// cache and past approvals that wait.
    pub fn request_exec_approval(
        &mut self,
        thread_id: String,
        call_id: String,
        argv: Vec<String>,
        cwd: String,
        reason: Option<String>,
        response_channel: u64,
        now: u64,
    ) -> (outcome: GateOutcome)
        ensures
            exists|context: ApprovalContext|
                {
                    &&& context.cache_key matches Some(ck)
                    &&& ck.tool_name@ == EXEC_TOOL_NAME@
                    &&& ck.key@ == argv@
                    &&& context.response_channel == response_channel
                    &&& context.joined@ == Seq::<u64>::empty()
                    &&& context.created_at == now
                    &&& context.timeout == DEFAULT_APPROVAL_TIMEOUT_MS
                    &&& context.thread_id == thread_id
                    &&& context.item_id@ == call_id@
                    &&& context.approval_type matches ApprovalType::CommandExecution {
                        command,
                        cwd: dir,
                        reason: text,
                    }
                    &&& command == argv
                    &&& dir == cwd
                    &&& text@ == match reason {
                        Some(r) => r@,
                        None => Seq::<char>::empty(),
                    }
                    &&& #[trigger] request_post(
                        old(self).pending_ids(),
                        old(self).pending_contexts(),
                        old(self).cache(),
                        call_id@,
                        context,
                        reason is Some,
                        final(self).pending_ids(),
                        final(self).pending_contexts(),
                        final(self).cache(),
                        outcome,
                    )
                },
    {
        let retrying = reason.is_some();
        let text = match reason {
            Some(r) => r,
            None => String::new(),
        };
        let key = crate::text::clone_words(&argv);
        let context = ApprovalContext {
            thread_id,
            item_id: call_id.clone(),
            approval_type: ApprovalType::CommandExecution {
                command: argv,
                cwd,
                reason: text,
            },
            response_channel,
            joined: Vec::new(),
            cache_key: Some(CacheKey { tool_name: EXEC_TOOL_NAME.to_string(), key }),
            created_at: now,
            timeout: DEFAULT_APPROVAL_TIMEOUT_MS,
        };
        self.request_approval(call_id, context, retrying)
    }

    /// Asks for the approval of a patch to the files `file_paths`; the
    /// approval waits under `call_id` for the default timeout. `reason` is
    /// the retry reason: with one the user is asked in any case, past the
    /// cache and past approvals that wait.
    pub fn request_patch_approval(
        &mut self,
        thread_id: String,
        call_id: String,
        file_paths: Vec<String>,
        reason: Option<String>,
        response_channel: u64,
        now: u64,
    ) -> (outcome: GateOutcome)
        ensures
            exists|context: ApprovalContext|
                {
                    &&& context.cache_key matches Some(ck)
                    &&& ck.tool_name@ == PATCH_TOOL_NAME@
                    &&& ck.key == file_paths
                    &&& context.response_channel == response_channel
                    &&& context.joined@ == Seq::<u64>::empty()
                    &&& context.created_at == now
                    &&& context.timeout == DEFAULT_APPROVAL_TIMEOUT_MS
                    &&& context.thread_id == thread_id
                    &&& context.item_id@ == call_id@
                    &&& context.approval_type matches ApprovalType::FileChange { reason: text }
                    &&& text@ == match reason {
                        Some(r) => r@,
                        None => Seq::<char>::empty(),
                    }
                    &&& #[trigger] request_post(
                        old(self).pending_ids(),
                        old(self).pending_contexts(),
                        old(self).cache(),
                        call_id@,
                        context,
                        reason is Some,
                        final(self).pending_ids(),
                        final(self).pending_contexts(),
                        final(self).cache(),
                        outcome,
                    )
                },
    {
        let retrying = reason.is_some();
        let text = match reason {
            Some(r) => r,
            None => String::new(),
        };
        let context = ApprovalContext {
            thread_id,
            item_id: call_id.clone(),
            approval_type: ApprovalType::FileChange { reason: text },
            response_channel,
            joined: Vec::new(),
            cache_key: Some(CacheKey { tool_name: PATCH_TOOL_NAME.to_string(), key: file_paths }),
            created_at: now,
            timeout: DEFAULT_APPROVAL_TIMEOUT_MS,
        };
        self.request_approval(call_id, context, retrying)
    }

    /// The index of the oldest waiting approval that asks about `tool_name`
    /// and `key`.
    fn find_in_flight(&self, tool_name: &str, key: &Vec<String>) -> (r: Option<usize>)
        ensures
            match r {
                Some(i) => first_in_flight(self.pending_contexts(), tool_name@, words(key@))
                    == Some(i as int) && i < self.pending_contexts().len(),
                None => first_in_flight(self.pending_contexts(), tool_name@, words(key@)) is None,
            },
    {
        proof {
            self.pending_approvals.lemma_shape();
        }
        let ghost contexts = self.pending_approvals.values();
        let mut i: usize = 0;
        while i < self.pending_approvals.len()
            invariant
                contexts == self.pending_approvals.values(),
                contexts.len() == self.pending_approvals.spec_len(),
                i <= contexts.len(),
                first_in_flight(contexts.take(i as int), tool_name@, words(key@)) is None,
            decreases contexts.len() - i,
        {
            proof {
                assert(contexts.take(i + 1).drop_last() =~= contexts.take(i as int));
            }
            let context = self.pending_approvals.value_at(i);
            let hit = match &context.cache_key {
                Some(ck) => *ck.tool_name.as_str() == *tool_name && words_eq(&ck.key, key),
                None => false,
            };
            if hit {
                proof {
                    lemma_in_flight_prefix(contexts, i + 1, tool_name@, words(key@));
                }
                return Some(i);
            }
            i += 1;
        }
        assert(contexts.take(contexts.len() as int) =~= contexts);
        None
    }

    /// What is known of the approval that waits under `approval_id`.
    pub fn get_approval(&self, approval_id: &str, now: u64) -> (r: Option<ApprovalInfo>)
        ensures
            r is Some == self.pending().contains_key(approval_id@),
            r matches Some(info) ==> {
                let context = self.pending()[approval_id@];
                &&& info.thread_id == context.thread_id
                &&& info.item_id == context.item_id
                &&& info.approval_type.same_as(context.approval_type)
                &&& info.elapsed == spec_elapsed(now, context.created_at)
                &&& info.timeout == context.timeout
            },
    {
        match self.pending_approvals.get(approval_id) {
            Some(context) => Some(
                ApprovalInfo {
                    thread_id: context.thread_id.clone(),
                    item_id: context.item_id.clone(),
                    approval_type: context.approval_type.duplicate(),
                    elapsed: elapsed(now, context.created_at),
                    timeout: context.timeout,
                },
            ),
            None => None,
        }
    }
}

/// An answer `ApprovedForSession` ends the asking: once an approval with a
/// cache key got that answer, a later request about the same tool and key,
/// made without a retry reason, is answered from the cache and leaves the
/// waiting approvals as they are. `cache_later` is the cache at the time of
/// the request; caches only grow.
pub proof fn lemma_approved_for_session_is_not_asked_again(
    before: Map<Seq<char>, ApprovalContext>,
    cache_before: Seq<CacheEntry>,
    approval_id: Seq<char>,
    now: u64,
    after: Map<Seq<char>, ApprovalContext>,
    cache_after: Seq<CacheEntry>,
    result: Result<Delivery, RespondError>,
    cache_later: Seq<CacheEntry>,
    ids: Seq<Seq<char>>,
    contexts: Seq<ApprovalContext>,
    next_id: Seq<char>,
    next: ApprovalContext,
    ids_after: Seq<Seq<char>>,
    contexts_after: Seq<ApprovalContext>,
    cache_final: Seq<CacheEntry>,
    outcome: GateOutcome,
)
    requires
        respond_post(
            before,
            cache_before,
            approval_id,
            ApprovalDecision::ApprovedForSession,
            now,
            after,
            cache_after,
            result,
        ),
        result is Ok,
        before[approval_id].cache_key is Some,
        next.cache_key is Some,
        next.cache_key->0.tool_name@ == before[approval_id].cache_key->0.tool_name@,
        words(next.cache_key->0.key@) == words(before[approval_id].cache_key->0.key@),
        cache_extends(cache_after, cache_later),
        request_post(
            ids,
            contexts,
            cache_later,
            next_id,
            next,
            false,
            ids_after,
            contexts_after,
            cache_final,
            outcome,
        ),
    ensures
        outcome is Cached,
        ids_after == ids,
        contexts_after == contexts,
{
    let ck = before[approval_id].cache_key->0;
    if lookup_in(cache_before, ck.tool_name@, words(ck.key@)) is None {
        let entry = CacheEntry {
            tool_name: ck.tool_name,
            key: ck.key,
            decision: ApprovalDecision::ApprovedForSession,
        };
        assert(cache_before.push(entry).drop_last() =~= cache_before);
    }
    assert(lookup_in(cache_after, ck.tool_name@, words(ck.key@)) is Some);
}

/// An approval is answered once: after an answer, whatever came of it, a
/// second answer under the same id finds nothing. And what was remembered
/// before the first answer is remembered after the second.
pub proof fn lemma_second_answer_finds_nothing(
    before: Map<Seq<char>, ApprovalContext>,
    cache_before: Seq<CacheEntry>,
    approval_id: Seq<char>,
    first: ApprovalDecision,
    first_at: u64,
    between: Map<Seq<char>, ApprovalContext>,
    cache_between: Seq<CacheEntry>,
    first_result: Result<Delivery, RespondError>,
    second: ApprovalDecision,
    second_at: u64,
    after: Map<Seq<char>, ApprovalContext>,
    cache_after: Seq<CacheEntry>,
    second_result: Result<Delivery, RespondError>,
)
    requires
        respond_post(
            before,
            cache_before,
            approval_id,
            first,
            first_at,
            between,
            cache_between,
            first_result,
        ),
        respond_post(
            between,
            cache_between,
            approval_id,
            second,
            second_at,
            after,
            cache_after,
            second_result,
        ),
    ensures
        second_result == Err::<Delivery, RespondError>(RespondError::NotFound),
        after == between,
        cache_after == cache_between,
        cache_extends(cache_before, cache_after),
{
    if before.contains_key(approval_id) && !before[approval_id].spec_expired(first_at) {
    } else {
        lemma_cache_extends_chain(cache_before, cache_before, cache_before);
    }
}

} // verus!
