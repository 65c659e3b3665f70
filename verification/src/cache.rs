use vstd::prelude::*;

use crate::error::Error;
use crate::gate::RefreshGate;
use crate::token::{FetchedToken, TokenState};

verus! {

/// Refresh policy variant. A policy only supplies the parameters passed to
/// the token source's fetch call; it never alters the expiry or
/// single-flight logic.
#[derive(Debug, Clone, Copy)]
pub enum Variant {
    /// No extra parameters.
    Standard,
    /// Carries an optional force-refresh flag, settable independently of
    /// expiry; it is forwarded on the next naturally triggered refresh.
    Stable { force_refresh: Option<bool> },
}

/// The parameters a refresh hands to the token source, as the policy
/// supplies them at the moment the fetch is started.
#[derive(Debug, Clone, Copy)]
pub enum FetchParams {
    Standard,
    Stable { force_refresh: Option<bool> },
}

impl Variant {
    /// The parameters this policy supplies to a fetch started now.
    pub open spec fn spec_fetch_params(self) -> FetchParams {
        match self {
            Variant::Standard => FetchParams::Standard,
            Variant::Stable { force_refresh } => FetchParams::Stable { force_refresh },
        }
    }

    /// This policy with its force-refresh flag set; a policy without the
    /// flag is returned unchanged.
    pub open spec fn spec_with_force_refresh(self, flag: bool) -> Variant {
        match self {
            Variant::Standard => Variant::Standard,
            Variant::Stable { .. } => Variant::Stable { force_refresh: Some(flag) },
        }
    }

    /// The parameters this policy supplies to a fetch started now.
    pub fn fetch_params(&self) -> (params: FetchParams)
        ensures
            params == self.spec_fetch_params(),
    {
        match self {
            Variant::Standard => FetchParams::Standard,
            Variant::Stable { force_refresh } => FetchParams::Stable {
                force_refresh: *force_refresh,
            },
        }
    }
}

/// What one evaluation of `get` tells the caller to do.
#[derive(Debug)]
pub enum GetStep {
    /// The token is still valid: use this secret, no coordination needed.
    Fresh(String),
    /// The caller claimed leadership: perform one fetch with these
    /// parameters, then commit or abort the refresh.
    Lead(FetchParams),
    /// Another caller is already leading a refresh: suspend until that
    /// leadership is released, then re-evaluate from the start.
    Wait,
}

/// The abstract state of a credential cache: the token pair, whether a
/// leader currently holds the refresh gate, and the policy.
#[verifier::ext_equal]
pub ghost struct CacheView {
    pub secret: Seq<char>,
    pub expires_at: u64,
    pub leading: bool,
    pub policy: Variant,
}

impl CacheView {
    /// A cache never exposes an uninitialized window: the secret is
    /// non-empty from construction on.
    pub open spec fn inv(self) -> bool {
        self.secret.len() > 0
    }

    /// Whether the token is still valid at instant `now`.
    pub open spec fn fresh_at(self, now: u64) -> bool {
        now < self.expires_at
    }
}

/// One caller's `get` evaluation: reading a valid token changes nothing and
/// yields its secret; on an expired token the caller either claims
/// leadership (gate free) and is told to fetch with the policy's current
/// parameters, or finds a leader active and is told to wait. The token pair
/// and the policy are never touched.
pub open spec fn get_transition(pre: CacheView, now: u64, post: CacheView, step: GetStep) -> bool {
    &&& post.secret == pre.secret
    &&& post.expires_at == pre.expires_at
    &&& post.policy == pre.policy
    &&& if pre.fresh_at(now) {
        &&& post.leading == pre.leading
        &&& step matches GetStep::Fresh(s) && s@ == pre.secret
    } else if pre.leading {
        &&& post.leading
        &&& step is Wait
    } else {
        &&& post.leading
        &&& step matches GetStep::Lead(p) && p == pre.policy.spec_fetch_params()
    }
}

/// The state after a leader commits `fetched` at instant `now`: secret and
/// expiry are replaced together from the one fetch result, the expiry
/// anchored at the instant the fetch returned, and leadership is released.
pub open spec fn committed(pre: CacheView, fetched: FetchedToken, now: u64) -> CacheView {
    CacheView {
        secret: fetched.secret@,
        expires_at: (now + fetched.ttl_seconds) as u64,
        leading: false,
        policy: pre.policy,
    }
}

/// A leader's successful refresh commit.
pub open spec fn commit_transition(
    pre: CacheView,
    fetched: FetchedToken,
    now: u64,
    post: CacheView,
) -> bool {
    &&& pre.leading
    &&& post =~= committed(pre, fetched, now)
}

/// A failed or cancelled refresh: the leader — and every acquisition is
/// matched by exactly one such release or one commit — gives leadership up
/// and everything else, in particular the still-expired token, is left as
/// it was.
pub open spec fn abort_transition(pre: CacheView, post: CacheView) -> bool {
    &&& pre.leading
    &&& post =~= CacheView { leading: false, ..pre }
}

/// Updating the policy's force-refresh flag: no fetch is triggered and the
/// token pair and gate are untouched.
pub open spec fn set_force_refresh_transition(pre: CacheView, flag: bool, post: CacheView) -> bool {
    post =~= CacheView { policy: pre.policy.spec_with_force_refresh(flag), ..pre }
}

/// Composes the token state, the refresh gate and the policy behind the
/// `get` / refresh contract. One instance owns one token and one gate; the
/// embedding application shares the instance among request handlers, runs
/// the network fetches a `Lead` step asks for, and parks `Wait`-ing callers
/// on a notification channel that is signalled on every release.
#[derive(Debug)]
pub struct CredentialCache {
    state: TokenState,
    gate: RefreshGate,
    policy: Variant,
}

impl View for CredentialCache {
    type V = CacheView;

    closed spec fn view(&self) -> CacheView {
        CacheView {
            secret: self.state.secret_view(),
            expires_at: self.state.spec_expires_at(),
            leading: self.gate.is_leader_active(),
            policy: self.policy,
        }
    }
}

impl CredentialCache {
    /// The cache invariant: an initialized, non-empty token.
    pub open spec fn inv(self) -> bool {
        self@.inv()
    }

    /// Builds a cache from the outcome of the one synchronous fetch that
    /// construction performs; fails with the source's own error if that
    /// fetch failed. The fresh cache holds the fetched pair, an idle gate
    /// and the given policy.
    pub fn construct(policy: Variant, fetched: Result<FetchedToken, Error>, now: u64) -> (r:
        Result<CredentialCache, Error>)
        requires
            fetched matches Ok(f) ==> f.inv() && now + f.ttl_seconds <= u64::MAX,
        ensures
            fetched matches Ok(f) ==> (r matches Ok(c) && c@ =~= (CacheView {
                secret: f.secret@,
                expires_at: (now + f.ttl_seconds) as u64,
                leading: false,
                policy,
            }) && c.inv()),
            fetched matches Err(e) ==> (r matches Err(e2) && e2 == e),
    {
        match fetched {
            Ok(f) => Ok(
                CredentialCache {
                    state: TokenState::new(f, now),
                    gate: RefreshGate::new(),
                    policy,
                },
            ),
            Err(e) => Err(e),
        }
    }

    /// The fast path, usable under a shared read lock: the secret exactly
    /// while the token is valid, and nothing otherwise.
    pub fn fresh_secret(&self, now: u64) -> (r: Option<String>)
        ensures
            self@.fresh_at(now) ==> (r matches Some(s) && s@ == self@.secret),
            !self@.fresh_at(now) ==> r is None,
    {
        if !self.state.is_expired(now) {
            Some(self.state.secret().clone())
        } else {
            None
        }
    }

    /// One evaluation of `get` at instant `now`; see `get_transition` for
    /// what each step means and changes. A `Wait`-ing caller re-enters here
    /// after being woken, with no assumption about the leader's outcome.
    pub fn get_step(&mut self, now: u64) -> (step: GetStep)
        requires
            old(self).inv(),
        ensures
            final(self).inv(),
            get_transition(old(self)@, now, final(self)@, step),
    {
        if !self.state.is_expired(now) {
            GetStep::Fresh(self.state.secret().clone())
        } else {
            let became_leader: bool = self.gate.try_acquire();
            if became_leader {
                GetStep::Lead(self.policy.fetch_params())
            } else {
                GetStep::Wait
            }
        }
    }

    /// The leader's successful exit: replaces the token pair wholesale with
    /// the fetch result — expiry anchored at `now`, the instant the fetch
    /// returned — releases leadership, and returns the new secret. The
    /// caller wakes all waiting followers right after this returns.
    pub fn complete_refresh(&mut self, fetched: FetchedToken, now: u64) -> (secret: String)
        requires
            old(self).inv(),
            old(self)@.leading,
            fetched.inv(),
            now + fetched.ttl_seconds <= u64::MAX,
        ensures
            final(self).inv(),
            commit_transition(old(self)@, fetched, now, final(self)@),
            secret@ == fetched.secret@,
    {
        let secret = fetched.secret.clone();
        self.state = TokenState::new(fetched, now);
        self.gate.release(true);
        secret
    }

    /// The leader's failing exit — fetch error or cancellation: releases
    /// leadership with the token untouched, so the next caller may retry.
    /// The caller wakes all waiting followers right after this returns.
    pub fn abort_refresh(&mut self)
        requires
            old(self).inv(),
            old(self)@.leading,
        ensures
            final(self).inv(),
            abort_transition(old(self)@, final(self)@),
    {
        self.gate.release(false);
    }

    /// Stores the force-refresh flag in the policy. This does not itself
    /// trigger a fetch; the flag is forwarded on the next naturally
    /// triggered refresh. On a policy without the flag this changes nothing.
    pub fn set_force_refresh(&mut self, flag: bool)
        requires
            old(self).inv(),
        ensures
            final(self).inv(),
            set_force_refresh_transition(old(self)@, flag, final(self)@),
    {
        match self.policy {
            Variant::Standard => {},
            Variant::Stable { .. } => {
                self.policy = Variant::Stable { force_refresh: Some(flag) };
            },
        }
    }

    /// The current policy.
    pub fn policy(&self) -> (policy: Variant)
        ensures
            policy == self@.policy,
    {
        self.policy
    }

    /// The absolute expiry instant of the current token.
    pub fn expires_at(&self) -> (instant: u64)
        ensures
            instant == self@.expires_at,
    {
        self.state.expires_at()
    }

    /// Whether a leader currently holds the refresh gate.
    pub fn is_refreshing(&self) -> (leading: bool)
        ensures
            leading == self@.leading,
    {
        self.gate.leader_active()
    }
}

/// One step of the cache, for laws quantifying over every kind of step.
pub ghost enum CacheEvent {
    Get { now: u64, step: GetStep },
    Commit { fetched: FetchedToken, now: u64 },
    Abort,
    SetForceRefresh { flag: bool },
}

/// Every transition the cache can make after construction.
pub open spec fn cache_transition(pre: CacheView, event: CacheEvent, post: CacheView) -> bool {
    match event {
        CacheEvent::Get { now, step } => get_transition(pre, now, post, step),
        CacheEvent::Commit { fetched, now } => commit_transition(pre, fetched, now, post),
        CacheEvent::Abort => abort_transition(pre, post),
        CacheEvent::SetForceRefresh { flag } => set_force_refresh_transition(pre, flag, post),
    }
}

/// Law (single flight): while a leader's refresh is outstanding, no `get`
/// evaluation starts a second fetch — an expired cache tells every further
/// caller to wait, and leadership stays held.
pub proof fn lemma_single_flight_no_second_leader(
    pre: CacheView,
    now: u64,
    post: CacheView,
    step: GetStep,
)
    requires
        pre.leading,
        get_transition(pre, now, post, step),
    ensures
        !(step matches GetStep::Lead(_)),
        post.leading,
{
}

/// Law (single flight): on an expired cache with no leader active, a `get`
/// evaluation claims leadership and instructs exactly that caller to fetch,
/// with the parameters the policy supplies at that moment.
pub proof fn lemma_single_flight_claims_leadership(
    pre: CacheView,
    now: u64,
    post: CacheView,
    step: GetStep,
)
    requires
        !pre.fresh_at(now),
        !pre.leading,
        get_transition(pre, now, post, step),
    ensures
        step matches GetStep::Lead(p) && p == pre.policy.spec_fetch_params(),
        post.leading,
{
}

/// Law (single flight): a follower's `Wait` evaluation leaves the cache
/// exactly as it found it, so any number of concurrent expired callers
/// change nothing while the leader's fetch is in flight.
pub proof fn lemma_wait_preserves_cache(pre: CacheView, now: u64, post: CacheView, step: GetStep)
    requires
        pre.leading,
        !pre.fresh_at(now),
        get_transition(pre, now, post, step),
    ensures
        step is Wait,
        post =~= pre,
{
}

/// Law (single flight): once the leader commits its fetch result, every
/// caller that re-evaluates before the new expiry — each of the N woken
/// followers in particular — receives the one committed secret, with no
/// further fetch and no further change.
pub proof fn lemma_single_flight_converges(
    pre: CacheView,
    fetched: FetchedToken,
    now: u64,
    mid: CacheView,
    now2: u64,
    post: CacheView,
    step: GetStep,
)
    requires
        commit_transition(pre, fetched, now, mid),
        now + fetched.ttl_seconds <= u64::MAX,
        now2 < now + fetched.ttl_seconds,
        get_transition(mid, now2, post, step),
    ensures
        step matches GetStep::Fresh(s) && s@ == fetched.secret@,
        post =~= mid,
{
}

/// The induction behind `lemma_single_flight_exactly_one_lead`: once the
/// first expired caller has claimed leadership, every later view in the
/// chain still shows it held.
proof fn lemma_leadership_holds_along_chain(
    views: Seq<CacheView>,
    times: Seq<u64>,
    steps: Seq<GetStep>,
    j: int,
)
    requires
        views.len() == times.len() + 1,
        steps.len() == times.len(),
        !views[0].leading,
        forall|i: int| 0 <= i < times.len() ==> !(#[trigger] views[i]).fresh_at(times[i]),
        forall|i: int|
            0 <= i < times.len() ==> get_transition(
                views[i],
                times[i],
                views[i + 1],
                #[trigger] steps[i],
            ),
        1 <= j <= times.len(),
    ensures
        views[j].leading,
    decreases j,
{
    if j > 1 {
        lemma_leadership_holds_along_chain(views, times, steps, j - 1);
    }
    assert(!views[j - 1].fresh_at(times[j - 1]));
    assert(get_transition(views[j - 1], times[j - 1], views[j], steps[j - 1]));
}

/// Law (single flight, exactly once): take any chain of `get` evaluations
/// made from an expired cache with no leader active — the N concurrent
/// callers that all observe expiry, in whatever order they reach the
/// cache, each observing the token still expired. The first evaluation
/// claims leadership and is told to fetch with the policy's parameters;
/// every other evaluation in the chain is told to wait. One fetch is
/// started, no matter how many callers arrive.
pub proof fn lemma_single_flight_exactly_one_lead(
    views: Seq<CacheView>,
    times: Seq<u64>,
    steps: Seq<GetStep>,
)
    requires
        views.len() == times.len() + 1,
        steps.len() == times.len(),
        times.len() >= 1,
        !views[0].leading,
        forall|i: int| 0 <= i < times.len() ==> !(#[trigger] views[i]).fresh_at(times[i]),
        forall|i: int|
            0 <= i < times.len() ==> get_transition(
                views[i],
                times[i],
                views[i + 1],
                #[trigger] steps[i],
            ),
    ensures
        steps[0] matches GetStep::Lead(p) && p == views[0].policy.spec_fetch_params(),
        forall|i: int| 1 <= i < steps.len() ==> (#[trigger] steps[i]) is Wait,
{
    assert forall|i: int| 1 <= i < steps.len() implies (#[trigger] steps[i]) is Wait by {
        lemma_leadership_holds_along_chain(views, times, steps, i);
    }
}

/// Law (no deadlock on failure): a failed or cancelled refresh releases
/// leadership and leaves the token pair untouched, so the next caller that
/// still finds the token expired claims leadership and triggers a new fetch
/// attempt rather than waiting forever.
pub proof fn lemma_retry_after_failed_refresh(
    pre: CacheView,
    mid: CacheView,
    now: u64,
    post: CacheView,
    step: GetStep,
)
    requires
        abort_transition(pre, mid),
        !mid.fresh_at(now),
        get_transition(mid, now, post, step),
    ensures
        mid.secret == pre.secret && mid.expires_at == pre.expires_at,
        step matches GetStep::Lead(p) && p == pre.policy.spec_fetch_params(),
        post.leading,
{
}

/// Law (expiry arithmetic): a token committed at instant `now` with
/// `fetched.ttl_seconds` to live serves every `get` strictly before
/// `now + ttl` from the cache with no fetch; the first `get` at or past
/// `now + ttl` starts exactly one new fetch.
pub proof fn lemma_expiry_window(
    pre: CacheView,
    fetched: FetchedToken,
    now: u64,
    mid: CacheView,
    now2: u64,
    post: CacheView,
    step: GetStep,
)
    requires
        commit_transition(pre, fetched, now, mid),
        now + fetched.ttl_seconds <= u64::MAX,
        get_transition(mid, now2, post, step),
    ensures
        now2 < now + fetched.ttl_seconds ==> ((step matches GetStep::Fresh(s) && s@
            == fetched.secret@) && post =~= mid),
        now2 >= now + fetched.ttl_seconds ==> ((step matches GetStep::Lead(p) && p
            == mid.policy.spec_fetch_params()) && post.leading),
{
}

/// Law (atomic commit): every step of the cache either leaves the
/// secret/expiry pair exactly as it was, or installs both halves together
/// from one fetch result — no reader can ever observe a secret paired with
/// the wrong expiry.
pub proof fn lemma_atomic_commit(pre: CacheView, event: CacheEvent, post: CacheView)
    requires
        cache_transition(pre, event, post),
    ensures
        (post.secret == pre.secret && post.expires_at == pre.expires_at) || (event matches
            CacheEvent::Commit { fetched, now } && post.secret == fetched.secret@
            && post.expires_at == (now + fetched.ttl_seconds) as u64),
{
}

/// Law (stable-variant flag forwarding): storing the force-refresh flag
/// neither touches the token pair nor the leadership state — so no fetch occurs before
/// natural expiry — and once expiry lets a caller lead a refresh, the fetch
/// parameters carry exactly the stored flag.
pub proof fn lemma_force_refresh_forwarded(
    pre: CacheView,
    flag: bool,
    mid: CacheView,
    now: u64,
    post: CacheView,
    step: GetStep,
)
    requires
        pre.policy is Stable,
        set_force_refresh_transition(pre, flag, mid),
        get_transition(mid, now, post, step),
    ensures
        mid.secret == pre.secret && mid.expires_at == pre.expires_at && mid.leading == pre.leading,
        mid.fresh_at(now) ==> step matches GetStep::Fresh(_),
        step matches GetStep::Lead(p) ==> p == (FetchParams::Stable {
            force_refresh: Some(flag),
        }),
{
}

/// Law (no uninitialized window): every step made from a validly
/// constructed cache — commits handing in a validated fetch result —
/// preserves the invariant that a non-empty secret is installed.
pub proof fn lemma_invariant_preserved(pre: CacheView, event: CacheEvent, post: CacheView)
    requires
        pre.inv(),
        cache_transition(pre, event, post),
        event matches CacheEvent::Commit { fetched, .. } ==> fetched.inv(),
    ensures
        post.inv(),
{
}

} // verus!
