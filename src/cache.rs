use vstd::prelude::*;
use crate::credentials::{Credentials, CredentialsError};

verus! {

/// Credentials are fresh at `now` when they never expire or when they stay
/// valid for more than `buffer` seconds after `now`.
pub open spec fn fresh(expiration: Option<u64>, now: u64, buffer: u64) -> bool {
    match expiration {
        None => true,
        Some(e) => now + buffer < e,
    }
}

/// Whether credentials with this expiration may still be served at `now`.
pub fn is_fresh(expiration: Option<u64>, now: u64, buffer: u64) -> (r: bool)
    ensures
        r == fresh(expiration, now, buffer),
{
    match expiration {
        None => true,
        Some(e) => (now as u128) + (buffer as u128) < (e as u128),
    }
}

/// Credentials that expire one second before the end of the safety buffer
/// are stale; those that expire one second after it are fresh.
pub proof fn lemma_expiration_boundary(now: u64, buffer: u64)
    requires
        1 <= now + buffer,
        now + buffer + 1 <= u64::MAX,
    ensures
        !fresh(Some((now + buffer - 1) as u64), now, buffer),
        fresh(Some((now + buffer + 1) as u64), now, buffer),
{
}

/// What the cache looks like to its callers.
pub struct CacheState {
    /// The expiration of the cached credentials, if any are cached.
    pub cached: Option<Option<u64>>,
    /// Whether a refresh is in flight.
    pub refreshing: bool,
    /// The safety buffer, in seconds.
    pub buffer: u64,
}

/// What a caller of the cache is told to do.
pub enum CacheDecision {
    /// The cached credentials are fresh: use this copy of them.
    Serve(Credentials),
    /// The caller must fetch new credentials and hand them to `complete`.
    Refresh,
    /// Another caller's refresh is in flight: wait for its result.
    Wait,
}

/// The three decisions, without the credentials.
pub enum DecisionKind {
    Serve,
    Refresh,
    Wait,
}

pub open spec fn decision_kind(d: CacheDecision) -> DecisionKind {
    match d {
        CacheDecision::Serve(_) => DecisionKind::Serve,
        CacheDecision::Refresh => DecisionKind::Refresh,
        CacheDecision::Wait => DecisionKind::Wait,
    }
}

/// Whether the cached entry of `s` may be served at `now`.
pub open spec fn serves(s: CacheState, now: u64) -> bool {
    match s.cached {
        Some(e) => fresh(e, now, s.buffer),
        None => false,
    }
}

/// The decision taken for a request at `now` in state `s`.
pub open spec fn request_kind(s: CacheState, now: u64) -> DecisionKind {
    if serves(s, now) {
        DecisionKind::Serve
    } else if s.refreshing {
        DecisionKind::Wait
    } else {
        DecisionKind::Refresh
    }
}

/// The state after a request at `now` in state `s`: a stale entry is
/// dropped, and a refresh starts unless one is in flight.
pub open spec fn request_next(s: CacheState, now: u64) -> CacheState {
    if serves(s, now) {
        s
    } else {
        CacheState { cached: None, refreshing: true, buffer: s.buffer }
    }
}

/// The decisions taken for requests at the times of `nows`, in turn,
/// starting in state `s`.
pub open spec fn request_kinds(s: CacheState, nows: Seq<u64>) -> Seq<DecisionKind>
    decreases nows.len(),
{
    if nows.len() == 0 {
        Seq::empty()
    } else {
        seq![request_kind(s, nows[0])] + request_kinds(request_next(s, nows[0]), nows.drop_first())
    }
}

/// How many of `ks` are refreshes.
pub open spec fn refresh_count(ks: Seq<DecisionKind>) -> nat
    decreases ks.len(),
{
    if ks.len() == 0 {
        0
    } else {
        (if ks[0] is Refresh { 1nat } else { 0nat }) + refresh_count(ks.drop_first())
    }
}

proof fn lemma_waiters(s: CacheState, nows: Seq<u64>)
    requires
        s.cached is None,
        s.refreshing,
    ensures
        request_kinds(s, nows).len() == nows.len(),
        forall|i: int| 0 <= i < nows.len() ==> request_kinds(s, nows)[i] is Wait,
        refresh_count(request_kinds(s, nows)) == 0,
    decreases nows.len(),
{
    if nows.len() > 0 {
        lemma_waiters(request_next(s, nows[0]), nows.drop_first());
        let ks = request_kinds(s, nows);
        assert(ks.drop_first() =~= request_kinds(request_next(s, nows[0]), nows.drop_first()));
    }
}

/// Single flight: however many callers ask an empty cache while no refresh
/// has come back, exactly the first one is told to refresh, and every other
/// one waits for that refresh.
pub proof fn lemma_single_flight(buffer: u64, nows: Seq<u64>)
    requires
        nows.len() >= 1,
    ensures
        ({
            let ks = request_kinds(CacheState { cached: None, refreshing: false, buffer }, nows);
            &&& ks.len() == nows.len()
            &&& refresh_count(ks) == 1
            &&& ks[0] is Refresh
            &&& forall|i: int| 1 <= i < nows.len() ==> ks[i] is Wait
        }),
{
    let s = CacheState { cached: None, refreshing: false, buffer };
    let s1 = request_next(s, nows[0]);
    lemma_waiters(s1, nows.drop_first());
    let ks = request_kinds(s, nows);
    assert(ks.drop_first() =~= request_kinds(s1, nows.drop_first()));
    assert forall|i: int| 1 <= i < nows.len() implies ks[i] is Wait by {
        assert(ks[i] == ks.drop_first()[i - 1]);
    }
}

/// A credentials cache that refreshes on demand, one refresh at a time.
/// The caller told to `Refresh` fetches from the underlying provider and
/// hands the outcome to `complete`, whose result every waiting caller gets.
pub struct RefreshingCache {
    entry: Option<Credentials>,
    refreshing: bool,
    buffer: u64,
}

impl View for RefreshingCache {
    type V = CacheState;

    closed spec fn view(&self) -> CacheState {
        CacheState {
            cached: match self.entry {
                Some(c) => Some(c.expiration),
                None => None,
            },
            refreshing: self.refreshing,
            buffer: self.buffer,
        }
    }
}

impl RefreshingCache {
    /// The cached credentials, if any.
    pub closed spec fn entry(&self) -> Option<Credentials> {
        self.entry
    }

    /// An empty cache that treats credentials expiring within `buffer`
    /// seconds as already expired.
    pub fn new(buffer: u64) -> (r: RefreshingCache)
        ensures
            r@ == (CacheState { cached: None, refreshing: false, buffer }),
            r.entry() is None,
    {
        RefreshingCache { entry: None, refreshing: false, buffer }
    }

    /// Whether a refresh is in flight.
    pub fn is_refreshing(&self) -> (r: bool)
        ensures
            r == self@.refreshing,
    {
        self.refreshing
    }

    /// Decides what a caller asking for credentials at `now` does: use the
    /// cached credentials while they are fresh, else wait for the refresh in
    /// flight, else start one. Stale credentials are never served.
    pub fn request(&mut self, now: u64) -> (d: CacheDecision)
        ensures
            decision_kind(d) == request_kind(old(self)@, now),
            final(self)@ == request_next(old(self)@, now),
            serves(old(self)@, now) ==> final(self).entry() == old(self).entry(),
            !serves(old(self)@, now) ==> final(self).entry() is None,
            match d {
                CacheDecision::Serve(c) => old(self).entry() == Some(c),
                _ => true,
            },
    {
        let served = match &self.entry {
            Some(c) => if is_fresh(c.expiration, now, self.buffer) {
                Some(c.duplicate())
            } else {
                None
            },
            None => None,
        };
        match served {
            Some(c) => CacheDecision::Serve(c),
            None => {
                self.entry = None;
                if self.refreshing {
                    CacheDecision::Wait
                } else {
                    self.refreshing = true;
                    CacheDecision::Refresh
                }
            },
        }
    }

    /// Takes the outcome of the refresh in flight: success is cached, and the
    /// outcome, success or error, is what every waiting caller receives.
    pub fn complete(&mut self, outcome: Result<Credentials, CredentialsError>) -> (r: Result<
        Credentials,
        CredentialsError,
    >)
        ensures
            r == outcome,
            !final(self)@.refreshing,
            final(self)@.buffer == old(self)@.buffer,
            final(self)@.cached == match outcome {
                Ok(c) => Some(c.expiration),
                Err(_) => None::<Option<u64>>,
            },
            match outcome {
                Ok(c) => final(self).entry() == Some(c),
                Err(_) => final(self).entry() is None,
            },
    {
        self.refreshing = false;
        match outcome {
            Ok(c) => {
                self.entry = Some(c.duplicate());
                Ok(c)
            },
            Err(e) => {
                self.entry = None;
                Err(e)
            },
        }
    }
}

} // verus!
