//! Provider-aware quota refresh: which provider a model reports against,
//! and the cache of the ChatGPT quota snapshot with its admission, stale
//! result rejection and identity tracking.
//!
//! Times are milliseconds on a monotonic clock.

use vstd::prelude::*;
use crate::responses::model::{clone_opt, opt_view};
use crate::text::{chars_eq, chars_of, extend_str, owned, string_of};

verus! {

/// How long a fetched snapshot is fresh, in milliseconds.
pub const QUOTA_CACHE_TTL_MS: u64 = 60000;

/// Shortest interval between authentication checks, in milliseconds.
pub const AUTH_CHECK_INTERVAL_MS: u64 = 1000;

/// Which quota a model reports against.
#[derive(Clone, Copy, PartialEq, Eq, Structural, Debug)]
pub enum Provider {
    Grok,
    Chatgpt,
    Unsupported,
}

/// The provider named by a model's metadata value: `grok`, `chatgpt`, or
/// unsupported.
pub fn provider(meta_value: Option<&str>) -> (r: Provider)
    ensures
        r == (match meta_value {
            Some(v) => if v@ == "grok"@ {
                Provider::Grok
            } else if v@ == "chatgpt"@ {
                Provider::Chatgpt
            } else {
                Provider::Unsupported
            },
            None => Provider::Unsupported,
        }),
{
    match meta_value {
        Some(v) => {
            let c = chars_of(v);
            if chars_eq(c.as_slice(), chars_of("grok").as_slice()) {
                Provider::Grok
            } else if chars_eq(c.as_slice(), chars_of("chatgpt").as_slice()) {
                Provider::Chatgpt
            } else {
                Provider::Unsupported
            }
        },
        None => Provider::Unsupported,
    }
}

/// A fetch in flight: the account it is for and its generation.
pub struct Request {
    pub identity: Option<String>,
    pub generation: u64,
}

/// Spec equality of requests by their views.
pub open spec fn same_request(a: Request, b: Request) -> bool {
    opt_view(a.identity) == opt_view(b.identity) && a.generation == b.generation
}

/// View of a request: its account and generation.
pub open spec fn req_view(r: Request) -> (Option<Seq<char>>, u64) {
    (opt_view(r.identity), r.generation)
}

/// The quota cache as a value: the account, the snapshot and when it was
/// fetched, the request in flight, the last generation, the failure mark,
/// and when the account was last checked.
pub struct QuotaModel<Q> {
    pub identity: Option<Seq<char>>,
    pub snapshot: Option<Q>,
    pub fetched_at_ms: Option<u64>,
    pub in_flight: Option<(Option<Seq<char>>, u64)>,
    pub generation: u64,
    pub refresh_failed: bool,
    pub authentication_checked_at_ms: Option<u64>,
}

impl<Q> View for QuotaState<Q> {
    type V = QuotaModel<Q>;

    open spec fn view(&self) -> QuotaModel<Q> {
        QuotaModel {
            identity: opt_view(self.identity),
            snapshot: self.snapshot,
            fetched_at_ms: self.fetched_at_ms,
            in_flight: match self.in_flight {
                Some(r) => Some(req_view(r)),
                None => None,
            },
            generation: self.generation,
            refresh_failed: self.refresh_failed,
            authentication_checked_at_ms: self.authentication_checked_at_ms,
        }
    }
}

/// Following the account `identity`: a change drops the snapshot, its
/// time, the request in flight and the failure mark.
pub open spec fn sync_spec<Q>(m: QuotaModel<Q>, identity: Option<Seq<char>>) -> QuotaModel<Q> {
    if m.identity == identity {
        m
    } else {
        QuotaModel {
            identity,
            snapshot: None,
            fetched_at_ms: None,
            in_flight: None,
            refresh_failed: false,
            ..m
        }
    }
}

/// The snapshot is fresh at `now_ms`.
pub open spec fn fresh_at<Q>(m: QuotaModel<Q>, now_ms: u64) -> bool {
    match m.fetched_at_ms {
        Some(at) => now_ms >= at && now_ms - at < QUOTA_CACHE_TTL_MS,
        None => false,
    }
}

/// The next generation (wrapping).
pub open spec fn next_generation(g: u64) -> u64 {
    if g == u64::MAX {
        0
    } else {
        (g + 1) as u64
    }
}

/// Admitting a fetch at `now_ms` for `identity`: after following the
/// account, refused while a fetch is in flight or the snapshot is fresh;
/// otherwise a new generation's request is in flight and returned.
pub open spec fn begin_spec<Q>(m: QuotaModel<Q>, identity: Option<Seq<char>>, now_ms: u64) -> (
    QuotaModel<Q>,
    Option<(Option<Seq<char>>, u64)>,
) {
    let s = sync_spec(m, identity);
    if s.in_flight is Some || fresh_at(s, now_ms) {
        (s, None)
    } else {
        let g = next_generation(s.generation);
        let req = (s.identity, g);
        (QuotaModel { generation: g, in_flight: Some(req), ..s }, Some(req))
    }
}

/// Completing `request` with `result` (`None` for a failure) at `now_ms`,
/// the account being `identity`: only the request in flight counts; a
/// success stores the snapshot and its time, a failure keeps the snapshot
/// but forgets its time and marks the failure.
pub open spec fn finish_spec<Q>(
    m: QuotaModel<Q>,
    request: (Option<Seq<char>>, u64),
    result: Option<Q>,
    identity: Option<Seq<char>>,
    now_ms: u64,
) -> QuotaModel<Q> {
    let s = sync_spec(m, identity);
    if s.in_flight != Some(request) {
        s
    } else {
        match result {
            Some(q) => QuotaModel {
                in_flight: None,
                snapshot: Some(q),
                fetched_at_ms: Some(now_ms),
                refresh_failed: false,
                ..s
            },
            None => QuotaModel { in_flight: None, fetched_at_ms: None, refresh_failed: true, ..s },
        }
    }
}

/// A fetch result as a value: the snapshot, or nothing for a failure.
pub open spec fn result_view<Q>(r: Result<Q, String>) -> Option<Q> {
    match r {
        Ok(q) => Some(q),
        Err(_) => None,
    }
}

/// The cache before anything was fetched.
pub open spec fn initial_model<Q>() -> QuotaModel<Q> {
    QuotaModel {
        identity: None,
        snapshot: None,
        fetched_at_ms: None,
        in_flight: None,
        generation: 0,
        refresh_failed: false,
        authentication_checked_at_ms: None,
    }
}

/// The quota cache for one signed-in account.
pub struct QuotaState<Q> {
    pub identity: Option<String>,
    pub snapshot: Option<Q>,
    pub fetched_at_ms: Option<u64>,
    pub in_flight: Option<Request>,
    pub generation: u64,
    pub refresh_failed: bool,
    pub authentication_checked_at_ms: Option<u64>,
}

/// Whether two optional strings are equal.
fn opt_eq(a: &Option<String>, b: &Option<String>) -> (r: bool)
    ensures
        r == (opt_view(*a) == opt_view(*b)),
{
    match (a, b) {
        (Some(x), Some(y)) => chars_eq(chars_of(x.as_str()).as_slice(), chars_of(y.as_str()).as_slice()),
        (None, None) => true,
        _ => false,
    }
}

impl<Q> QuotaState<Q> {
    /// Nothing fetched yet.
    pub fn new() -> (r: Self)
        ensures
            r@ == initial_model::<Q>(),
            r.identity is None,
            r.snapshot is None,
            r.fetched_at_ms is None,
            r.in_flight is None,
            r.generation == 0,
            !r.refresh_failed,
            r.authentication_checked_at_ms is None,
    {
        QuotaState {
            identity: None,
            snapshot: None,
            fetched_at_ms: None,
            in_flight: None,
            generation: 0,
            refresh_failed: false,
            authentication_checked_at_ms: None,
        }
    }

    /// Whether the account should be checked again at `now_ms`: never
    /// checked, or checked at least a second ago.
    pub fn authentication_check_due(&self, now_ms: u64) -> (r: bool)
        ensures
            r == (match self.authentication_checked_at_ms {
                Some(at) => now_ms < at || now_ms - at >= AUTH_CHECK_INTERVAL_MS,
                None => true,
            }),
    {
        match self.authentication_checked_at_ms {
            Some(at) => now_ms < at || now_ms - at >= AUTH_CHECK_INTERVAL_MS,
            None => true,
        }
    }

    /// Follows a change of signed-in account: on a change, the snapshot,
    /// its time, the request in flight and the failure mark are dropped.
    pub fn sync_identity(&mut self, identity: Option<String>)
        ensures
            final(self)@ == sync_spec(old(self)@, opt_view(identity)),
            opt_view(final(self).identity) == opt_view(identity),
            opt_view(old(self).identity) == opt_view(identity) ==> *final(self) == *old(self),
            opt_view(old(self).identity) != opt_view(identity) ==> {
                &&& final(self).snapshot is None
                &&& final(self).fetched_at_ms is None
                &&& final(self).in_flight is None
                &&& !final(self).refresh_failed
                &&& final(self).generation == old(self).generation
                &&& final(self).authentication_checked_at_ms == old(
                    self,
                ).authentication_checked_at_ms
            },
    {
        if !opt_eq(&self.identity, &identity) {
            self.identity = identity;
            self.snapshot = None;
            self.fetched_at_ms = None;
            self.in_flight = None;
            self.refresh_failed = false;
        }
    }

    /// Checks the signed-in account when some quota state exists and a
    /// check is forced or due; `identity` is the account at `now_ms`.
    /// Returns whether the check ran.
    pub fn sync_authentication(&mut self, force: bool, identity: Option<String>, now_ms: u64) -> (ran: bool)
        ensures
            ran == ((old(self).identity is Some || old(self).in_flight is Some
                || old(self).snapshot is Some) && (force || match old(
                self,
            ).authentication_checked_at_ms {
                Some(at) => now_ms < at || now_ms - at >= AUTH_CHECK_INTERVAL_MS,
                None => true,
            })),
            !ran ==> *final(self) == *old(self),
            ran ==> final(self).authentication_checked_at_ms == Some(now_ms) && opt_view(
                final(self).identity,
            ) == opt_view(identity),
    {
        if (self.identity.is_some() || self.in_flight.is_some() || self.snapshot.is_some()) && (force
            || self.authentication_check_due(now_ms)) {
            self.authentication_checked_at_ms = Some(now_ms);
            self.sync_identity(identity);
            true
        } else {
            false
        }
    }

    /// Admits a fetch at `now_ms` for `identity`: refused while one is in
    /// flight or while the snapshot is fresh; otherwise a new generation is
    /// started and its request returned.
    pub fn begin(&mut self, identity: Option<String>, now_ms: u64) -> (r: Option<Request>)
        ensures
            (final(self)@, match r {
                Some(q) => Some(req_view(q)),
                None => None,
            }) == begin_spec(old(self)@, opt_view(identity), now_ms),
            ({
                let changed = opt_view(old(self).identity) != opt_view(identity);
                let in_flight = !changed && old(self).in_flight is Some;
                let fresh = !changed && match old(self).fetched_at_ms {
                    Some(at) => now_ms >= at && now_ms - at < QUOTA_CACHE_TTL_MS,
                    None => false,
                };
                &&& opt_view(final(self).identity) == opt_view(identity)
                &&& (in_flight || fresh) ==> r is None
                &&& !(in_flight || fresh) ==> {
                    &&& r is Some
                    &&& final(self).generation == (if old(self).generation == u64::MAX {
                        0
                    } else {
                        old(self).generation + 1
                    })
                    &&& r->0.generation == final(self).generation
                    &&& opt_view(r->0.identity) == opt_view(identity)
                    &&& final(self).in_flight is Some && same_request(
                        final(self).in_flight->0,
                        r->0,
                    )
                }
                &&& !changed ==> final(self).snapshot == old(self).snapshot
                    && final(self).fetched_at_ms == old(self).fetched_at_ms
                    && final(self).refresh_failed == old(self).refresh_failed
            }),
    {
        self.sync_identity(identity);
        let busy = self.in_flight.is_some();
        let fresh = match self.fetched_at_ms {
            Some(at) => now_ms >= at && now_ms - at < QUOTA_CACHE_TTL_MS,
            None => false,
        };
        if busy || fresh {
            return None;
        }
        self.generation = if self.generation == u64::MAX {
            0
        } else {
            self.generation + 1
        };
        let request = Request { identity: clone_opt(&self.identity), generation: self.generation };
        self.in_flight = Some(Request { identity: clone_opt(&self.identity), generation: self.generation });
        Some(request)
    }

    /// Completes `request` with `result` at `now_ms`, `identity` being the
    /// account then. A result for another request than the one in flight
    /// is dropped. A success stores the snapshot and its time and clears the
    /// failure mark; a failure keeps the snapshot, forgets its time so the
    /// next refresh is admitted, and sets the failure mark.
    pub fn finish(&mut self, request: Request, result: Result<Q, String>, identity: Option<String>, now_ms: u64)
        ensures
            final(self)@ == finish_spec(
                old(self)@,
                req_view(request),
                result_view(result),
                opt_view(identity),
                now_ms,
            ),
            ({
                let changed = opt_view(old(self).identity) != opt_view(identity);
                let current = !changed && old(self).in_flight is Some && same_request(
                    old(self).in_flight->0,
                    request,
                );
                &&& opt_view(final(self).identity) == opt_view(identity)
                &&& final(self).generation == old(self).generation
                &&& !current && !changed ==> *final(self) == *old(self)
                &&& current ==> final(self).in_flight is None && match result {
                    Ok(q) => final(self).snapshot == Some(q) && final(self).fetched_at_ms == Some(
                        now_ms,
                    ) && !final(self).refresh_failed,
                    Err(_) => final(self).snapshot == old(self).snapshot
                        && final(self).fetched_at_ms is None && final(self).refresh_failed,
                }
            }),
    {
        self.sync_identity(identity);
        let current = match &self.in_flight {
            Some(r) => opt_eq(&r.identity, &request.identity) && r.generation == request.generation,
            None => false,
        };
        if !current {
            return;
        }
        self.in_flight = None;
        match result {
            Ok(snapshot) => {
                self.snapshot = Some(snapshot);
                self.fetched_at_ms = Some(now_ms);
                self.refresh_failed = false;
            },
            Err(_) => {
                self.fetched_at_ms = None;
                self.refresh_failed = true;
            },
        }
    }

    /// The chip text, given the formatted snapshot chip: `refreshing...`
    /// while a fetch is in flight; after a failed refresh the stale chip is
    /// marked, or the quota is reported unavailable without a snapshot.
    pub fn chip(&self, formatted: &str) -> (r: String)
        ensures
            r@ == (if self.in_flight is Some {
                "refreshing..."@
            } else if self.refresh_failed {
                if self.snapshot is Some {
                    formatted@ + " (stale; refresh failed)"@
                } else {
                    "ChatGPT quota unavailable (refresh failed)"@
                }
            } else {
                formatted@
            }),
    {
        if self.in_flight.is_some() {
            return owned("refreshing...");
        }
        if self.refresh_failed {
            if self.snapshot.is_some() {
                let mut c = chars_of(formatted);
                extend_str(&mut c, " (stale; refresh failed)");
                string_of(c.as_slice())
            } else {
                owned("ChatGPT quota unavailable (refresh failed)")
            }
        } else {
            owned(formatted)
        }
    }
}

/// What an Alt+Q refresh does for the active agent's provider.
pub enum RefreshAction {
    /// Fetch the Grok billing balance.
    FetchBilling,
    /// Fetch the ChatGPT quota for this admitted request.
    FetchChatgpt(Request),
    /// Nothing to do.
    Nothing,
}

/// Dispatches a quota refresh: the Grok balance when usage is visible to
/// the user, the ChatGPT quota when a fetch is admitted for `identity` at
/// `now_ms`, otherwise nothing (also without an active agent).
pub fn refresh<Q>(
    has_agent: bool,
    provider: Provider,
    usage_visible: bool,
    state: &mut QuotaState<Q>,
    identity: Option<String>,
    now_ms: u64,
) -> (r: RefreshAction)
    ensures
        !has_agent ==> r is Nothing && *final(state) == *old(state),
        has_agent && provider == Provider::Grok ==> (if usage_visible {
            r is FetchBilling
        } else {
            r is Nothing
        }) && *final(state) == *old(state),
        has_agent && provider == Provider::Unsupported ==> r is Nothing && *final(state) == *old(state),
        has_agent && provider == Provider::Chatgpt ==> opt_view(final(state).identity) == opt_view(
            identity,
        ) && match r {
            RefreshAction::FetchChatgpt(req) => begin_spec(old(state)@, opt_view(identity), now_ms)
                == (final(state)@, Some(req_view(req))) && opt_view(req.identity) == opt_view(identity),
            RefreshAction::Nothing => begin_spec(old(state)@, opt_view(identity), now_ms) == (
                final(state)@,
                None::<(Option<Seq<char>>, u64)>,
            ),
            RefreshAction::FetchBilling => false,
        },
{
    if !has_agent {
        return RefreshAction::Nothing;
    }
    match provider {
        Provider::Grok => if usage_visible {
            RefreshAction::FetchBilling
        } else {
            RefreshAction::Nothing
        },
        Provider::Chatgpt => match state.begin(identity, now_ms) {
            Some(req) => RefreshAction::FetchChatgpt(req),
            None => RefreshAction::Nothing,
        },
        Provider::Unsupported => RefreshAction::Nothing,
    }
}

/// How the agent answered a ChatGPT quota request.
pub enum QuotaReply<Q> {
    /// The request did not get an answer.
    SendFailed,
    /// The answer was not JSON.
    Unparsable,
    /// The answer carried a non-null `error`.
    Error,
    /// The answer's `result` (or the answer itself) decoded as a quota, or
    /// did not decode (`None`).
    Payload(Option<Q>),
}

/// The fetch result handed to [`QuotaState::finish`] for a reply: the
/// quota, or the failure worded for the chip's log.
pub fn quota_result<Q>(reply: QuotaReply<Q>) -> (r: Result<Q, String>)
    ensures
        match reply {
            QuotaReply::SendFailed => r matches Err(m) && m@ == "ChatGPT quota request failed"@,
            QuotaReply::Unparsable => r matches Err(m) && m@ == "Invalid ChatGPT quota response"@,
            QuotaReply::Error => r matches Err(m) && m@ == "ChatGPT quota unavailable"@,
            QuotaReply::Payload(Some(q)) => r == Ok::<Q, String>(q),
            QuotaReply::Payload(None) => r matches Err(m) && m@ == "Invalid ChatGPT quota response"@,
        },
{
    match reply {
        QuotaReply::SendFailed => Err(owned("ChatGPT quota request failed")),
        QuotaReply::Unparsable => Err(owned("Invalid ChatGPT quota response")),
        QuotaReply::Error => Err(owned("ChatGPT quota unavailable")),
        QuotaReply::Payload(Some(q)) => Ok(q),
        QuotaReply::Payload(None) => Err(owned("Invalid ChatGPT quota response")),
    }
}

/// An admitted fetch coalesces later ones: right after `begin` admits a
/// request, a second `begin` for the same account is refused, at any time.
pub proof fn lemma_begin_coalesces<Q>(m: QuotaModel<Q>, identity: Option<Seq<char>>, now_ms: u64, later_ms: u64)
    requires
        begin_spec(m, identity, now_ms).1 is Some,
    ensures
        begin_spec(begin_spec(m, identity, now_ms).0, identity, later_ms).1 is None,
{
}

/// A successful fetch is cached for the time to live: completing the
/// request in flight with a snapshot at `done_ms` refuses every `begin`
/// for the same account within the time to live, and admits the first one
/// at or after its end; the snapshot is the one fetched.
pub proof fn lemma_success_cached_until_expiry<Q>(
    m: QuotaModel<Q>,
    request: (Option<Seq<char>>, u64),
    q: Q,
    identity: Option<Seq<char>>,
    done_ms: u64,
    later_ms: u64,
)
    requires
        m.identity == identity,
        m.in_flight == Some(request),
    ensures
        finish_spec(m, request, Some(q), identity, done_ms).snapshot == Some(q),
        done_ms <= later_ms < done_ms + QUOTA_CACHE_TTL_MS ==> begin_spec(
            finish_spec(m, request, Some(q), identity, done_ms),
            identity,
            later_ms,
        ).1 is None,
        later_ms >= done_ms + QUOTA_CACHE_TTL_MS ==> begin_spec(
            finish_spec(m, request, Some(q), identity, done_ms),
            identity,
            later_ms,
        ).1 is Some,
{
}

/// A failed fetch keeps the snapshot, marks the failure and lets the next
/// `begin` for the same account through at once.
pub proof fn lemma_failure_keeps_snapshot_and_retries<Q>(
    m: QuotaModel<Q>,
    request: (Option<Seq<char>>, u64),
    identity: Option<Seq<char>>,
    done_ms: u64,
    later_ms: u64,
)
    requires
        m.identity == identity,
        m.in_flight == Some(request),
    ensures
        finish_spec(m, request, None, identity, done_ms).snapshot == m.snapshot,
        finish_spec(m, request, None, identity, done_ms).refresh_failed,
        begin_spec(finish_spec(m, request, None, identity, done_ms), identity, later_ms).1 is Some,
{
}

/// A result for a request that is not the one in flight changes nothing
/// while the account stays the same.
pub proof fn lemma_stale_result_ignored<Q>(
    m: QuotaModel<Q>,
    request: (Option<Seq<char>>, u64),
    result: Option<Q>,
    identity: Option<Seq<char>>,
    now_ms: u64,
)
    requires
        m.identity == identity,
        m.in_flight != Some(request),
    ensures
        finish_spec(m, request, result, identity, now_ms) == m,
{
}

/// A superseded generation cannot replace its retry: a request admitted,
/// failed and retried leaves the retry in flight, and the first request's
/// late result, whatever it is, changes nothing.
pub proof fn lemma_superseded_generation_dropped<Q>(
    m: QuotaModel<Q>,
    identity: Option<Seq<char>>,
    t0: u64,
    t1: u64,
    t2: u64,
    t3: u64,
    late: Option<Q>,
)
    requires
        begin_spec(m, identity, t0).1 is Some,
    ensures
        ({
            let (m1, first) = begin_spec(m, identity, t0);
            let m2 = finish_spec(m1, first->0, None, identity, t1);
            let (m3, retry) = begin_spec(m2, identity, t2);
            &&& retry is Some
            &&& retry != first
            &&& m3.in_flight == retry
            &&& finish_spec(m3, first->0, late, identity, t3) == m3
        }),
{
}

/// Changing the account discards the snapshot, its time, the request in
/// flight and the failure mark, and a late result for a request of the
/// earlier account is dropped.
pub proof fn lemma_identity_change_discards<Q>(
    m: QuotaModel<Q>,
    request: (Option<Seq<char>>, u64),
    result: Option<Q>,
    identity: Option<Seq<char>>,
    now_ms: u64,
)
    requires
        m.identity != identity,
    ensures
        sync_spec(m, identity).snapshot is None,
        sync_spec(m, identity).fetched_at_ms is None,
        sync_spec(m, identity).in_flight is None,
        !sync_spec(m, identity).refresh_failed,
        finish_spec(m, request, result, identity, now_ms) == sync_spec(m, identity),
{
}

/// An admitted request is for the account it was admitted for, and its
/// generation differs from the previous one.
pub proof fn lemma_admitted_request_is_new<Q>(m: QuotaModel<Q>, identity: Option<Seq<char>>, now_ms: u64)
    requires
        begin_spec(m, identity, now_ms).1 is Some,
    ensures
        ({
            let (after, admitted) = begin_spec(m, identity, now_ms);
            let (account, generation) = admitted->0;
            &&& account == identity
            &&& generation != m.generation
            &&& after.in_flight == admitted
        }),
{
}

/// The whole cache cycle for one account: an admitted fetch coalesces a
/// second one; its success is served until the time to live ends and a
/// fetch is admitted when it does; that fetch failing keeps the snapshot
/// and lets a retry through at once.
pub proof fn lemma_cache_coalesces_expires_and_retries<Q>(
    m: QuotaModel<Q>,
    identity: Option<Seq<char>>,
    q: Q,
    t: u64,
    later: u64,
)
    requires
        begin_spec(m, identity, t).1 is Some,
        t <= later < t + QUOTA_CACHE_TTL_MS,
        t + QUOTA_CACHE_TTL_MS <= u64::MAX,
    ensures
        ({
            let (m1, first) = begin_spec(m, identity, t);
            let m2 = finish_spec(m1, first->0, Some(q), identity, t);
            let expiry = (t + QUOTA_CACHE_TTL_MS) as u64;
            let (m3, refresh) = begin_spec(m2, identity, expiry);
            let m4 = finish_spec(m3, refresh->0, None, identity, expiry);
            &&& begin_spec(m1, identity, t).1 is None
            &&& begin_spec(m2, identity, later).1 is None
            &&& refresh is Some
            &&& m4.snapshot == Some(q)
            &&& m4.refresh_failed
            &&& begin_spec(m4, identity, expiry).1 is Some
        }),
{
}

/// From a fresh cache, for any account and start time (with the time to
/// live still within the clock's range): the first fetch is admitted, a
/// second is coalesced, a success is served until the time to live ends,
/// a fetch is admitted when it does, and its failure keeps the snapshot
/// and lets a retry through at once.
pub proof fn lemma_fresh_cache_cycle<Q>(identity: Option<Seq<char>>, q: Q, t: u64, later: u64)
    requires
        t <= later < t + QUOTA_CACHE_TTL_MS,
        t + QUOTA_CACHE_TTL_MS <= u64::MAX,
    ensures
        ({
            let (m1, first) = begin_spec(initial_model::<Q>(), identity, t);
            let m2 = finish_spec(m1, first->0, Some(q), identity, t);
            let expiry = (t + QUOTA_CACHE_TTL_MS) as u64;
            let (m3, refresh) = begin_spec(m2, identity, expiry);
            let m4 = finish_spec(m3, refresh->0, None, identity, expiry);
            &&& first is Some
            &&& begin_spec(m1, identity, t).1 is None
            &&& begin_spec(m2, identity, later).1 is None
            &&& refresh is Some
            &&& m4.snapshot == Some(q)
            &&& begin_spec(m4, identity, expiry).1 is Some
        }),
{
    assert(begin_spec(initial_model::<Q>(), identity, t).1 is Some);
    lemma_cache_coalesces_expires_and_retries(initial_model::<Q>(), identity, q, t, later);
}

} // verus!
