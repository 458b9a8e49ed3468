//! Decision logic of the embedded validation protocol: the behaviour
//! that the generated bootstrap code exhibits inside a produced
//! executable. The orchestrator never runs these checks itself; they
//! are stated and proved here so that the emitted code has a precise
//! reference, and so that the offline grace window, the precedence of
//! a revocation over a cached grant, and the trial timer can be
//! checked once and for all.
use vstd::prelude::*;

use crate::text::join_spec;
use crate::text::join_strs;
use crate::text::str_eq;

verus! {

/// Offline grace window in seconds: a day.
pub const GRACE_PERIOD_SECS: u64 = 24 * 60 * 60;

/// Credential literals baked into a produced executable.
pub struct EmbeddedCredential {
    pub license_key: String,
    pub server_url: String,
    pub demo_mode: bool,
    pub demo_duration_minutes: u32,
}

/// Cached validation state kept by the produced executable.
pub struct LicenseCacheRecord {
    pub last_validated: u64,
    pub valid: bool,
    pub hwid: String,
}

/// What the validation endpoint answered.
pub enum ServerReply {
    Accepted,
    Rejected(String),
}

/// What the bootstrap does after its startup check.
pub enum ValidationOutcome {
    Proceed,
    ProceedOffline(u64),
    Terminate(String),
}

/// What the bootstrap writes to its cache after the check.
pub enum CacheAction {
    StoreValid,
    StoreInvalid,
    Keep,
}

/// Ghost mirror of a server reply: `None` marks acceptance.
pub enum ReplyView {
    Accepted,
    Rejected(Seq<char>),
}

/// Ghost mirror of the cache record fields the decision reads.
pub struct CacheView {
    pub last_validated: u64,
    pub valid: bool,
}

/// Ghost mirror of the outcome.
pub enum OutcomeView {
    Proceed,
    ProceedOffline(int),
    Terminate(Seq<char>),
}

impl ServerReply {
    pub open spec fn view_spec(&self) -> ReplyView {
        match self {
            ServerReply::Accepted => ReplyView::Accepted,
            ServerReply::Rejected(m) => ReplyView::Rejected(m@),
        }
    }
}

impl LicenseCacheRecord {
    pub open spec fn view_spec(&self) -> CacheView {
        CacheView { last_validated: self.last_validated, valid: self.valid }
    }
}

impl ValidationOutcome {
    pub open spec fn view_spec(&self) -> OutcomeView {
        match self {
            ValidationOutcome::Proceed => OutcomeView::Proceed,
            ValidationOutcome::ProceedOffline(h) => OutcomeView::ProceedOffline(*h as int),
            ValidationOutcome::Terminate(m) => OutcomeView::Terminate(m@),
        }
    }
}

/// The sentinel keys that disable validation entirely.
pub open spec fn spec_bypassed(key: Seq<char>) -> bool {
    key == "DEMO"@ || key.len() == 0
}

/// A cached grant is still within the offline grace window.
pub open spec fn spec_within_grace(last_validated: u64, now: u64) -> bool {
    now < last_validated || now - last_validated < GRACE_PERIOD_SECS
}

/// Whole grace hours left when honouring a cached grant offline.
pub open spec fn spec_remaining_grace_hours(last_validated: u64, now: u64) -> int {
    if now <= last_validated {
        24
    } else {
        (GRACE_PERIOD_SECS - (now - last_validated)) / 3600
    }
}

/// Message shown when the server rejects nothing but the network is
/// down and no cached grant helps.
pub open spec fn spec_offline_denied_message() -> Seq<char> {
    "Cannot verify license. Please ensure the license server is reachable."@
}

/// The startup decision of the embedded protocol, as one function of
/// the key, the server reply if any, the cached record if any, and
/// the clock.
pub open spec fn spec_decide_validation(
    key: Seq<char>,
    reply: Option<ReplyView>,
    cache: Option<CacheView>,
    now: u64,
) -> OutcomeView {
    if spec_bypassed(key) {
        OutcomeView::Proceed
    } else {
        match reply {
            Some(ReplyView::Accepted) => OutcomeView::Proceed,
            Some(ReplyView::Rejected(m)) => OutcomeView::Terminate(m),
            None => match cache {
                Some(c) => if c.valid && spec_within_grace(c.last_validated, now) {
                    OutcomeView::ProceedOffline(
                        spec_remaining_grace_hours(c.last_validated, now),
                    )
                } else {
                    OutcomeView::Terminate(spec_offline_denied_message())
                },
                None => OutcomeView::Terminate(spec_offline_denied_message()),
            },
        }
    }
}

/// What the decision writes back to the cache.
pub open spec fn spec_cache_action(key: Seq<char>, reply: Option<ReplyView>) -> CacheAction {
    if spec_bypassed(key) {
        CacheAction::Keep
    } else {
        match reply {
            Some(ReplyView::Accepted) => CacheAction::StoreValid,
            Some(ReplyView::Rejected(m)) => CacheAction::StoreInvalid,
            None => CacheAction::Keep,
        }
    }
}

pub open spec fn spec_reply_view(reply: Option<&ServerReply>) -> Option<ReplyView> {
    match reply {
        Some(r) => Some(r.view_spec()),
        None => None,
    }
}

pub open spec fn spec_cache_view(cache: Option<&LicenseCacheRecord>) -> Option<CacheView> {
    match cache {
        Some(c) => Some(c.view_spec()),
        None => None,
    }
}

/// True for the sentinel keys that skip validation.
pub fn license_bypassed(key: &str) -> (r: bool)
    ensures
        r == spec_bypassed(key@),
{
    if key.unicode_len() == 0 {
        return true;
    }
    str_eq(key, "DEMO")
}

/// The startup check of the embedded protocol. `reply` is `None`
/// when the server could not be reached; `cache` is the record kept
/// from the last successful validation, if any; `now` is Unix
/// seconds.
pub fn decide_validation(
    key: &str,
    reply: Option<&ServerReply>,
    cache: Option<&LicenseCacheRecord>,
    now: u64,
) -> (r: (ValidationOutcome, CacheAction))
    ensures
        r.0.view_spec() == spec_decide_validation(
            key@,
            spec_reply_view(reply),
            spec_cache_view(cache),
            now,
        ),
        r.1 == spec_cache_action(key@, spec_reply_view(reply)),
{
    if license_bypassed(key) {
        return (ValidationOutcome::Proceed, CacheAction::Keep);
    }
    match reply {
        Some(ServerReply::Accepted) => (ValidationOutcome::Proceed, CacheAction::StoreValid),
        Some(ServerReply::Rejected(m)) => (
            ValidationOutcome::Terminate(m.clone()),
            CacheAction::StoreInvalid,
        ),
        None => {
            match cache {
                Some(c) => {
                    if c.valid && (now < c.last_validated || now - c.last_validated
                        < GRACE_PERIOD_SECS) {
                        let hours: u64 = if now <= c.last_validated {
                            24
                        } else {
                            (GRACE_PERIOD_SECS - (now - c.last_validated)) / 3600
                        };
                        (ValidationOutcome::ProceedOffline(hours), CacheAction::Keep)
                    } else {
                        (
                            ValidationOutcome::Terminate(String::from_str(
                                "Cannot verify license. Please ensure the license server is reachable.",
                            )),
                            CacheAction::Keep,
                        )
                    }
                },
                None => (
                    ValidationOutcome::Terminate(String::from_str(
                        "Cannot verify license. Please ensure the license server is reachable.",
                    )),
                    CacheAction::Keep,
                ),
            }
        },
    }
}

/// A sentinel key proceeds for every reply, cache and clock: the
/// unmetered demo path never needs the network.
pub proof fn lemma_bypass_always_proceeds(
    key: Seq<char>,
    reply: Option<ReplyView>,
    cache: Option<CacheView>,
    now: u64,
)
    requires
        spec_bypassed(key),
    ensures
        spec_decide_validation(key, reply, cache, now) == OutcomeView::Proceed,
        spec_cache_action(key, reply) == CacheAction::Keep,
{
}

/// A rejection from the server terminates the run whatever the cache
/// holds: revocation takes precedence over offline tolerance.
pub proof fn lemma_revocation_overrides_cache(
    key: Seq<char>,
    message: Seq<char>,
    cache: Option<CacheView>,
    now: u64,
)
    requires
        !spec_bypassed(key),
    ensures
        spec_decide_validation(key, Some(ReplyView::Rejected(message)), cache, now)
            == OutcomeView::Terminate(message),
        spec_cache_action(key, Some(ReplyView::Rejected(message))) == CacheAction::StoreInvalid,
{
}

/// With the server unreachable, a valid cached grant younger than the
/// grace window lets the run proceed, and an older one does not.
pub proof fn lemma_grace_window(key: Seq<char>, cache: CacheView, now: u64)
    requires
        !spec_bypassed(key),
        cache.valid,
    ensures
        spec_within_grace(cache.last_validated, now) ==> spec_decide_validation(
            key,
            None,
            Some(cache),
            now,
        ) == OutcomeView::ProceedOffline(
            spec_remaining_grace_hours(cache.last_validated, now),
        ),
        !spec_within_grace(cache.last_validated, now) ==> spec_decide_validation(
            key,
            None,
            Some(cache),
            now,
        ) == OutcomeView::Terminate(spec_offline_denied_message()),
{
}

/// What the trial gate decides on one run.
pub enum DemoDecision {
    FirstRun { start: u64, remaining_minutes: u64 },
    Running { remaining_minutes: u64 },
    Expired,
}

/// Seconds since the trial marker; a marker in the future counts as
/// no elapsed time.
pub open spec fn spec_demo_elapsed(start: u64, now: u64) -> int {
    if now >= start {
        now - start
    } else {
        0
    }
}

/// The trial has run out once the elapsed time reaches the limit.
pub open spec fn spec_demo_expired(duration_minutes: u32, start: u64, now: u64) -> bool {
    spec_demo_elapsed(start, now) >= duration_minutes * 60
}

/// Whole minutes left before the trial runs out.
pub open spec fn spec_demo_remaining_minutes(duration_minutes: u32, start: u64, now: u64) -> int {
    (duration_minutes * 60 - spec_demo_elapsed(start, now)) / 60
}

/// The trial decision: `marker` is the persisted first-run
/// timestamp, if one exists; `now` is Unix seconds. The first run
/// persists `now` as the marker. This gate never touches the network.
pub fn check_demo_timer(duration_minutes: u32, marker: Option<u64>, now: u64) -> (r: DemoDecision)
    ensures
        marker is None ==> r == (DemoDecision::FirstRun {
            start: now,
            remaining_minutes: duration_minutes as u64,
        }),
        marker matches Some(start) ==> ((spec_demo_expired(duration_minutes, start, now) ==> r
            == DemoDecision::Expired) && (!spec_demo_expired(duration_minutes, start, now) ==> r
            == (DemoDecision::Running {
            remaining_minutes: spec_demo_remaining_minutes(duration_minutes, start, now) as u64,
        }))),
{
    match marker {
        None => DemoDecision::FirstRun { start: now, remaining_minutes: duration_minutes as u64 },
        Some(start) => {
            let limit: u64 = (duration_minutes as u64) * 60;
            let elapsed: u64 = if now >= start {
                now - start
            } else {
                0
            };
            if elapsed >= limit {
                DemoDecision::Expired
            } else {
                DemoDecision::Running { remaining_minutes: (limit - elapsed) / 60 }
            }
        },
    }
}

/// A run after the limit expires and a run before it does not.
pub proof fn lemma_demo_timer_boundary(duration_minutes: u32, start: u64, now: u64)
    ensures
        spec_demo_elapsed(start, now) > duration_minutes * 60 ==> spec_demo_expired(
            duration_minutes,
            start,
            now,
        ),
        spec_demo_elapsed(start, now) < duration_minutes * 60 ==> !spec_demo_expired(
            duration_minutes,
            start,
            now,
        ),
{
}

/// Canonical device string hashed into the fingerprint: the machine
/// facts joined with a vertical bar. The hash itself is computed by
/// the produced executable.
pub fn fingerprint_input(parts: &Vec<String>) -> (r: String)
    ensures
        r@ == join_spec(parts.deep_view(), "|"@),
{
    join_strs(parts, "|")
}

} // verus!
