use vstd::prelude::*;
use crate::auth::check_token;
use crate::defs::Team;

verus! {

/// The one slot that holds the snapshot being served.
pub struct SnapshotCache {
    current: Team,
}

/// The number of failed deliveries among the first `i`.
pub open spec fn failures_upto(delivered: Seq<bool>, i: int) -> nat
    decreases i,
{
    if i <= 0 {
        0
    } else {
        failures_upto(delivered, i - 1) + if delivered[i - 1] { 0nat } else { 1nat }
    }
}

impl SnapshotCache {
    /// The snapshot in the slot.
    pub closed spec fn snapshot(&self) -> Team {
        self.current
    }

    pub fn new(initial: Team) -> (r: Self)
        ensures
            r.snapshot() == initial,
    {
        SnapshotCache { current: initial }
    }

    /// The snapshot being served.
    pub fn read(&self) -> (r: &Team)
        ensures
            *r == self.snapshot(),
    {
        &self.current
    }

    /// Installs `t` whole in place of the snapshot being served.
    pub fn replace(&mut self, t: Team)
        ensures
            final(self).snapshot() == t,
    {
        self.current = t;
    }

    /// Ends a successful refresh once its notifications were attempted:
    /// installs `t` whatever became of them, and counts those that failed.
    pub fn commit(&mut self, t: Team, delivered: &Vec<bool>) -> (failed: usize)
        ensures
            final(self).snapshot() == t,
            failed == failures_upto(delivered@, delivered@.len() as int),
    {
        let mut failed: usize = 0;
        let mut i: usize = 0;
        while i < delivered.len()
            invariant
                i <= delivered@.len(),
                failed == failures_upto(delivered@, i as int),
                failed <= i,
            decreases delivered@.len() - i,
        {
            if !delivered[i] {
                failed = failed + 1;
            }
            i = i + 1;
        }
        self.replace(t);
        failed
    }
}

/// The time stamped on a refresh that completes at `now` after one stamped
/// `last`: never earlier than `last`.
pub open spec fn stamp_after(last: u64, now: u64) -> u64 {
    if now >= last {
        now
    } else {
        last
    }
}

/// How a webhook request ended.
#[derive(Debug, Clone, Copy, PartialEq, Eq, Structural)]
pub enum WebhookOutcome {
    InvalidToken,
    Refreshed,
    Failed,
}

/// The answer that the webhook gives for an outcome.
pub fn webhook_reply(outcome: WebhookOutcome) -> (r: &'static str)
    ensures
        outcome == WebhookOutcome::InvalidToken ==> r@ == "invalid token"@,
        outcome == WebhookOutcome::Refreshed ==> r@ == "success!"@,
        outcome == WebhookOutcome::Failed ==> r@ == "failure"@,
{
    match outcome {
        WebhookOutcome::InvalidToken => "invalid token",
        WebhookOutcome::Refreshed => "success!",
        WebhookOutcome::Failed => "failure",
    }
}

/// Decides when refreshes run and how they are stamped.
#[derive(Debug)]
pub struct RefreshDriver {
    /// Refreshes started and not yet finished.
    pub active: u64,
    /// The time stamped on the latest refresh.
    pub last_stamp: u64,
}

impl RefreshDriver {
    pub fn new() -> (r: Self)
        ensures
            r.active == 0,
            r.last_stamp == 0,
    {
        RefreshDriver { active: 0, last_stamp: 0 }
    }

    /// A periodic tick: starts a refresh unless one is running, in which
    /// case the tick is skipped.
    pub fn begin_periodic(&mut self) -> (started: bool)
        ensures
            started == (old(self).active == 0),
            final(self).active == if started { 1 } else { old(self).active },
            final(self).last_stamp == old(self).last_stamp,
    {
        if self.active == 0 {
            self.active = 1;
            true
        } else {
            false
        }
    }

    /// A webhook request: starts a refresh exactly when `token` is the
    /// configured `secret`; otherwise nothing changes and nothing is fetched.
    pub fn begin_webhook(&mut self, token: &str, secret: &str) -> (started: bool)
        ensures
            started == (token@ == secret@),
            final(self).active == if started && old(self).active < u64::MAX {
                (old(self).active + 1) as u64
            } else {
                old(self).active
            },
            final(self).last_stamp == old(self).last_stamp,
    {
        if !check_token(token, secret) {
            return false;
        }
        if self.active < u64::MAX {
            self.active = self.active + 1;
        }
        true
    }

    /// The end of a refresh, successful or not.
    pub fn finish(&mut self)
        ensures
            final(self).active == if old(self).active > 0 { (old(self).active - 1) as u64 } else { 0 },
            final(self).last_stamp == old(self).last_stamp,
    {
        if self.active > 0 {
            self.active = self.active - 1;
        }
    }

    /// The time to stamp on a refresh that completes at `now`, in seconds
    /// since the Unix epoch: `now`, or the previous stamp if the clock went
    /// back.
    pub fn next_stamp(&mut self, now: u64) -> (stamp: u64)
        ensures
            stamp == stamp_after(old(self).last_stamp, now),
            final(self).last_stamp == stamp,
            final(self).active == old(self).active,
    {
        let stamp = if now >= self.last_stamp { now } else { self.last_stamp };
        self.last_stamp = stamp;
        stamp
    }
}

/// Of two refreshes stamped one after the other, the later never carries
/// the earlier time.
pub proof fn lemma_stamps_monotone(last: u64, now1: u64, now2: u64)
    ensures
        stamp_after(last, now1) >= last,
        stamp_after(stamp_after(last, now1), now2) >= stamp_after(last, now1),
{
}

/// Two refreshes completing in order at clock readings `c1 <= c2`, after a
/// stamp no later than `c1`, are stamped with those readings, in order.
pub proof fn lemma_stamps_follow_clock(last: u64, c1: u64, c2: u64)
    requires
        last <= c1,
        c1 <= c2,
    ensures
        stamp_after(last, c1) == c1,
        stamp_after(stamp_after(last, c1), c2) == c2,
        stamp_after(last, c1) <= stamp_after(stamp_after(last, c1), c2),
{
}

} // verus!
