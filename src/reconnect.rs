use vstd::prelude::*;

verus! {

/// Width, in seconds, of the jitter window added above a reconnect's delay
/// floor.
pub const RECONNECT_JITTER_SECS: u64 = 10;

/// Relies on `rand::Rng::gen_range` on `rand::thread_rng()`: a value drawn
/// from the half-open range `lo..hi`, which must not be empty (the call
/// panics on an empty range).
#[verifier::external_body]
fn draw_in_range(lo: u64, hi: u64) -> (r: u64)
    requires
        lo < hi,
    ensures
        lo <= r < hi,
{
    rand::Rng::gen_range(&mut rand::thread_rng(), lo..hi)
}

/// Draws the delay before a reconnect: a whole number of seconds in
/// `[minimum_delay_secs, minimum_delay_secs + RECONNECT_JITTER_SECS)`, so that
/// clients that lost the server together do not come back together.
pub fn reconnect_delay_secs(minimum_delay_secs: u64) -> (r: u64)
    requires
        minimum_delay_secs <= u64::MAX - RECONNECT_JITTER_SECS,
    ensures
        minimum_delay_secs <= r < minimum_delay_secs + RECONNECT_JITTER_SECS,
{
    draw_in_range(minimum_delay_secs, minimum_delay_secs + RECONNECT_JITTER_SECS)
}

/// One scheduled reconnect: it connects once after `delay_secs`, unless a
/// later attempt has superseded it by then.
#[derive(Clone, Copy, Debug, PartialEq, Eq, Structural)]
pub struct ReconnectAttempt {
    pub id: u64,
    pub delay_secs: u64,
}

/// Single-flight reconnect scheduler. Every new attempt supersedes (cancels)
/// all earlier ones, so at most one attempt is live at any time.
#[derive(Debug)]
pub struct ReconnectScheduler {
    issued: u64,
}

impl ReconnectScheduler {
    /// Number of attempts issued so far; the live attempt, if any, is the
    /// last of them.
    pub closed spec fn issued_count(&self) -> nat {
        self.issued as nat
    }

    /// The attempt is the most recently issued one, not cancelled by a
    /// successor.
    pub open spec fn live(&self, attempt: ReconnectAttempt) -> bool {
        self.issued_count() > 0 && attempt.id == self.issued_count()
    }

    /// A scheduler with nothing pending.
    pub fn new() -> (r: ReconnectScheduler)
        ensures
            r.issued_count() == 0,
            forall|a: ReconnectAttempt| !r.live(a),
    {
        ReconnectScheduler { issued: 0 }
    }

    /// Whether another attempt can still be issued.
    pub fn can_schedule(&self) -> (r: bool)
        ensures
            r == (self.issued_count() < u64::MAX),
    {
        self.issued < u64::MAX
    }

    /// Issues a new attempt that waits `delay_secs`, cancelling whatever
    /// attempt was live before.
    pub fn issue(&mut self, delay_secs: u64) -> (r: ReconnectAttempt)
        requires
            old(self).issued_count() < u64::MAX,
        ensures
            final(self).issued_count() == old(self).issued_count() + 1,
            r.id == final(self).issued_count(),
            r.delay_secs == delay_secs,
            final(self).live(r),
            forall|a: ReconnectAttempt| old(self).live(a) ==> !final(self).live(a),
    {
        self.issued = self.issued + 1;
        ReconnectAttempt { id: self.issued, delay_secs }
    }

    /// Cancels any pending attempt and issues a new one whose delay is drawn
    /// from `[minimum_delay_secs, minimum_delay_secs + RECONNECT_JITTER_SECS)`.
    pub fn schedule_reconnect(&mut self, minimum_delay_secs: u64) -> (r: ReconnectAttempt)
        requires
            old(self).issued_count() < u64::MAX,
            minimum_delay_secs <= u64::MAX - RECONNECT_JITTER_SECS,
        ensures
            final(self).issued_count() == old(self).issued_count() + 1,
            r.id == final(self).issued_count(),
            minimum_delay_secs <= r.delay_secs < minimum_delay_secs + RECONNECT_JITTER_SECS,
            final(self).live(r),
            forall|a: ReconnectAttempt| old(self).live(a) ==> !final(self).live(a),
    {
        let delay = reconnect_delay_secs(minimum_delay_secs);
        self.issue(delay)
    }

    /// Asked when an attempt's delay has elapsed: whether it may connect, that
    /// is, whether no later attempt has been issued meanwhile.
    pub fn is_live(&self, attempt: &ReconnectAttempt) -> (r: bool)
        ensures
            r == self.live(*attempt),
    {
        self.issued > 0 && attempt.id == self.issued
    }
}

/// At most one attempt is live at any time: two live attempts are one and the
/// same.
pub proof fn lemma_at_most_one_live(
    s: ReconnectScheduler,
    a: ReconnectAttempt,
    b: ReconnectAttempt,
)
    requires
        s.live(a),
        s.live(b),
    ensures
        a.id == b.id,
{
}

/// After a burst of `attempts.len()` schedules issued back to back from
/// `start`, ending in `end`, every attempt but the last has been cancelled and
/// the last one is live.
pub proof fn lemma_burst_keeps_only_last(
    start: ReconnectScheduler,
    end: ReconnectScheduler,
    attempts: Seq<ReconnectAttempt>,
)
    requires
        attempts.len() > 0,
        end.issued_count() == start.issued_count() + attempts.len(),
        forall|i: int|
            0 <= i < attempts.len() ==> attempts[i].id == start.issued_count() + i + 1,
    ensures
        forall|i: int| 0 <= i < attempts.len() - 1 ==> !end.live(#[trigger] attempts[i]),
        end.live(attempts.last()),
{
}

} // verus!
