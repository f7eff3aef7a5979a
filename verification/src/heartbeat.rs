//! Liveness detection: how long a connection has been silent, and whether
//! that is too long.
//!
//! Time is a count of milliseconds on a clock chosen by the caller. Nothing
//! here reads a clock.

use vstd::prelude::*;

verus! {

/// What a periodic liveness check decides.
#[derive(Clone, Copy, Debug, PartialEq, Eq, Structural)]
pub enum Verdict {
    /// The peer has been heard from recently enough; it is due another probe.
    Alive,
    /// The peer has been silent for longer than the timeout.
    Expired,
}

/// Milliseconds between `last` and `now`; zero when `now` lies before `last`.
pub open spec fn silence(last: u64, now: u64) -> nat {
    if now >= last {
        (now - last) as nat
    } else {
        0
    }
}

/// Whether a peer last heard from at `last` has, at `now`, been silent for
/// strictly longer than `timeout`.
pub open spec fn timed_out(last: u64, now: u64, timeout: u64) -> bool {
    silence(last, now) > timeout
}

/// The time of the check that follows one made at `now`, capped at the end of
/// the clock.
pub open spec fn following_check(now: u64, interval: u64) -> u64 {
    if now + interval <= u64::MAX {
        (now + interval) as u64
    } else {
        u64::MAX
    }
}

/// Heartbeat bookkeeping of one connection: the cadence of the checks, the
/// silence that is tolerated, and when the peer was last heard from.
#[derive(Clone, Copy, Debug, PartialEq, Eq)]
pub struct HeartbeatMonitor {
    interval_ms: u64,
    timeout_ms: u64,
    last_heard_ms: u64,
}

impl HeartbeatMonitor {
    pub closed spec fn spec_interval(&self) -> u64 {
        self.interval_ms
    }

    pub closed spec fn spec_timeout(&self) -> u64 {
        self.timeout_ms
    }

    pub closed spec fn spec_last_heard(&self) -> u64 {
        self.last_heard_ms
    }

    /// A monitor for a connection accepted at `now`.
    pub fn new(interval_ms: u64, timeout_ms: u64, now: u64) -> (monitor: Self)
        ensures
            monitor.spec_interval() == interval_ms,
            monitor.spec_timeout() == timeout_ms,
            monitor.spec_last_heard() == now,
    {
        HeartbeatMonitor { interval_ms, timeout_ms, last_heard_ms: now }
    }

    #[verifier::when_used_as_spec(spec_interval)]
    pub fn interval(&self) -> (ms: u64)
        ensures
            ms == self.spec_interval(),
    {
        self.interval_ms
    }

    #[verifier::when_used_as_spec(spec_timeout)]
    pub fn timeout(&self) -> (ms: u64)
        ensures
            ms == self.spec_timeout(),
    {
        self.timeout_ms
    }

    #[verifier::when_used_as_spec(spec_last_heard)]
    pub fn last_heard(&self) -> (ms: u64)
        ensures
            ms == self.spec_last_heard(),
    {
        self.last_heard_ms
    }

    /// Records a liveness signal received at `now`.
    pub fn record(&mut self, now: u64)
        ensures
            final(self).spec_last_heard() == now,
            final(self).spec_interval() == old(self).spec_interval(),
            final(self).spec_timeout() == old(self).spec_timeout(),
    {
        self.last_heard_ms = now;
    }

    /// Decides, at `now`, whether the peer is still considered alive.
    pub fn check(&self, now: u64) -> (verdict: Verdict)
        ensures
            verdict == (if timed_out(self.spec_last_heard(), now, self.spec_timeout()) {
                Verdict::Expired
            } else {
                Verdict::Alive
            }),
    {
        if now >= self.last_heard_ms && now - self.last_heard_ms > self.timeout_ms {
            Verdict::Expired
        } else {
            Verdict::Alive
        }
    }

    /// When the check after one made at `now` is due.
    pub fn next_check(&self, now: u64) -> (due: u64)
        ensures
            due == following_check(now, self.spec_interval()),
    {
        now.saturating_add(self.interval_ms)
    }
}

/// A signal recorded at `now` keeps the connection alive at every later time
/// up to and including `now + timeout`, and the first check after that
/// expires it.
pub proof fn lemma_signal_grants_exactly_the_timeout(last: u64, now: u64, timeout: u64)
    ensures
        timed_out(last, now, timeout) <==> now > last + timeout,
{
}

} // verus!
