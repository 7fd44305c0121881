//! The rate gate: a fixed minimum spacing between consecutive comment
//! submissions made under one authenticated identity.
//!
//! A rate gate does not sleep. It is told the time, on any clock that never
//! runs backwards, and answers how long the caller has to wait before it
//! may dispatch; the moment the wait ends is booked as the dispatch's
//! start. A caller that wakes up late tells so with `dispatched`, and the
//! next dispatch is spaced from the later moment. One gate is meant to be
//! shared by all batches that post under the same identity, so that their
//! dispatches are spaced as a whole.

use vstd::prelude::*;

verus! {

/// Seconds that must pass between two consecutive comment submissions.
pub const COMMENT_INTERVAL_SECS: u64 = 5;

/// The configured spacing between submissions, in seconds.
pub fn get_comment_interval() -> (secs: u64)
    ensures
        secs == COMMENT_INTERVAL_SECS,
        secs == 5,
{
    COMMENT_INTERVAL_SECS
}

/// The state of a rate gate: the spacing it enforces and the start of the last
/// dispatch it let through, both in milliseconds.
pub struct RateGate {
    interval_ms: u64,
    last_release: Option<u64>,
}

pub struct RateGateView {
    pub interval_ms: u64,
    pub last_release: Option<u64>,
}

impl View for RateGate {
    type V = RateGateView;

    closed spec fn view(&self) -> RateGateView {
        RateGateView { interval_ms: self.interval_ms, last_release: self.last_release }
    }
}

impl RateGateView {
    /// The moment at which a caller that asks at `now` may dispatch: `now`
    /// itself for the first dispatch, and otherwise `now` or one interval
    /// after the last dispatch, whichever is later. The clock's largest
    /// value caps it.
    pub open spec fn release_time(self, now: u64) -> int {
        match self.last_release {
            None => now as int,
            Some(last) => {
                let due = if last + self.interval_ms > u64::MAX {
                    u64::MAX as int
                } else {
                    last + self.interval_ms
                };
                if due > now {
                    due
                } else {
                    now as int
                }
            },
        }
    }

    /// The rate gate after it let a caller through that asked at `now`.
    pub open spec fn after_wait(self, now: u64) -> RateGateView {
        RateGateView { last_release: Some(self.release_time(now) as u64), ..self }
    }

    /// The rate gate after it was told that a dispatch started at `at`: the
    /// later of `at` and the start it had booked is the start it goes by.
    pub open spec fn after_dispatch(self, at: u64) -> RateGateView {
        match self.last_release {
            Some(last) => if last >= at {
                self
            } else {
                RateGateView { last_release: Some(at), ..self }
            },
            None => RateGateView { last_release: Some(at), ..self },
        }
    }
}

impl RateGate {
    /// A gate that keeps `interval_ms` milliseconds between dispatches and
    /// has let none through yet.
    pub fn new(interval_ms: u64) -> (gate: Self)
        ensures
            gate@ == (RateGateView { interval_ms, last_release: None }),
    {
        RateGate { interval_ms, last_release: None }
    }

    /// A gate with the standard spacing of `COMMENT_INTERVAL_SECS` seconds.
    pub fn standard() -> (gate: Self)
        ensures
            gate@ == (RateGateView {
                interval_ms: (COMMENT_INTERVAL_SECS * 1000) as u64,
                last_release: None,
            }),
    {
        RateGate { interval_ms: COMMENT_INTERVAL_SECS * 1000, last_release: None }
    }

    /// The spacing this gate enforces, in milliseconds.
    pub fn interval_ms(&self) -> (ms: u64)
        ensures
            ms == self@.interval_ms,
    {
        self.interval_ms
    }

    /// Books the next dispatch for a caller that asks at `now_ms` and
    /// returns how many milliseconds the caller has to wait before it
    /// dispatches. The first caller does not wait.
    pub fn wait(&mut self, now_ms: u64) -> (delay_ms: u64)
        ensures
            delay_ms == old(self)@.release_time(now_ms) - now_ms,
            final(self)@ == old(self)@.after_wait(now_ms),
    {
        let release = match self.last_release {
            None => now_ms,
            Some(last) => {
                let due = match last.checked_add(self.interval_ms) {
                    Some(t) => t,
                    None => u64::MAX,
                };
                if due > now_ms {
                    due
                } else {
                    now_ms
                }
            },
        };
        self.last_release = Some(release);
        release - now_ms
    }

    /// Notes that a dispatch which was let through started at `at_ms`. A
    /// start later than the one booked moves the booking; an earlier one
    /// changes nothing.
    pub fn dispatched(&mut self, at_ms: u64)
        ensures
            final(self)@ == old(self)@.after_dispatch(at_ms),
    {
        match self.last_release {
            Some(last) => {
                if last < at_ms {
                    self.last_release = Some(at_ms);
                }
            },
            None => {
                self.last_release = Some(at_ms);
            },
        }
    }
}

/// The first dispatch through a gate is not held back.
pub proof fn first_dispatch_is_free(interval_ms: u64, now: u64)
    ensures
        (RateGateView { interval_ms, last_release: None }).release_time(now) == now,
{
}

/// No dispatch starts before its caller asked, and the wait is never longer
/// than one interval past the last dispatch.
pub proof fn wait_is_bounded(g: RateGateView, now: u64)
    ensures
        now <= g.release_time(now) <= u64::MAX,
        g.last_release is Some ==> g.release_time(now) <= if now > g.last_release->0
            + g.interval_ms {
            now as int
        } else {
            g.last_release->0 + g.interval_ms
        },
{
}

/// Dispatches are spaced: between the starts of two consecutive dispatches
/// through one gate at least its interval passes, whenever the two callers
/// asked. This holds as long as the clock has room for one more interval.
pub proof fn dispatches_are_spaced(g: RateGateView, first_asked: u64, second_asked: u64)
    requires
        g.release_time(first_asked) + g.interval_ms <= u64::MAX,
    ensures
        g.after_wait(first_asked).release_time(second_asked) - g.release_time(first_asked)
            >= g.interval_ms,
{
}

/// Dispatches are spaced by their starts as they happened: when a caller
/// that was let through tells when its dispatch started, no earlier than
/// booked, the next dispatch is booked at least one interval after that
/// start. This holds as long as the clock has room for one more interval.
pub proof fn started_dispatches_are_spaced(
    g: RateGateView,
    first_asked: u64,
    first_started: u64,
    second_asked: u64,
)
    requires
        g.release_time(first_asked) <= first_started,
        first_started + g.interval_ms <= u64::MAX,
    ensures
        g.after_wait(first_asked).after_dispatch(first_started).release_time(second_asked)
            - first_started >= g.interval_ms,
{
}

/// The rate gate after a run of dispatches: for each in turn, its caller
/// asked at the time in `asked` and told the start in `started`.
pub open spec fn gate_after_all(g: RateGateView, asked: Seq<u64>, started: Seq<u64>) -> RateGateView
    decreases asked.len(),
{
    if asked.len() == 0 {
        g
    } else {
        gate_after_all(g, asked.drop_last(), started.drop_last()).after_wait(
            asked.last(),
        ).after_dispatch(started.last())
    }
}

/// Every dispatch of the run started no earlier than it was booked: each
/// caller waited out the delay it was given.
pub open spec fn starts_as_booked(g: RateGateView, asked: Seq<u64>, started: Seq<u64>) -> bool
    decreases asked.len(),
{
    &&& asked.len() == started.len()
    &&& asked.len() > 0 ==> {
        &&& starts_as_booked(g, asked.drop_last(), started.drop_last())
        &&& gate_after_all(g, asked.drop_last(), started.drop_last()).release_time(asked.last())
            <= started.last()
    }
}

proof fn lemma_prefix_as_booked(g: RateGateView, asked: Seq<u64>, started: Seq<u64>, k: int)
    requires
        starts_as_booked(g, asked, started),
        0 <= k <= asked.len(),
    ensures
        starts_as_booked(g, asked.take(k), started.take(k)),
    decreases asked.len(),
{
    if k < asked.len() {
        lemma_prefix_as_booked(g, asked.drop_last(), started.drop_last(), k);
        assert(asked.drop_last().take(k) =~= asked.take(k));
        assert(started.drop_last().take(k) =~= started.take(k));
    } else {
        assert(asked.take(k) =~= asked);
        assert(started.take(k) =~= started);
    }
}

proof fn lemma_gate_goes_by_last_start(g: RateGateView, asked: Seq<u64>, started: Seq<u64>)
    requires
        starts_as_booked(g, asked, started),
        asked.len() > 0,
    ensures
        gate_after_all(g, asked, started).last_release == Some(started.last()),
        gate_after_all(g, asked, started).interval_ms == g.interval_ms,
    decreases asked.len(),
{
    if asked.len() > 1 {
        lemma_gate_goes_by_last_start(g, asked.drop_last(), started.drop_last());
    }
}

/// Every two consecutive dispatches of a run are spaced. Take any run of
/// dispatches through one gate, from one batch or from several, in which
/// each caller waited out the delay it was given. Then between the start
/// of one dispatch and the start of the next at least one interval
/// passes. This holds as long as the clock has room for one more interval
/// after the earlier start.
pub proof fn run_of_dispatches_is_spaced(
    g: RateGateView,
    asked: Seq<u64>,
    started: Seq<u64>,
    i: int,
)
    requires
        starts_as_booked(g, asked, started),
        0 <= i,
        i + 1 < asked.len(),
        started[i] + g.interval_ms <= u64::MAX,
    ensures
        started[i + 1] - started[i] >= g.interval_ms,
{
    lemma_prefix_as_booked(g, asked, started, i + 2);
    let a2 = asked.take(i + 2);
    let s2 = started.take(i + 2);
    let a1 = a2.drop_last();
    let s1 = s2.drop_last();
    assert(a1 =~= asked.take(i + 1));
    assert(s1 =~= started.take(i + 1));
    assert(starts_as_booked(g, a1, s1));
    lemma_gate_goes_by_last_start(g, a1, s1);
    assert(s1.last() == started[i]);
    assert(s2.last() == started[i + 1]);
}

/// With the standard gate, consecutive dispatches of a run start at least
/// `get_comment_interval()` seconds apart: 5000 milliseconds on the
/// caller's clock.
pub proof fn standard_run_is_spaced(asked: Seq<u64>, started: Seq<u64>, i: int)
    requires
        starts_as_booked(
            RateGateView {
                interval_ms: (COMMENT_INTERVAL_SECS * 1000) as u64,
                last_release: None,
            },
            asked,
            started,
        ),
        0 <= i,
        i + 1 < asked.len(),
        started[i] + COMMENT_INTERVAL_SECS * 1000 <= u64::MAX,
    ensures
        started[i + 1] - started[i] >= COMMENT_INTERVAL_SECS * 1000,
        COMMENT_INTERVAL_SECS * 1000 == 5000,
{
    run_of_dispatches_is_spaced(
        RateGateView { interval_ms: (COMMENT_INTERVAL_SECS * 1000) as u64, last_release: None },
        asked,
        started,
        i,
    );
}

} // verus!
