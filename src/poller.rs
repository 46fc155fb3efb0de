//! The decisions of a per-source polling loop: whether to sample on a
//! wake-up, when to stop, and how long to wait for the next tick. The loop
//! itself, which reads the device and waits on the shutdown signal, runs
//! outside and reports each wake-up here.
use vstd::prelude::*;

verus! {

/// Why a waiting poller woke up.
#[derive(Clone, Copy, Debug, PartialEq, Eq, Structural)]
pub enum Wake {
    /// The tick period elapsed.
    Elapsed,
    /// Shutdown was requested.
    Shutdown,
}

/// What a poller does on its current turn.
#[derive(Clone, Copy, Debug, PartialEq, Eq, Structural)]
pub enum Step {
    /// Read one sample from the source and process it.
    Sample,
    /// The source failed to initialize: only wait for the next wake-up.
    Idle,
    /// Leave the loop.
    Exit,
}

/// The state of one source's polling loop.
#[derive(Clone, Copy, Debug, PartialEq, Eq, Structural)]
pub struct Poller {
    /// Whether the source initialized; fixed for the poller's lifetime.
    pub valid: bool,
    /// Whether shutdown has been observed.
    pub stopped: bool,
    /// The tick period in milliseconds.
    pub period_ms: u64,
}

/// What a poller does in state `p`.
pub open spec fn spec_step(p: Poller) -> Step {
    if p.stopped {
        Step::Exit
    } else if p.valid {
        Step::Sample
    } else {
        Step::Idle
    }
}

/// The state after a wake-up: a shutdown stops the poller for good, an
/// elapsed period changes nothing.
pub open spec fn spec_wake(p: Poller, w: Wake) -> Poller {
    match w {
        Wake::Shutdown => Poller { stopped: true, ..p },
        Wake::Elapsed => p,
    }
}

/// The state after a sequence of wake-ups.
pub open spec fn run(p: Poller, wakes: Seq<Wake>) -> Poller
    decreases wakes.len(),
{
    if wakes.len() == 0 {
        p
    } else {
        spec_wake(run(p, wakes.drop_last()), wakes.last())
    }
}

/// Time left of a tick that started at `tick_start`, at `now`: the period
/// less the time spent, and zero once the period is spent.
pub open spec fn spec_wait(period_ms: u64, tick_start: u64, now: u64) -> int {
    let spent = if now >= tick_start {
        now - tick_start
    } else {
        0
    };
    if spent >= period_ms {
        0
    } else {
        period_ms - spent
    }
}

impl Poller {
    /// A running poller for a source that did or did not initialize.
    pub fn new(valid: bool, period_ms: u64) -> (r: Poller)
        ensures
            r == (Poller { valid, stopped: false, period_ms }),
    {
        Poller { valid, stopped: false, period_ms }
    }

    /// What to do on this turn: exit once shutdown has been observed,
    /// otherwise sample a valid source and idle on an invalid one.
    pub fn next_step(&self) -> (r: Step)
        ensures
            r == spec_step(*self),
    {
        if self.stopped {
            Step::Exit
        } else if self.valid {
            Step::Sample
        } else {
            Step::Idle
        }
    }

    /// Records a wake-up.
    pub fn wake(&mut self, w: Wake)
        ensures
            *final(self) == spec_wake(*old(self), w),
    {
        if w == Wake::Shutdown {
            self.stopped = true;
        }
    }

    /// How long to wait for the next tick or for shutdown, whichever comes
    /// first, after a tick that started at `tick_start`; never more than one
    /// period.
    pub fn wait_ms(&self, tick_start: u64, now: u64) -> (r: u64)
        ensures
            r == spec_wait(self.period_ms, tick_start, now),
            r <= self.period_ms,
    {
        let spent = if now >= tick_start {
            now - tick_start
        } else {
            0
        };
        if spent >= self.period_ms {
            0
        } else {
            self.period_ms - spent
        }
    }
}

proof fn lemma_run_prefix(p: Poller, wakes: Seq<Wake>, i: int)
    requires
        0 <= i < wakes.len(),
    ensures
        run(p, wakes.take(i + 1)) == spec_wake(run(p, wakes.take(i)), wakes[i]),
{
    assert(wakes.take(i + 1).drop_last() =~= wakes.take(i));
}

proof fn lemma_run_keeps(p: Poller, wakes: Seq<Wake>)
    ensures
        run(p, wakes).valid == p.valid,
        run(p, wakes).period_ms == p.period_ms,
        p.stopped ==> run(p, wakes).stopped,
    decreases wakes.len(),
{
    if wakes.len() > 0 {
        lemma_run_keeps(p, wakes.drop_last());
    }
}

/// Once a poller has been woken by shutdown it exits on its next turn, and
/// on every turn after that, whatever wakes it later.
pub proof fn shutdown_stops_poller(p: Poller, wakes: Seq<Wake>, i: int)
    requires
        0 <= i < wakes.len(),
        wakes[i] == Wake::Shutdown,
    ensures
        forall|j: int| i < j <= wakes.len() ==> spec_step(#[trigger] run(p, wakes.take(j))) == Step::Exit,
{
    assert forall|j: int| i < j <= wakes.len() implies spec_step(#[trigger] run(p, wakes.take(j)))
        == Step::Exit by {
        lemma_run_prefix(p, wakes, i);
        let stopped = run(p, wakes.take(i + 1));
        assert(stopped.stopped);
        let rest = wakes.subrange(i + 1, j);
        lemma_run_split(p, wakes.take(i + 1), rest);
        assert(wakes.take(i + 1) + rest =~= wakes.take(j));
        lemma_run_keeps(stopped, rest);
    }
}

proof fn lemma_run_split(p: Poller, a: Seq<Wake>, b: Seq<Wake>)
    ensures
        run(p, a + b) == run(run(p, a), b),
    decreases b.len(),
{
    if b.len() == 0 {
        assert(a + b =~= a);
    } else {
        lemma_run_split(p, a, b.drop_last());
        assert((a + b).drop_last() =~= a + b.drop_last());
    }
}

/// A poller whose source failed to initialize never samples, whatever
/// wakes it; and a wait between its turns is never longer than one period.
pub proof fn invalid_source_never_sampled(p: Poller, wakes: Seq<Wake>, tick_start: u64, now: u64)
    requires
        !p.valid,
    ensures
        forall|j: int| 0 <= j <= wakes.len() ==> spec_step(#[trigger] run(p, wakes.take(j))) != Step::Sample,
        spec_wait(p.period_ms, tick_start, now) <= p.period_ms,
{
    assert forall|j: int| 0 <= j <= wakes.len() implies spec_step(#[trigger] run(p, wakes.take(j)))
        != Step::Sample by {
        lemma_run_keeps(p, wakes.take(j));
    }
}

} // verus!
