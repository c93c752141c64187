use vstd::prelude::*;

verus! {

/// Nanoseconds in one millisecond.
pub const NANOS_PER_MILLI: u128 = 1_000_000;

/// The key that ends the loop.
pub const QUIT_KEY: char = 'q';

/// Whether the loop is still going. Once cancelled it stays cancelled.
#[derive(Clone, Copy, Debug, PartialEq, Eq, Structural)]
pub enum Phase {
    Running,
    Cancelled,
}

/// What the bounded wait for input came back with.
#[derive(Clone, Copy, Debug, PartialEq, Eq, Structural)]
pub enum Input {
    /// The wait ran out with no input.
    Idle,
    /// A character key was pressed.
    Key(char),
    /// Some other key or event arrived.
    Other,
}

/// What the program around the loop reports back. Each carries the reading
/// of a monotonic clock, in nanoseconds, taken when it happened.
#[derive(Clone, Copy, Debug, PartialEq, Eq, Structural)]
pub enum Event {
    /// The state has been drawn.
    Rendered { now_ns: u128 },
    /// The wait for input is over.
    Polled { input: Input, now_ns: u128 },
    /// A sample has been taken.
    Sampled { now_ns: u128 },
}

/// What the program around the loop does next.
#[derive(Clone, Copy, Debug, PartialEq, Eq, Structural)]
pub enum Action {
    /// Draw the state.
    Render,
    /// Wait for input, for `timeout_ns` nanoseconds at most.
    Wait { timeout_ns: u128 },
    /// Take a sample.
    Sample,
    /// Leave the loop.
    Stop,
}

/// The decisions of the sampling loop. The loop draws, waits for input until
/// the next sample is due, samples if it is due, and draws again; the quit
/// key, seen at the end of a wait, ends it at once.
#[derive(Clone, Copy, Debug, PartialEq, Eq, Structural)]
pub struct Scheduler {
    /// Time from one sample to the next, in nanoseconds.
    pub interval_ns: u128,
    /// The clock's reading when the last sample was taken, or at the start.
    pub last_tick_ns: u128,
    pub phase: Phase,
}

/// The time from `since_ns` to `now_ns`; zero if the clock reads less than
/// before.
pub open spec fn elapsed_of(since_ns: u128, now_ns: u128) -> u128 {
    if now_ns >= since_ns {
        (now_ns - since_ns) as u128
    } else {
        0
    }
}

/// The time left until a sample is due: the interval less the time elapsed,
/// and zero once the interval has passed.
pub open spec fn remaining_of(interval_ns: u128, elapsed_ns: u128) -> u128 {
    if elapsed_ns >= interval_ns {
        0
    } else {
        (interval_ns - elapsed_ns) as u128
    }
}

/// Whether this input asks to quit.
pub open spec fn is_quit(input: Input) -> bool {
    input == Input::Key(QUIT_KEY)
}

/// The scheduler and the action that follow from `s` on `event`.
pub open spec fn step_of(s: Scheduler, event: Event) -> (Scheduler, Action) {
    match s.phase {
        Phase::Cancelled => (s, Action::Stop),
        Phase::Running => match event {
            Event::Rendered { now_ns } => (
                s,
                Action::Wait {
                    timeout_ns: remaining_of(s.interval_ns, elapsed_of(s.last_tick_ns, now_ns)),
                },
            ),
            Event::Polled { input, now_ns } => if is_quit(input) {
                (Scheduler { phase: Phase::Cancelled, ..s }, Action::Stop)
            } else if elapsed_of(s.last_tick_ns, now_ns) >= s.interval_ns {
                (s, Action::Sample)
            } else {
                (s, Action::Render)
            },
            Event::Sampled { now_ns } => (Scheduler { last_tick_ns: now_ns, ..s }, Action::Render),
        },
    }
}

/// The time from `since_ns` to `now_ns`.
pub fn elapsed(since_ns: u128, now_ns: u128) -> (e: u128)
    ensures
        e == elapsed_of(since_ns, now_ns),
{
    if now_ns >= since_ns {
        now_ns - since_ns
    } else {
        0
    }
}

/// The longest the loop may wait for input: what is left of the interval,
/// never less than zero.
pub fn remaining_wait(interval_ns: u128, elapsed_ns: u128) -> (wait_ns: u128)
    ensures
        wait_ns == remaining_of(interval_ns, elapsed_ns),
        elapsed_ns >= interval_ns ==> wait_ns == 0,
        wait_ns <= interval_ns,
{
    if elapsed_ns >= interval_ns {
        0
    } else {
        interval_ns - elapsed_ns
    }
}

impl Input {
    /// Whether this input asks to quit: it is the key `q`.
    pub fn is_quit(&self) -> (quit: bool)
        ensures
            quit == is_quit(*self),
    {
        match self {
            Input::Key(c) => *c == QUIT_KEY,
            _ => false,
        }
    }
}

impl Scheduler {
    /// A running scheduler that samples every `tick_rate_ms` milliseconds and
    /// counts from `now_ns`. The loop starts by drawing.
    pub fn new(tick_rate_ms: u64, now_ns: u128) -> (s: Scheduler)
        ensures
            s.interval_ns == tick_rate_ms * NANOS_PER_MILLI,
            s.last_tick_ns == now_ns,
            s.phase == Phase::Running,
    {
        Scheduler {
            interval_ns: tick_rate_ms as u128 * NANOS_PER_MILLI,
            last_tick_ns: now_ns,
            phase: Phase::Running,
        }
    }

    /// Whether the loop is still going.
    pub fn is_running(&self) -> (running: bool)
        ensures
            running == (self.phase == Phase::Running),
    {
        match self.phase {
            Phase::Running => true,
            Phase::Cancelled => false,
        }
    }

    /// What the loop does before anything has happened: a running loop
    /// draws, a cancelled one stops.
    pub fn start(&self) -> (action: Action)
        ensures
            action == if self.phase == Phase::Running {
                Action::Render
            } else {
                Action::Stop
            },
    {
        match self.phase {
            Phase::Running => Action::Render,
            Phase::Cancelled => Action::Stop,
        }
    }

    /// Takes in what happened and says what to do next.
    ///
    /// After drawing, the loop waits for input for what is left of the
    /// interval. After the wait, the quit key cancels the loop; otherwise a
    /// sample is taken if the interval has passed, and the state is drawn
    /// again if not. After a sample the interval starts anew from the moment
    /// the sample was done, and the state is drawn. A cancelled loop only ever
    /// stops.
    pub fn step(&mut self, event: Event) -> (action: Action)
        ensures
            (*final(self), action) == step_of(*old(self), event),
    {
        match self.phase {
            Phase::Cancelled => Action::Stop,
            Phase::Running => match event {
                Event::Rendered { now_ns } => Action::Wait {
                    timeout_ns: remaining_wait(self.interval_ns, elapsed(self.last_tick_ns, now_ns)),
                },
                Event::Polled { input, now_ns } => {
                    if input.is_quit() {
                        self.phase = Phase::Cancelled;
                        Action::Stop
                    } else if elapsed(self.last_tick_ns, now_ns) >= self.interval_ns {
                        Action::Sample
                    } else {
                        Action::Render
                    }
                },
                Event::Sampled { now_ns } => {
                    self.last_tick_ns = now_ns;
                    Action::Render
                },
            },
        }
    }
}

/// The scheduler after the events of `events`, first to last.
pub open spec fn after(s: Scheduler, events: Seq<Event>) -> Scheduler
    decreases events.len(),
{
    if events.len() == 0 {
        s
    } else {
        step_of(after(s, events.drop_last()), events.last()).0
    }
}

/// The wait is never negative and never longer than the interval, and once
/// the interval has passed there is no wait at all.
pub proof fn lemma_no_wait_once_due(interval_ns: u128, elapsed_ns: u128)
    ensures
        0 <= remaining_of(interval_ns, elapsed_ns) <= interval_ns,
        elapsed_ns >= interval_ns ==> remaining_of(interval_ns, elapsed_ns) == 0,
        elapsed_ns < interval_ns ==> remaining_of(interval_ns, elapsed_ns) + elapsed_ns
            == interval_ns,
{
}

/// The quit key, seen at the end of a wait, cancels a running loop at once:
/// the action is to stop, whether or not a sample was due.
pub proof fn lemma_quit_cancels(s: Scheduler, now_ns: u128)
    requires
        s.phase == Phase::Running,
    ensures
        step_of(s, Event::Polled { input: Input::Key(QUIT_KEY), now_ns }).0.phase
            == Phase::Cancelled,
        step_of(s, Event::Polled { input: Input::Key(QUIT_KEY), now_ns }).1 == Action::Stop,
{
}

/// Only the quit key cancels: a step leaves a running loop running unless it
/// is the end of a wait that saw the quit key.
pub proof fn lemma_only_quit_cancels(s: Scheduler, event: Event)
    requires
        s.phase == Phase::Running,
    ensures
        step_of(s, event).0.phase == Phase::Cancelled <==> (event matches Event::Polled {
            input,
            ..
        } && is_quit(input)),
{
}

/// A sample is taken only by a running loop, after a wait that did not see
/// the quit key, and only when the interval has passed since the last one.
pub proof fn lemma_sample_only_when_due(s: Scheduler, event: Event)
    requires
        step_of(s, event).1 == Action::Sample,
    ensures
        s.phase == Phase::Running,
        event matches Event::Polled { input, now_ns } && !is_quit(input) && elapsed_of(
            s.last_tick_ns,
            now_ns,
        ) >= s.interval_ns,
{
}

/// Cancelled is final: whatever events follow, a cancelled loop stays as it
/// is, and each step of it says to stop.
pub proof fn lemma_cancelled_is_final(s: Scheduler, events: Seq<Event>, event: Event)
    requires
        s.phase == Phase::Cancelled,
    ensures
        after(s, events) == s,
        step_of(after(s, events), event) == (s, Action::Stop),
    decreases events.len(),
{
    if events.len() > 0 {
        lemma_cancelled_is_final(s, events.drop_last(), events.last());
    }
}

} // verus!
