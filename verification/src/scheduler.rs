//! The recurring clean-up as a state machine.
//!
//! The caller owns the clock, the timer and the cancellation signal. It hands
//! each event to [`Scheduler::step`] and performs the action that comes back:
//! it sleeps, runs one scan-and-clean pass, or stops.

use vstd::prelude::*;
use crate::model::Timestamp;

verus! {

/// Whether `cron::Schedule::from_str` accepts the expression.
pub uninterp spec fn cron_parses(expression: Seq<char>) -> bool;

/// The first instant, in whole seconds since the epoch, that the schedule
/// parsed from the expression yields after the given second (UTC); `None`
/// where the expression does not parse or the schedule has no further instant.
pub uninterp spec fn cron_next(expression: Seq<char>, after_secs: int) -> Option<int>;

/// The latest second after which a next instant is asked for: the end of the year 9999.
pub const LATEST_START: i64 = 253_402_300_799;

/// The delay, in seconds, that stands in where no next instant can be determined.
pub const DEFAULT_DELAY_SECS: u64 = 60;

/// Parses the expression with `cron::Schedule::from_str`. Trusted: whether
/// that succeeds is a function of the expression alone, named [`cron_parses`].
#[verifier::external_body]
pub(crate) fn cron_is_valid(expression: &str) -> (valid: bool)
    ensures
        valid == cron_parses(expression@),
{
    expression.parse::<cron::Schedule>().is_ok()
}

/// Parses the expression with `cron::Schedule::from_str` and takes the first
/// item of `Schedule::after` from the given second in UTC. Trusted: the
/// result is a function of the expression and the second alone, named
/// [`cron_next`]. The bound on the second keeps the start, and the second
/// after it, within what `chrono::DateTime` can hold.
#[verifier::external_body]
pub(crate) fn cron_next_after(expression: &str, after_secs: i64) -> (next: Option<i64>)
    requires
        0 <= after_secs <= LATEST_START,
    ensures
        next is Some == cron_next(expression@, after_secs as int) is Some,
        next matches Some(t) ==> cron_next(expression@, after_secs as int) == Some(t as int),
{
    let schedule = expression.parse::<cron::Schedule>().ok()?;
    let start = chrono::DateTime::from_timestamp(after_secs, 0)?;
    schedule.after(&start).next().map(|t| t.timestamp())
}

/// A span of time to sleep.
#[derive(Clone, Copy, Debug, PartialEq, Eq, Structural)]
pub struct Delay {
    pub secs: u64,
    pub nanos: u32,
}

impl Delay {
    pub open spec fn as_nanos(self) -> int {
        self.secs * 1_000_000_000 + self.nanos
    }
}

/// Where the recurring job stands.
#[derive(Clone, Copy, Debug, PartialEq, Eq, Structural)]
pub enum SchedulerState {
    Idle,
    /// Asleep until the instant given in nanoseconds since the epoch.
    Waiting { next_fire: i128 },
    /// A pass is under way; a cancellation that arrived meanwhile is kept until it ends.
    Running { cancel_requested: bool },
    Stopped,
}

/// What happened outside.
#[derive(Clone, Copy, Debug, PartialEq, Eq, Structural)]
pub enum SchedulerEvent {
    /// The job is started at the given instant.
    Start { now: Timestamp },
    /// The sleep ran to its end.
    TimerElapsed,
    /// The pass ended at the given instant.
    PassFinished { now: Timestamp },
    /// The cancellation signal arrived.
    Cancel,
}

/// What the caller is to do.
#[derive(Clone, Copy, Debug, PartialEq, Eq, Structural)]
pub enum SchedulerAction {
    /// Sleep this long, racing the cancellation signal.
    Sleep(Delay),
    /// Scan, then clean what the scan found.
    RunPass,
    /// End the job.
    Stop,
    /// Nothing.
    Ignore,
}

/// A schedule whose expression does not parse.
#[derive(Clone, Copy, Debug, PartialEq, Eq, Structural)]
pub enum ScheduleError {
    InvalidSchedule,
}

/// The next instant of the schedule after `now`, where one can be asked for.
pub open spec fn next_instant(expression: Seq<char>, now: Timestamp) -> Option<int> {
    if 0 <= now.secs <= LATEST_START {
        cron_next(expression, now.secs as int)
    } else {
        None
    }
}

/// The nanoseconds to sleep at `now` when the schedule's next instant is
/// `next`: the time until then, and the default where there is no next
/// instant or it does not lie ahead.
pub open spec fn delay_nanos(next: Option<int>, now: Timestamp) -> int {
    match next {
        Some(t) => if t * 1_000_000_000 - now.as_nanos() >= 0 {
            t * 1_000_000_000 - now.as_nanos()
        } else {
            DEFAULT_DELAY_SECS * 1_000_000_000
        },
        None => DEFAULT_DELAY_SECS * 1_000_000_000,
    }
}

/// The state in which the job waits when it falls asleep at `now`.
pub open spec fn waiting_from(expression: Seq<char>, now: Timestamp) -> SchedulerState {
    SchedulerState::Waiting {
        next_fire: (now.as_nanos() + delay_nanos(next_instant(expression, now), now)) as i128,
    }
}

/// The state that follows `state` on `event`.
pub open spec fn next_state(expression: Seq<char>, state: SchedulerState, event: SchedulerEvent) -> SchedulerState {
    match (state, event) {
        (SchedulerState::Idle, SchedulerEvent::Start { now }) => waiting_from(expression, now),
        (SchedulerState::Idle, SchedulerEvent::Cancel) => SchedulerState::Stopped,
        (SchedulerState::Waiting { .. }, SchedulerEvent::TimerElapsed) => SchedulerState::Running {
            cancel_requested: false,
        },
        (SchedulerState::Waiting { .. }, SchedulerEvent::Cancel) => SchedulerState::Stopped,
        (SchedulerState::Running { .. }, SchedulerEvent::Cancel) => SchedulerState::Running {
            cancel_requested: true,
        },
        (SchedulerState::Running { cancel_requested }, SchedulerEvent::PassFinished { now }) => if cancel_requested {
            SchedulerState::Stopped
        } else {
            waiting_from(expression, now)
        },
        _ => state,
    }
}

/// The nanoseconds of the sleep that the step asks for, where it asks for one.
pub open spec fn sleep_nanos(expression: Seq<char>, state: SchedulerState, event: SchedulerEvent) -> Option<int> {
    match (state, event) {
        (SchedulerState::Idle, SchedulerEvent::Start { now }) => Some(
            delay_nanos(next_instant(expression, now), now),
        ),
        (SchedulerState::Running { cancel_requested }, SchedulerEvent::PassFinished { now }) => if cancel_requested {
            None
        } else {
            Some(delay_nanos(next_instant(expression, now), now))
        },
        _ => None,
    }
}

/// `action` is what the step from `state` on `event` asks for.
pub open spec fn action_fits(
    expression: Seq<char>,
    state: SchedulerState,
    event: SchedulerEvent,
    action: SchedulerAction,
) -> bool {
    match sleep_nanos(expression, state, event) {
        Some(nanos) => action matches SchedulerAction::Sleep(delay) && delay.nanos < 1_000_000_000
            && delay.as_nanos() == nanos,
        None => match (state, event) {
            (SchedulerState::Waiting { .. }, SchedulerEvent::TimerElapsed) => action
                == SchedulerAction::RunPass,
            (SchedulerState::Idle, SchedulerEvent::Cancel) => action == SchedulerAction::Stop,
            (SchedulerState::Waiting { .. }, SchedulerEvent::Cancel) => action == SchedulerAction::Stop,
            (SchedulerState::Running { cancel_requested }, SchedulerEvent::PassFinished { .. }) => action
                == SchedulerAction::Stop,
            _ => action == SchedulerAction::Ignore,
        },
    }
}

/// How long to sleep at `now` when the schedule's next instant is `next`.
pub fn delay_until(next: Option<i64>, now: Timestamp) -> (delay: Delay)
    ensures
        delay.nanos < 1_000_000_000,
        delay.as_nanos() == delay_nanos(
            match next {
                Some(t) => Some(t as int),
                None => None,
            },
            now,
        ),
{
    match next {
        Some(t) => {
            let now_ns: i128 = (now.secs as i128) * 1_000_000_000 + (now.nanos as i128);
            let diff: i128 = (t as i128) * 1_000_000_000 - now_ns;
            if diff >= 0 {
                let secs: i128 = diff / 1_000_000_000;
                let nanos: i128 = diff % 1_000_000_000;
                assert(secs <= u64::MAX);
                Delay { secs: secs as u64, nanos: nanos as u32 }
            } else {
                Delay { secs: DEFAULT_DELAY_SECS, nanos: 0 }
            }
        },
        None => Delay { secs: DEFAULT_DELAY_SECS, nanos: 0 },
    }
}

/// A recurring job: a schedule expression that parses, and the state of the job.
pub struct Scheduler {
    expression: String,
    state: SchedulerState,
}

impl Scheduler {
    /// The schedule expression.
    pub closed spec fn expression(&self) -> Seq<char> {
        self.expression@
    }

    /// The state of the job.
    pub closed spec fn current(&self) -> SchedulerState {
        self.state
    }

    /// The expression parses.
    pub closed spec fn wf(&self) -> bool {
        cron_parses(self.expression@)
    }

    /// A job for `expression`, idle. An expression that does not parse is
    /// rejected, so that no job ever waits on one.
    pub fn new(expression: &str) -> (made: Result<Scheduler, ScheduleError>)
        ensures
            made is Ok == cron_parses(expression@),
            made matches Ok(s) ==> s.wf() && s.expression() == expression@ && s.current()
                == SchedulerState::Idle,
    {
        if cron_is_valid(expression) {
            Ok(Scheduler { expression: expression.to_owned(), state: SchedulerState::Idle })
        } else {
            Err(ScheduleError::InvalidSchedule)
        }
    }

    /// The state of the job.
    pub fn state(&self) -> (state: SchedulerState)
        ensures
            state == self.current(),
    {
        self.state
    }

    /// Whether the job has ended.
    pub fn is_stopped(&self) -> (stopped: bool)
        ensures
            stopped == (self.current() == SchedulerState::Stopped),
    {
        match self.state {
            SchedulerState::Stopped => true,
            _ => false,
        }
    }

    fn fall_asleep(&mut self, now: Timestamp) -> (action: SchedulerAction)
        ensures
            final(self).expression == old(self).expression,
            final(self).state == waiting_from(old(self).expression@, now),
            action matches SchedulerAction::Sleep(delay) && delay.nanos < 1_000_000_000
                && delay.as_nanos() == delay_nanos(next_instant(old(self).expression@, now), now),
    {
        let next: Option<i64> = if 0 <= now.secs && now.secs <= LATEST_START {
            cron_next_after(self.expression.as_str(), now.secs)
        } else {
            None
        };
        let delay = delay_until(next, now);
        let now_ns: i128 = (now.secs as i128) * 1_000_000_000 + (now.nanos as i128);
        let delay_ns: i128 = (delay.secs as i128) * 1_000_000_000 + (delay.nanos as i128);
        self.state = SchedulerState::Waiting { next_fire: now_ns + delay_ns };
        SchedulerAction::Sleep(delay)
    }

    /// One step of the job: takes the event, moves to the next state and
    /// says what the caller is to do.
    pub fn step(&mut self, event: SchedulerEvent) -> (action: SchedulerAction)
        ensures
            final(self).expression() == old(self).expression(),
            final(self).wf() == old(self).wf(),
            final(self).current() == next_state(old(self).expression(), old(self).current(), event),
            action_fits(old(self).expression(), old(self).current(), event, action),
    {
        match (self.state, event) {
            (SchedulerState::Idle, SchedulerEvent::Start { now }) => self.fall_asleep(now),
            (SchedulerState::Idle, SchedulerEvent::Cancel) => {
                self.state = SchedulerState::Stopped;
                SchedulerAction::Stop
            },
            (SchedulerState::Waiting { .. }, SchedulerEvent::TimerElapsed) => {
                self.state = SchedulerState::Running { cancel_requested: false };
                SchedulerAction::RunPass
            },
            (SchedulerState::Waiting { .. }, SchedulerEvent::Cancel) => {
                self.state = SchedulerState::Stopped;
                SchedulerAction::Stop
            },
            (SchedulerState::Running { .. }, SchedulerEvent::Cancel) => {
                self.state = SchedulerState::Running { cancel_requested: true };
                SchedulerAction::Ignore
            },
            (SchedulerState::Running { cancel_requested }, SchedulerEvent::PassFinished { now }) => {
                if cancel_requested {
                    self.state = SchedulerState::Stopped;
                    SchedulerAction::Stop
                } else {
                    self.fall_asleep(now)
                }
            },
            _ => SchedulerAction::Ignore,
        }
    }
}

/// The state that the job reaches from `state` through `events`, in order.
pub open spec fn state_after(expression: Seq<char>, state: SchedulerState, events: Seq<SchedulerEvent>) -> SchedulerState
    decreases events.len(),
{
    if events.len() == 0 {
        state
    } else {
        next_state(expression, state_after(expression, state, events.drop_last()), events.last())
    }
}

/// A stopped job stays stopped and asks for nothing.
pub proof fn lemma_stopped_is_terminal(expression: Seq<char>, event: SchedulerEvent, action: SchedulerAction)
    requires
        action_fits(expression, SchedulerState::Stopped, event, action),
    ensures
        next_state(expression, SchedulerState::Stopped, event) == SchedulerState::Stopped,
        action == SchedulerAction::Ignore,
{
}

/// A pass is asked for only when the sleep of a waiting job ran to its end,
/// and a sleep only at the start and after a pass that was not cancelled.
pub proof fn lemma_pass_runs_only_on_timer(
    expression: Seq<char>,
    state: SchedulerState,
    event: SchedulerEvent,
    action: SchedulerAction,
)
    requires
        action_fits(expression, state, event, action),
    ensures
        action == SchedulerAction::RunPass <==> state is Waiting && event is TimerElapsed,
        action is Sleep <==> next_state(expression, state, event) is Waiting && !(state is Waiting),
        next_state(expression, state, event) is Running ==> state is Waiting || state is Running,
{
}

/// A cancellation stops an idle or a waiting job at once. During a pass it is
/// kept, asks for nothing, and stops the job when the pass has ended.
pub proof fn lemma_cancel_is_honoured(
    expression: Seq<char>,
    state: SchedulerState,
    now: Timestamp,
    action: SchedulerAction,
)
    requires
        action_fits(expression, state, SchedulerEvent::Cancel, action),
    ensures
        state is Idle || state is Waiting ==> next_state(expression, state, SchedulerEvent::Cancel)
            == SchedulerState::Stopped && action == SchedulerAction::Stop,
        state is Running ==> action == SchedulerAction::Ignore && next_state(
            expression,
            next_state(expression, state, SchedulerEvent::Cancel),
            SchedulerEvent::PassFinished { now },
        ) == SchedulerState::Stopped,
{
}

/// Once a job is stopped, no sequence of events moves it.
pub proof fn lemma_stopped_stays_stopped(expression: Seq<char>, events: Seq<SchedulerEvent>)
    ensures
        state_after(expression, SchedulerState::Stopped, events) == SchedulerState::Stopped,
    decreases events.len(),
{
    if events.len() > 0 {
        lemma_stopped_stays_stopped(expression, events.drop_last());
    }
}

/// A job that is started and cancelled before its first sleep ran out never
/// asks for a pass: whatever events follow, it is stopped before each of them,
/// and so each of them asks for nothing.
pub proof fn lemma_cancelled_before_first_fire_never_runs(
    expression: Seq<char>,
    now: Timestamp,
    later: Seq<SchedulerEvent>,
    k: int,
    action: SchedulerAction,
)
    requires
        0 <= k < later.len(),
        action_fits(
            expression,
            state_after(
                expression,
                SchedulerState::Idle,
                (seq![SchedulerEvent::Start { now }, SchedulerEvent::Cancel] + later).take(2 + k),
            ),
            later[k],
            action,
        ),
    ensures
        state_after(
            expression,
            SchedulerState::Idle,
            seq![SchedulerEvent::Start { now }, SchedulerEvent::Cancel],
        ) == SchedulerState::Stopped,
        action == SchedulerAction::Ignore,
        action != SchedulerAction::RunPass,
{
    let first = seq![SchedulerEvent::Start { now }, SchedulerEvent::Cancel];
    lemma_state_after_first_two(expression, now);
    lemma_state_after_concat(expression, SchedulerState::Idle, first, later.take(k));
    assert((first + later).take(2 + k) =~= first + later.take(k));
    lemma_stopped_stays_stopped(expression, later.take(k));
}

proof fn lemma_state_after_first_two(expression: Seq<char>, now: Timestamp)
    ensures
        state_after(
            expression,
            SchedulerState::Idle,
            seq![SchedulerEvent::Start { now }, SchedulerEvent::Cancel],
        ) == SchedulerState::Stopped,
{
    let first = seq![SchedulerEvent::Start { now }, SchedulerEvent::Cancel];
    let one = first.drop_last();
    assert(one.drop_last().len() == 0);
    assert(state_after(expression, SchedulerState::Idle, one.drop_last()) == SchedulerState::Idle);
    assert(one.last() == SchedulerEvent::Start { now });
    assert(state_after(expression, SchedulerState::Idle, one) == waiting_from(expression, now));
    assert(first.last() == SchedulerEvent::Cancel);
}

proof fn lemma_state_after_concat(
    expression: Seq<char>,
    state: SchedulerState,
    a: Seq<SchedulerEvent>,
    b: Seq<SchedulerEvent>,
)
    ensures
        state_after(expression, state, a + b) == state_after(
            expression,
            state_after(expression, state, a),
            b,
        ),
    decreases b.len(),
{
    if b.len() == 0 {
        assert(a + b =~= a);
    } else {
        lemma_state_after_concat(expression, state, a, b.drop_last());
        assert((a + b).drop_last() =~= a + b.drop_last());
        assert((a + b).last() == b.last());
    }
}

/// The sleep is never negative: it is the time until the next instant where
/// that lies ahead, and the default of sixty seconds otherwise.
pub proof fn lemma_delay_is_never_negative(next: Option<int>, now: Timestamp)
    ensures
        delay_nanos(next, now) >= 0,
        next is None ==> delay_nanos(next, now) == 60_000_000_000,
        next matches Some(t) ==> (if t * 1_000_000_000 >= now.as_nanos() {
            now.as_nanos() + delay_nanos(next, now) == t * 1_000_000_000
        } else {
            delay_nanos(next, now) == 60_000_000_000
        }),
{
}

} // verus!
