use std::time::Duration;
use vstd::prelude::*;

use crate::source::{Continue, Priority};

verus! {

/// The whole seconds of a duration, as `Duration::as_secs` gives them.
pub uninterp spec fn duration_secs(d: Duration) -> u64;

/// Calls `Duration::as_secs`; the result is named `duration_secs`.
#[verifier::external_body]
fn duration_as_secs(d: &Duration) -> (r: u64)
    ensures
        r == duration_secs(*d),
{
    d.as_secs()
}

/// How precisely a timer is scheduled.
#[derive(Clone, Copy, Debug, PartialEq, Eq, Structural)]
pub enum SchedulingPrecision {
    /// To the millisecond.
    Millisecond,
    /// To the second, which lets the main loop group wake-ups.
    Second,
}

impl Default for SchedulingPrecision {
    fn default() -> (r: SchedulingPrecision)
        ensures
            r == SchedulingPrecision::Millisecond,
    {
        SchedulingPrecision::Millisecond
    }
}

/// The timer source to create: a millisecond timeout of the given duration,
/// or a seconds timeout of the given number of seconds.
#[derive(Debug, PartialEq, Eq)]
pub enum TimerRequest {
    Milliseconds { priority: Priority, duration: Duration },
    Seconds { priority: Priority, seconds: u32 },
}

/// The seconds timer for a duration of `whole_secs` whole seconds; the
/// count is truncated to 32 bits.
pub fn seconds_request(priority: Priority, whole_secs: u64) -> (r: TimerRequest)
    ensures
        r == (TimerRequest::Seconds { priority, seconds: whole_secs as u32 }),
{
    #[verifier::truncate]
    let seconds = whole_secs as u32;
    TimerRequest::Seconds { priority, seconds }
}

/// The timer for a duration at a priority and a precision.
pub open spec fn spec_timer(duration: Duration, priority: Priority, precision: SchedulingPrecision) -> TimerRequest {
    match precision {
        SchedulingPrecision::Millisecond => TimerRequest::Milliseconds { priority, duration },
        SchedulingPrecision::Second => TimerRequest::Seconds { priority, seconds: duration_secs(duration) as u32 },
    }
}

/// Chooses the timer for a duration at a priority and a precision.
pub fn timer_request(duration: Duration, priority: Priority, precision: SchedulingPrecision) -> (r: TimerRequest)
    ensures
        r == spec_timer(duration, priority, precision),
{
    match precision {
        SchedulingPrecision::Millisecond => TimerRequest::Milliseconds { priority, duration },
        SchedulingPrecision::Second => {
            let secs = duration_as_secs(&duration);
            seconds_request(priority, secs)
        },
    }
}

/// Options of a future that completes once a duration has passed.
#[derive(Debug, PartialEq, Eq)]
pub struct Sleep {
    duration: Duration,
    priority: Priority,
    precision: SchedulingPrecision,
}

impl Sleep {
    /// How long to sleep.
    pub closed spec fn spec_duration(&self) -> Duration {
        self.duration
    }

    /// The priority of the timer.
    pub closed spec fn spec_priority(&self) -> Priority {
        self.priority
    }

    /// The precision of the timer.
    pub closed spec fn spec_precision(&self) -> SchedulingPrecision {
        self.precision
    }

    /// Sets the priority of the timer.
    pub fn priority(self, priority: Priority) -> (r: Sleep)
        ensures
            r.spec_duration() == self.spec_duration(),
            r.spec_priority() == priority,
            r.spec_precision() == self.spec_precision(),
    {
        let mut s = self;
        s.priority = priority;
        s
    }

    /// Sets the precision of the timer.
    pub fn precision(self, precision: SchedulingPrecision) -> (r: Sleep)
        ensures
            r.spec_duration() == self.spec_duration(),
            r.spec_priority() == self.spec_priority(),
            r.spec_precision() == precision,
    {
        let mut s = self;
        s.precision = precision;
        s
    }

    /// The duration to sleep.
    pub fn duration(&self) -> (r: Duration)
        ensures
            r == self.spec_duration(),
    {
        self.duration
    }

    /// The timer that completes the sleep.
    pub fn timer(&self) -> (r: TimerRequest)
        ensures
            r == spec_timer(self.spec_duration(), self.spec_priority(), self.spec_precision()),
    {
        timer_request(self.duration, self.priority, self.precision)
    }
}

impl Clone for Sleep {
    fn clone(&self) -> (r: Sleep)
        ensures
            r == *self,
    {
        Sleep { duration: self.duration, priority: self.priority, precision: self.precision }
    }
}

/// A sleep of `duration` at the default priority and to the millisecond.
pub fn sleep(duration: Duration) -> (r: Sleep)
    ensures
        r.spec_duration() == duration,
        r.spec_priority().spec_value() == 0,
        r.spec_precision() == SchedulingPrecision::Millisecond,
{
    Sleep { duration, priority: Priority::default_priority(), precision: SchedulingPrecision::Millisecond }
}

/// Options of a future that races `future` against a timer: it gives the
/// future's output, or an error once the duration has passed first.
#[derive(Debug, PartialEq, Eq)]
pub struct Timeout<F> {
    duration: Duration,
    priority: Priority,
    precision: SchedulingPrecision,
    future: F,
}

impl<F> Timeout<F> {
    /// How long to wait for the future.
    pub closed spec fn spec_duration(&self) -> Duration {
        self.duration
    }

    /// The priority of the timer.
    pub closed spec fn spec_priority(&self) -> Priority {
        self.priority
    }

    /// The precision of the timer.
    pub closed spec fn spec_precision(&self) -> SchedulingPrecision {
        self.precision
    }

    /// The future raced against the timer.
    pub closed spec fn spec_future(&self) -> F {
        self.future
    }

    /// Sets the priority of the timer.
    pub fn priority(self, priority: Priority) -> (r: Timeout<F>)
        ensures
            r.spec_duration() == self.spec_duration(),
            r.spec_priority() == priority,
            r.spec_precision() == self.spec_precision(),
            r.spec_future() == self.spec_future(),
    {
        let mut t = self;
        t.priority = priority;
        t
    }

    /// Sets the precision of the timer.
    pub fn precision(self, precision: SchedulingPrecision) -> (r: Timeout<F>)
        ensures
            r.spec_duration() == self.spec_duration(),
            r.spec_priority() == self.spec_priority(),
            r.spec_precision() == precision,
            r.spec_future() == self.spec_future(),
    {
        let mut t = self;
        t.precision = precision;
        t
    }

    /// The future and the sleep it races against: same duration, priority
    /// and precision.
    pub fn into_parts(self) -> (r: (F, Sleep))
        ensures
            r.0 == self.spec_future(),
            r.1.spec_duration() == self.spec_duration(),
            r.1.spec_priority() == self.spec_priority(),
            r.1.spec_precision() == self.spec_precision(),
    {
        let Timeout { duration, priority, precision, future } = self;
        (future, Sleep { duration, priority, precision })
    }
}

/// Races `future` against a timer of `duration`, at the default priority and
/// to the millisecond.
pub fn timeout<F>(duration: Duration, future: F) -> (r: Timeout<F>)
    ensures
        r.spec_duration() == duration,
        r.spec_priority().spec_value() == 0,
        r.spec_precision() == SchedulingPrecision::Millisecond,
        r.spec_future() == future,
{
    Timeout { duration, priority: Priority::default_priority(), precision: SchedulingPrecision::Millisecond, future }
}

/// The error of a timeout whose timer fired before the future completed.
#[derive(Clone, Copy, Debug, PartialEq, Eq, Structural)]
pub struct FutureWithTimeoutError;

/// Which side of a race finished first.
pub enum Raced<T> {
    /// The future, with its output.
    Future(T),
    /// The timer.
    Timer,
}

/// The outcome of a timeout once the race has a winner.
pub fn timeout_outcome<T>(winner: Raced<T>) -> (r: Result<T, FutureWithTimeoutError>)
    ensures
        match winner {
            Raced::Future(v) => r == Ok::<T, FutureWithTimeoutError>(v),
            Raced::Timer => r == Err::<T, FutureWithTimeoutError>(FutureWithTimeoutError),
        },
{
    match winner {
        Raced::Future(v) => Ok(v),
        Raced::Timer => Err(FutureWithTimeoutError),
    }
}

/// One poll of a timeout: `future_output` is what polling the future gave
/// (`None` while it is not done), `timer_fired` whether the timer has fired.
/// The future is polled first, so it wins when both are ready; the answer is
/// `None` (pending) while neither is done.
pub fn timeout_poll_step<T>(future_output: Option<T>, timer_fired: bool) -> (r: Option<
    Result<T, FutureWithTimeoutError>,
>)
    ensures
        match future_output {
            Some(v) => r == Some(Ok::<T, FutureWithTimeoutError>(v)),
            None => if timer_fired {
                r == Some(Err::<T, FutureWithTimeoutError>(FutureWithTimeoutError))
            } else {
                r is None
            },
        },
{
    match future_output {
        Some(v) => Some(timeout_outcome(Raced::Future(v))),
        None => if timer_fired {
            Some(timeout_outcome(Raced::Timer))
        } else {
            None
        },
    }
}

/// What an interval does with ticks that were missed.
#[derive(Clone, Copy, Debug, PartialEq, Eq, Structural)]
pub enum MissedTickBehavior {
    /// Delivers each missed tick, one after the other.
    Burst,
    /// Restarts the period from the moment of the tick.
    Delay,
    /// Drops the missed ticks and waits for the next one.
    Skip,
}

impl Default for MissedTickBehavior {
    fn default() -> (r: MissedTickBehavior)
        ensures
            r == MissedTickBehavior::Burst,
    {
        MissedTickBehavior::Burst
    }
}

/// The steps of a tick of an interval, before it waits for the next tick of
/// its source: whether the source is first recreated, and whether pending
/// ticks are first dropped.
#[derive(Clone, Copy, Debug, PartialEq, Eq, Structural)]
pub struct TickPlan {
    pub reset: bool,
    pub drain: bool,
}

/// The steps of a tick for the behaviour `behavior`.
pub fn tick_plan(behavior: MissedTickBehavior) -> (r: TickPlan)
    ensures
        r.reset <==> behavior == MissedTickBehavior::Delay,
        r.drain <==> behavior == MissedTickBehavior::Skip,
{
    match behavior {
        MissedTickBehavior::Burst => TickPlan { reset: false, drain: false },
        MissedTickBehavior::Delay => TickPlan { reset: true, drain: false },
        MissedTickBehavior::Skip => TickPlan { reset: false, drain: true },
    }
}

/// The answer of an interval's timer callback: it keeps firing while its
/// ticks can still be delivered.
pub fn interval_callback_answer(delivered: bool) -> (r: Continue)
    ensures
        r == Continue(delivered),
{
    if delivered {
        Continue(true)
    } else {
        Continue(false)
    }
}

/// Options of an interval that ticks every `period`.
#[derive(Debug, PartialEq, Eq)]
pub struct IntervalBuilder {
    priority: Priority,
    precision: SchedulingPrecision,
    period: Duration,
    missed_tick_behavior: MissedTickBehavior,
}

impl IntervalBuilder {
    /// The period of the ticks.
    pub closed spec fn spec_period(&self) -> Duration {
        self.period
    }

    /// The priority of the timer.
    pub closed spec fn spec_priority(&self) -> Priority {
        self.priority
    }

    /// The precision of the timer.
    pub closed spec fn spec_precision(&self) -> SchedulingPrecision {
        self.precision
    }

    /// What happens to missed ticks.
    pub closed spec fn spec_missed_tick_behavior(&self) -> MissedTickBehavior {
        self.missed_tick_behavior
    }

    /// An interval of `period` at the default priority, to the millisecond,
    /// delivering missed ticks in a burst.
    pub fn new(period: Duration) -> (r: IntervalBuilder)
        ensures
            r.spec_period() == period,
            r.spec_priority().spec_value() == 0,
            r.spec_precision() == SchedulingPrecision::Millisecond,
            r.spec_missed_tick_behavior() == MissedTickBehavior::Burst,
    {
        IntervalBuilder {
            priority: Priority::default_priority(),
            precision: SchedulingPrecision::default(),
            period,
            missed_tick_behavior: MissedTickBehavior::default(),
        }
    }

    /// Sets the precision of the timer.
    pub fn precision(self, precision: SchedulingPrecision) -> (r: IntervalBuilder)
        ensures
            r.spec_period() == self.spec_period(),
            r.spec_priority() == self.spec_priority(),
            r.spec_precision() == precision,
            r.spec_missed_tick_behavior() == self.spec_missed_tick_behavior(),
    {
        let mut b = self;
        b.precision = precision;
        b
    }

    /// Sets the priority of the timer.
    pub fn priority(self, priority: Priority) -> (r: IntervalBuilder)
        ensures
            r.spec_period() == self.spec_period(),
            r.spec_priority() == priority,
            r.spec_precision() == self.spec_precision(),
            r.spec_missed_tick_behavior() == self.spec_missed_tick_behavior(),
    {
        let mut b = self;
        b.priority = priority;
        b
    }

    /// Sets what happens to missed ticks.
    pub fn missed_tick_behavior(self, missed_tick_behavior: MissedTickBehavior) -> (r: IntervalBuilder)
        ensures
            r.spec_period() == self.spec_period(),
            r.spec_priority() == self.spec_priority(),
            r.spec_precision() == self.spec_precision(),
            r.spec_missed_tick_behavior() == missed_tick_behavior,
    {
        let mut b = self;
        b.missed_tick_behavior = missed_tick_behavior;
        b
    }

    /// What happens to missed ticks.
    pub fn get_missed_tick_behavior(&self) -> (r: MissedTickBehavior)
        ensures
            r == self.spec_missed_tick_behavior(),
    {
        self.missed_tick_behavior
    }

    /// The repeating timer that drives the interval.
    pub fn timer(&self) -> (r: TimerRequest)
        ensures
            r == spec_timer(self.spec_period(), self.spec_priority(), self.spec_precision()),
    {
        timer_request(self.period, self.priority, self.precision)
    }
}

impl Clone for IntervalBuilder {
    fn clone(&self) -> (r: IntervalBuilder)
        ensures
            r == *self,
    {
        IntervalBuilder {
            priority: self.priority,
            precision: self.precision,
            period: self.period,
            missed_tick_behavior: self.missed_tick_behavior,
        }
    }
}

/// An interval: its options, the timer source that drives it (of type `S`)
/// and the receiving end of the channel its ticks arrive on (of type `R`).
pub struct Interval<S, R> {
    builder: IntervalBuilder,
    source: S,
    source_chan: R,
}

impl<S, R> Interval<S, R> {
    /// The options of the interval.
    pub closed spec fn spec_builder(&self) -> IntervalBuilder {
        self.builder
    }

    /// The timer source.
    pub closed spec fn spec_source(&self) -> S {
        self.source
    }

    /// The receiving end of the channel of ticks.
    pub closed spec fn spec_source_chan(&self) -> R {
        self.source_chan
    }

    /// The interval with the options `builder`, driven by `source`, whose
    /// ticks arrive on `source_chan`.
    pub fn new(builder: IntervalBuilder, source: S, source_chan: R) -> (r: Interval<S, R>)
        ensures
            r.spec_builder() == builder,
            r.spec_source() == source,
            r.spec_source_chan() == source_chan,
    {
        Interval { builder, source, source_chan }
    }

    /// What happens to missed ticks.
    pub fn missed_tick_behavior(&self) -> (r: MissedTickBehavior)
        ensures
            r == self.spec_builder().spec_missed_tick_behavior(),
    {
        self.builder.get_missed_tick_behavior()
    }

    /// Sets what happens to missed ticks; the rest stays.
    pub fn set_missed_tick_behavior(&mut self, missed_tick_behavior: MissedTickBehavior)
        ensures
            final(self).spec_builder().spec_missed_tick_behavior() == missed_tick_behavior,
            final(self).spec_builder().spec_period() == old(self).spec_builder().spec_period(),
            final(self).spec_builder().spec_priority() == old(self).spec_builder().spec_priority(),
            final(self).spec_builder().spec_precision() == old(self).spec_builder().spec_precision(),
            final(self).spec_source() == old(self).spec_source(),
            final(self).spec_source_chan() == old(self).spec_source_chan(),
    {
        let b = self.builder.clone().missed_tick_behavior(missed_tick_behavior);
        self.builder = b;
    }

    /// The steps of the next tick.
    pub fn tick_plan(&self) -> (r: TickPlan)
        ensures
            r.reset <==> self.spec_builder().spec_missed_tick_behavior() == MissedTickBehavior::Delay,
            r.drain <==> self.spec_builder().spec_missed_tick_behavior() == MissedTickBehavior::Skip,
    {
        tick_plan(self.builder.get_missed_tick_behavior())
    }

    /// The timer to create when the interval is reset.
    pub fn timer(&self) -> (r: TimerRequest)
        ensures
            r == spec_timer(
                self.spec_builder().spec_period(),
                self.spec_builder().spec_priority(),
                self.spec_builder().spec_precision(),
            ),
    {
        self.builder.timer()
    }

    /// Replaces the timer source and its channel, as a reset does, and gives
    /// back the old ones.
    pub fn replace_source(&mut self, source: S, source_chan: R) -> (r: (S, R))
        ensures
            r.0 == old(self).spec_source(),
            r.1 == old(self).spec_source_chan(),
            final(self).spec_source() == source,
            final(self).spec_source_chan() == source_chan,
            final(self).spec_builder() == old(self).spec_builder(),
    {
        let mut s = source;
        std::mem::swap(&mut self.source, &mut s);
        let mut c = source_chan;
        std::mem::swap(&mut self.source_chan, &mut c);
        (s, c)
    }

    /// The receiving end of the channel of ticks, to wait on.
    pub fn source_chan_mut(&mut self) -> (r: &mut R)
        ensures
            *r == old(self).spec_source_chan(),
            final(self).spec_source_chan() == *final(r),
            final(self).spec_source() == old(self).spec_source(),
            final(self).spec_builder() == old(self).spec_builder(),
    {
        &mut self.source_chan
    }

    /// Gives up the interval's options and source, keeping the stream of its
    /// ticks.
    pub fn into_stream(self) -> (r: R)
        ensures
            r == self.spec_source_chan(),
    {
        self.source_chan
    }
}

/// Where and how urgently to run a future: a main context (the default one
/// when none is given) and a priority.
#[derive(Clone, Debug, PartialEq, Eq)]
pub struct SpawnOptions<C> {
    priority: Priority,
    context: Option<C>,
}

impl<C> Default for SpawnOptions<C> {
    /// The same as `SpawnOptions::new`.
    fn default() -> (r: SpawnOptions<C>)
        ensures
            r.spec_priority().spec_value() == 0,
            r.spec_context() is None,
    {
        SpawnOptions::new()
    }
}

impl<C> SpawnOptions<C> {
    /// The priority of the spawned futures.
    pub closed spec fn spec_priority(&self) -> Priority {
        self.priority
    }

    /// The context to spawn on, if one was chosen.
    pub closed spec fn spec_context(&self) -> Option<C> {
        self.context
    }

    /// The default priority, on the default context.
    pub fn new() -> (r: SpawnOptions<C>)
        ensures
            r.spec_priority().spec_value() == 0,
            r.spec_context() is None,
    {
        SpawnOptions { priority: Priority::default_priority(), context: None }
    }

    /// The options on the context `context`, at the default priority.
    pub fn from_context(context: C) -> (r: SpawnOptions<C>)
        ensures
            r.spec_priority().spec_value() == 0,
            r.spec_context() == Some(context),
    {
        let mut opts = SpawnOptions::new();
        opts.context(context);
        opts
    }

    /// Sets the priority.
    pub fn priority(&mut self, priority: Priority) -> (r: &mut SpawnOptions<C>)
        ensures
            r.spec_priority() == priority,
            r.spec_context() == old(self).spec_context(),
            *final(self) == *final(r),
    {
        self.priority = priority;
        self
    }

    /// Chooses the context to spawn on.
    pub fn context(&mut self, context: C) -> (r: &mut SpawnOptions<C>)
        ensures
            r.spec_priority() == old(self).spec_priority(),
            r.spec_context() == Some(context),
            *final(self) == *final(r),
    {
        self.context = Some(context);
        self
    }

    /// Where to spawn: the chosen context, or none for the default one; and
    /// at which priority.
    pub fn spawn_target(&self) -> (r: (Option<&C>, Priority))
        ensures
            r.0 == match self.spec_context() {
                Some(c) => Some(&c),
                None => None::<&C>,
            },
            r.1 == self.spec_priority(),
    {
        (self.context.as_ref(), self.priority)
    }
}

} // verus!
