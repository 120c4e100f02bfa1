use glib::futures::{
    interval_callback_answer, seconds_request, sleep, tick_plan, timeout, timeout_outcome, timeout_poll_step,
    FutureWithTimeoutError, Interval, IntervalBuilder, MissedTickBehavior, Raced, SchedulingPrecision,
    SpawnOptions, TimerRequest,
};
use glib::source::{Continue, Priority};
use std::time::Duration;

#[test]
fn test_sleep() {
    let first = sleep(Duration::from_millis(10));
    assert_eq!(
        first.timer(),
        TimerRequest::Milliseconds { priority: Priority::default_priority(), duration: Duration::from_millis(10) }
    );
    let second = sleep(Duration::from_secs(1))
        .priority(Priority::high())
        .precision(SchedulingPrecision::Second);
    assert_eq!(second.timer(), TimerRequest::Seconds { priority: Priority::high(), seconds: 1 });
}

#[test]
fn sleep_in_seconds_truncates_to_whole_seconds() {
    let s = sleep(Duration::from_millis(2999)).precision(SchedulingPrecision::Second);
    assert_eq!(s.timer(), TimerRequest::Seconds { priority: Priority::default_priority(), seconds: 2 });
    assert_eq!(s.duration(), Duration::from_millis(2999));
}

#[test]
fn seconds_request_truncates_to_32_bits() {
    let r = seconds_request(Priority::low(), (1u64 << 32) + 5);
    assert_eq!(r, TimerRequest::Seconds { priority: Priority::low(), seconds: 5 });
}

#[test]
fn timeout_parts_share_the_timer_options() {
    let t = timeout(Duration::from_millis(10), 42u8).priority(Priority::high());
    let (fut, sl) = t.into_parts();
    assert_eq!(fut, 42u8);
    assert_eq!(
        sl.timer(),
        TimerRequest::Milliseconds { priority: Priority::high(), duration: Duration::from_millis(10) }
    );
    let t2 = timeout(Duration::from_secs(3), ()).precision(SchedulingPrecision::Second);
    let (_, sl2) = t2.into_parts();
    assert_eq!(sl2.timer(), TimerRequest::Seconds { priority: Priority::default_priority(), seconds: 3 });
}

#[test]
fn timeout_outcomes() {
    assert_eq!(timeout_outcome(Raced::Future(2)), Ok(2));
    assert_eq!(timeout_outcome::<i32>(Raced::Timer), Err(FutureWithTimeoutError));
}

#[test]
fn interval_builder_options() {
    let b = IntervalBuilder::new(Duration::from_secs(1))
        .priority(Priority::high())
        .precision(SchedulingPrecision::Second)
        .missed_tick_behavior(MissedTickBehavior::Skip);
    assert_eq!(b.timer(), TimerRequest::Seconds { priority: Priority::high(), seconds: 1 });
    assert_eq!(b.get_missed_tick_behavior(), MissedTickBehavior::Skip);
    let d = IntervalBuilder::new(Duration::from_millis(1));
    assert_eq!(d.get_missed_tick_behavior(), MissedTickBehavior::Burst);
    assert_eq!(
        d.clone().timer(),
        TimerRequest::Milliseconds { priority: Priority::default_priority(), duration: Duration::from_millis(1) }
    );
}

#[test]
fn tick_plans() {
    let burst = tick_plan(MissedTickBehavior::Burst);
    assert!(!burst.reset && !burst.drain);
    let delay = tick_plan(MissedTickBehavior::Delay);
    assert!(delay.reset && !delay.drain);
    let skip = tick_plan(MissedTickBehavior::Skip);
    assert!(!skip.reset && skip.drain);
    assert_eq!(interval_callback_answer(true), Continue(true));
    assert_eq!(interval_callback_answer(false), Continue(false));
}

#[test]
fn spawn_options() {
    let opts: SpawnOptions<&str> = SpawnOptions::new();
    let (ctx, prio) = opts.spawn_target();
    assert_eq!(ctx, None);
    assert_eq!(prio, Priority::default_priority());
    let mut opts2: SpawnOptions<&str> = SpawnOptions::new();
    opts2.context("main").priority(Priority::high());
    let (ctx2, prio2) = opts2.spawn_target();
    assert_eq!(ctx2, Some(&"main"));
    assert_eq!(prio2, Priority::high());
    let opts3 = SpawnOptions::from_context(7u32);
    assert_eq!(opts3.spawn_target(), (Some(&7u32), Priority::default_priority()));
}

#[test]
fn precision_and_behaviour_defaults() {
    assert_eq!(SchedulingPrecision::default(), SchedulingPrecision::Millisecond);
    assert_eq!(MissedTickBehavior::default(), MissedTickBehavior::Burst);
}

#[test]
fn interval_keeps_options_and_swaps_sources() {
    let b = IntervalBuilder::new(Duration::from_millis(5)).priority(Priority::low());
    let mut iv: Interval<&str, Vec<u8>> = Interval::new(b, "first", vec![1]);
    assert_eq!(iv.missed_tick_behavior(), MissedTickBehavior::Burst);
    let plan = iv.tick_plan();
    assert!(!plan.reset && !plan.drain);
    iv.set_missed_tick_behavior(MissedTickBehavior::Delay);
    assert_eq!(iv.missed_tick_behavior(), MissedTickBehavior::Delay);
    assert!(iv.tick_plan().reset);
    assert_eq!(
        iv.timer(),
        TimerRequest::Milliseconds { priority: Priority::low(), duration: Duration::from_millis(5) }
    );
    let (old_source, old_chan) = iv.replace_source("second", vec![2, 3]);
    assert_eq!(old_source, "first");
    assert_eq!(old_chan, vec![1]);
    iv.source_chan_mut().push(4);
    assert_eq!(iv.into_stream(), vec![2, 3, 4]);
}

#[test]
fn timeout_poll_steps() {
    assert_eq!(timeout_poll_step::<i32>(None, false), None);
    assert_eq!(timeout_poll_step::<i32>(None, true), Some(Err(FutureWithTimeoutError)));
    assert_eq!(timeout_poll_step(Some(4), false), Some(Ok(4)));
    assert_eq!(timeout_poll_step(Some(()), true), Some(Ok(())));
}
