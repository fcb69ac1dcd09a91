use ndless_async::ticks::{has_time_passed, Span, Ticks};
use ndless_async::timer::{millis_to_ticks, TimeoutError, TimerListener};
use ndless_async::wake::{Poll, WakeMarker};

#[test]
fn armed_timer_scenario() {
    let t0: u32 = 1_000;
    let mut timers = TimerListener::new();
    let timer = timers.sleep_until(t0 + 100);
    assert!(!has_time_passed(t0 + 50, timer.at_tick(&timers)));
    assert!(has_time_passed(t0 + 100, timer.at_tick(&timers)));
    timer.reschedule_ticks(&mut timers, t0 + 100, 50);
    assert!(!has_time_passed(t0 + 100, timer.at_tick(&timers)));
    assert!(!has_time_passed(t0 + 149, timer.at_tick(&timers)));
    assert!(has_time_passed(t0 + 150, timer.at_tick(&timers)));
}

#[test]
fn deadlines_across_wraparound() {
    let deadline: u32 = u32::MAX - 10;
    assert!(!has_time_passed(u32::MAX - 11, deadline));
    assert!(has_time_passed(u32::MAX - 10, deadline));
    assert!(has_time_passed(5, deadline));
    assert!(has_time_passed(deadline.wrapping_add(0x7FFF_FFFF), deadline));
    assert!(!has_time_passed(deadline.wrapping_add(0x8000_0000), deadline));
}

#[test]
fn timer_is_level_triggered() {
    let mut timers = TimerListener::new();
    let timer = timers.sleep_ticks(10, 20);
    assert_eq!(timer.at_tick(&timers), 30);
    assert_eq!(timer.poll(&mut timers, 29), Poll::Pending);
    assert_eq!(timer.poll(&mut timers, 30), Poll::Ready(0));
    assert_eq!(timer.poll(&mut timers, 35), Poll::Ready(5));
}

#[test]
fn timer_overshoot_across_wrap() {
    let mut timers = TimerListener::new();
    let timer = timers.sleep_ticks(u32::MAX - 1, 3);
    assert_eq!(timer.at_tick(&timers), 1);
    assert_eq!(timer.poll(&mut timers, u32::MAX), Poll::Pending);
    assert_eq!(timer.poll(&mut timers, 4), Poll::Ready(3));
}

#[test]
fn reactor_wakes_registered_timer() {
    let mut marker = WakeMarker::new();
    marker.take();
    let mut timers = TimerListener::new();
    let timer = timers.sleep_until(100);
    timers.poll(150, &mut marker);
    assert!(!marker.is_runnable());
    assert_eq!(timer.poll(&mut timers, 50), Poll::Pending);
    timers.poll(60, &mut marker);
    assert!(!marker.is_runnable());
    timers.poll(100, &mut marker);
    assert!(marker.is_runnable());
}

#[test]
fn nearest_deadline_for_sleep() {
    let mut timers = TimerListener::new();
    assert_eq!(timers.config_sleep(0), None);
    let a = timers.sleep_until(500);
    let _b = timers.sleep_until(300);
    let _c = timers.sleep_until(900);
    assert_eq!(timers.config_sleep(100), Some(200));
    timers.cancel(_b);
    assert_eq!(timers.config_sleep(100), Some(400));
    a.reschedule_at(&mut timers, 50);
    assert_eq!(timers.config_sleep(100), Some(800));
    timers.cancel(_c);
    assert_eq!(timers.config_sleep(100), Some(0x7FFF_FFCE));
}

#[test]
fn interval_drifts_instead_of_bursting() {
    let mut timers = TimerListener::new();
    let interval = timers.every_ticks(0, 100);
    assert_eq!(interval.interval_ticks(), 100);
    assert_eq!(interval.poll_next(&mut timers, 50), Poll::Pending);
    assert_eq!(interval.poll_next(&mut timers, 530), Poll::Ready(Some(430)));
    assert_eq!(interval.poll_next(&mut timers, 530), Poll::Pending);
    assert_eq!(interval.poll_next(&mut timers, 629), Poll::Pending);
    assert_eq!(interval.poll_next(&mut timers, 630), Poll::Ready(Some(0)));
}

#[test]
fn interval_reschedule_changes_period() {
    let mut timers = TimerListener::new();
    let mut interval = timers.every_hz(0, 4);
    assert_eq!(interval.interval_ticks(), 8192);
    interval.reschedule_ticks(&mut timers, 10, 40);
    assert_eq!(interval.interval_ticks(), 40);
    assert_eq!(interval.poll_next(&mut timers, 49), Poll::Pending);
    assert_eq!(interval.poll_next(&mut timers, 50), Poll::Ready(Some(0)));
}

#[test]
fn timeout_prefers_the_future() {
    let mut timers = TimerListener::new();
    let t = timers.timeout_ticks(0, 10);
    assert_eq!(t.poll(&mut timers, 5, Poll::<u8>::Pending), Poll::Pending);
    assert_eq!(t.poll(&mut timers, 20, Poll::Ready(4u8)), Poll::Ready(Ok(4)));
    assert_eq!(t.poll(&mut timers, 20, Poll::<u8>::Pending), Poll::Ready(Err(TimeoutError)));
    assert_eq!(TimeoutError.message(), "future has timed out");
}

#[test]
fn millis_and_spans_in_ticks() {
    assert_eq!(millis_to_ticks(1000), 32768);
    assert_eq!(millis_to_ticks(1500), 32768 + 500 * 33);
    assert_eq!(Span::from_millis(250).as_ticks(), 250 * 33);
    assert_eq!(Span::new(2, 0).as_ticks(), 65536);
    let s = Span::from_ticks(32768 + 34);
    assert_eq!(s.as_secs(), 1);
    assert_eq!(s.subsec_nanos(), 1_000_000 + 30_000);
    assert_eq!(Span::new(131072, 0).as_ticks(), 0);
}

#[test]
fn sleep_ms_sets_deadline() {
    let mut timers = TimerListener::new();
    let t = timers.sleep_ms(7, 2);
    assert_eq!(t.at_tick(&timers), 7 + 66);
    let t2 = timers.sleep(7, Span::new(1, 0));
    assert_eq!(t2.at_tick(&timers), 7 + 32768);
}

#[test]
fn interval_constructors_and_rescheduling() {
    let mut timers = TimerListener::new();
    let mut iv = timers.every_ms(0, 10);
    assert_eq!(iv.interval_ticks(), 330);
    assert_eq!(iv.poll_next(&mut timers, 330), Poll::Ready(Some(0)));
    iv.reschedule_ms(&mut timers, 400, 1);
    assert_eq!(iv.interval_ticks(), 33);
    assert_eq!(iv.poll_next(&mut timers, 432), Poll::Pending);
    assert_eq!(iv.poll_next(&mut timers, 433), Poll::Ready(Some(0)));
    iv.reschedule(&mut timers, 500, Span::new(1, 0));
    assert_eq!(iv.interval_ticks(), 32768);
    let span = iv.interval();
    assert_eq!((span.as_secs(), span.subsec_nanos()), (1, 0));
    let every = timers.every(0, Span::from_millis(3));
    assert_eq!(every.interval_ticks(), 99);
    timers.cancel(every.into_timer());
}

#[test]
fn timeout_constructors() {
    let mut timers = TimerListener::new();
    let a = timers.timeout_until(100);
    assert_eq!(a.poll(&mut timers, 99, Poll::<()>::Pending), Poll::Pending);
    assert_eq!(a.poll(&mut timers, 100, Poll::<()>::Pending), Poll::Ready(Err(TimeoutError)));
    let b = timers.timeout_ms(0, 1);
    assert_eq!(b.poll(&mut timers, 32, Poll::<()>::Pending), Poll::Pending);
    assert_eq!(b.poll(&mut timers, 33, Poll::<()>::Pending), Poll::Ready(Err(TimeoutError)));
    let c = timers.timeout(0, Span::new(0, 2_000_000));
    assert_eq!(c.poll(&mut timers, 65, Poll::<()>::Pending), Poll::Pending);
    assert_eq!(c.poll(&mut timers, 66, Poll::<()>::Pending), Poll::Ready(Err(TimeoutError)));
    timers.cancel(a.into_timer());
    assert_eq!(timers.config_sleep(0), Some(33));
}

#[test]
fn reschedule_variants_move_the_deadline() {
    let mut timers = TimerListener::new();
    let t = timers.sleep_until(5);
    t.reschedule_ms(&mut timers, 100, 2);
    assert_eq!(t.at_tick(&timers), 166);
    t.reschedule(&mut timers, 100, Span::new(0, 30_000));
    assert_eq!(t.at_tick(&timers), 101);
    t.reschedule_at(&mut timers, 7);
    assert_eq!(t.at_tick(&timers), 7);
}

#[test]
fn cancelled_slots_are_reused() {
    let mut timers = TimerListener::new();
    let a = timers.sleep_until(10);
    timers.cancel(a);
    assert_eq!(timers.config_sleep(0), None);
    let b = timers.sleep_until(20);
    assert_eq!(b.at_tick(&timers), 20);
    assert_eq!(timers.config_sleep(0), Some(20));
}
