use ndless_async::executor::{AsyncListeners, Executor, SleepPlan, Step};
use ndless_async::input::Key;
use ndless_async::keypad::{KeyEvent, KeyState};
use ndless_async::mpsc::channel;
use ndless_async::wake::Poll;

#[test]
fn task_is_polled_first_even_when_nothing_fires() {
    let mut listeners = AsyncListeners::new();
    let mut exec = Executor::new();
    exec.poll_reactors(&mut listeners, 0, &vec![]);
    assert_eq!(exec.next_step(&listeners, 0), Step::PollTask);
    exec.poll_reactors(&mut listeners, 1, &vec![]);
    assert_eq!(exec.next_step(&listeners, 1), Step::Idle(SleepPlan::Keep));
}

#[test]
fn sleep_plan_follows_timers_and_keypad() {
    let mut listeners = AsyncListeners::new();
    let mut exec = Executor::new();
    let _t = listeners.timer.sleep_until(1000);
    exec.poll_reactors(&mut listeners, 0, &vec![]);
    assert_eq!(exec.next_step(&listeners, 0), Step::PollTask);
    assert_eq!(exec.next_step(&listeners, 400), Step::Idle(SleepPlan::Ticks(600)));
    let _k = listeners.keypad();
    assert_eq!(exec.next_step(&listeners, 400), Step::Idle(SleepPlan::Disable));
}

#[test]
fn reactor_events_reach_the_task() {
    let mut listeners = AsyncListeners::new();
    let mut exec = Executor::new();
    let stream = listeners.keypad();
    exec.poll_reactors(&mut listeners, 0, &vec![]);
    assert_eq!(exec.next_step(&listeners, 0), Step::PollTask);
    assert_eq!(listeners.keypad.poll_next(&stream), Poll::Pending);
    let events = exec.poll_reactors(&mut listeners, 5, &vec![Key::Enter]);
    assert_eq!(events, vec![KeyEvent { key: Key::Enter, state: KeyState::Pressed }]);
    assert_eq!(exec.next_step(&listeners, 5), Step::PollTask);
    assert_eq!(
        listeners.keypad.poll_next(&stream),
        Poll::Ready(Some(KeyEvent { key: Key::Enter, state: KeyState::Pressed }))
    );
}

#[test]
fn yield_is_pending_once() {
    let mut listeners = AsyncListeners::new();
    let mut exec = Executor::new();
    exec.next_step(&listeners, 0);
    let y = listeners.yield_now();
    assert_eq!(y.poll(&mut listeners.yielder), Poll::Pending);
    exec.poll_reactors(&mut listeners, 0, &vec![]);
    assert_eq!(exec.next_step(&listeners, 0), Step::PollTask);
    assert_eq!(y.poll(&mut listeners.yielder), Poll::Ready(()));
    listeners.yielder.finish(y);
}

#[test]
fn explicit_wake_requests_a_poll() {
    let listeners = AsyncListeners::new();
    let mut exec = Executor::new();
    assert_eq!(exec.next_step(&listeners, 0), Step::PollTask);
    exec.wake();
    exec.wake();
    assert_eq!(exec.next_step(&listeners, 0), Step::PollTask);
    assert_eq!(exec.next_step(&listeners, 0), Step::Idle(SleepPlan::Keep));
}

#[test]
fn sending_wakes_a_waiting_receiver() {
    let listeners = AsyncListeners::new();
    let mut exec = Executor::new();
    assert_eq!(exec.next_step(&listeners, 0), Step::PollTask);
    let mut ch = channel::<u8>(1);
    assert_eq!(ch.senders(), 1);
    assert_eq!(exec.send(&mut ch, 1), Ok(()));
    assert_eq!(exec.next_step(&listeners, 0), Step::Idle(SleepPlan::Keep));
    assert_eq!(ch.poll_next(), Poll::Ready(Some(1)));
    assert_eq!(ch.poll_next(), Poll::Pending);
    assert_eq!(exec.send(&mut ch, 2), Ok(()));
    assert_eq!(exec.send(&mut ch, 3), Err(3));
    assert_eq!(exec.next_step(&listeners, 0), Step::PollTask);
}
