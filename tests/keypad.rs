use ndless_async::input::Key;
use ndless_async::keypad::{diff_keys, KeyEvent, KeyState, KeypadListener};
use ndless_async::wake::{Poll, WakeMarker};

fn pressed(key: Key) -> KeyEvent {
    KeyEvent { key, state: KeyState::Pressed }
}

fn released(key: Key) -> KeyEvent {
    KeyEvent { key, state: KeyState::Released }
}

#[test]
fn diff_reports_presses_then_releases() {
    let mut keys = vec![Key::A, Key::B, Key::C];
    let events = diff_keys(&mut keys, &vec![Key::C, Key::D, Key::A]);
    assert_eq!(keys, vec![Key::C, Key::D, Key::A]);
    assert_eq!(events, vec![pressed(Key::D), released(Key::B)]);
}

#[test]
fn diff_from_nothing_and_to_nothing() {
    let mut keys = Vec::new();
    let events = diff_keys(&mut keys, &vec![Key::Esc, Key::Enter]);
    assert_eq!(events, vec![pressed(Key::Esc), pressed(Key::Enter)]);
    let events = diff_keys(&mut keys, &vec![]);
    assert_eq!(keys, Vec::<Key>::new());
    assert_eq!(events.len(), 2);
    assert!(events.contains(&released(Key::Esc)));
    assert!(events.contains(&released(Key::Enter)));
}

#[test]
fn diff_of_unchanged_keys_is_empty() {
    let mut keys = vec![Key::Up, Key::Left];
    let events = diff_keys(&mut keys, &vec![Key::Left, Key::Up]);
    assert!(events.is_empty());
    assert_eq!(keys, vec![Key::Left, Key::Up]);
}

#[test]
fn per_key_transitions_over_many_samples() {
    let samples = vec![
        vec![Key::A],
        vec![Key::A, Key::B, Key::C, Key::D, Key::E, Key::F, Key::G, Key::H],
        vec![Key::H, Key::B],
        vec![],
        vec![Key::A],
    ];
    let mut keys = Vec::new();
    let mut stream = Vec::new();
    for s in &samples {
        stream.extend(diff_keys(&mut keys, s));
    }
    let a: Vec<KeyState> = stream.iter().filter(|e| e.key == Key::A).map(|e| e.state).collect();
    assert_eq!(a, vec![KeyState::Pressed, KeyState::Released, KeyState::Pressed]);
    let b: Vec<KeyState> = stream.iter().filter(|e| e.key == Key::B).map(|e| e.state).collect();
    assert_eq!(b, vec![KeyState::Pressed, KeyState::Released]);
    let c: Vec<KeyState> = stream.iter().filter(|e| e.key == Key::C).map(|e| e.state).collect();
    assert_eq!(c, vec![KeyState::Pressed, KeyState::Released]);
    assert_eq!(stream.len(), 1 + 7 + 6 + 2 + 1);
}

#[test]
fn two_streams_see_the_same_events() {
    let mut marker = WakeMarker::new();
    let mut pad = KeypadListener::new();
    let s1 = pad.stream();
    let s2 = pad.stream();
    pad.poll(&vec![Key::A, Key::B], &mut marker);
    pad.poll(&vec![Key::B], &mut marker);
    let mut got1 = Vec::new();
    let mut got2 = Vec::new();
    while let Poll::Ready(Some(e)) = pad.poll_next(&s1) {
        got1.push(e);
    }
    while let Poll::Ready(Some(e)) = pad.poll_next(&s2) {
        got2.push(e);
    }
    assert_eq!(got1, vec![pressed(Key::A), pressed(Key::B), released(Key::A)]);
    assert_eq!(got1, got2);
    assert_eq!(pad.list_keys(), &vec![Key::B]);
}

#[test]
fn full_stream_drops_events() {
    let mut marker = WakeMarker::new();
    let mut pad = KeypadListener::new();
    let small = pad.stream_with_buffer(1);
    pad.poll(&vec![Key::A, Key::B], &mut marker);
    assert_eq!(pad.poll_next(&small), Poll::Ready(Some(pressed(Key::A))));
    assert_eq!(pad.poll_next(&small), Poll::Pending);
}

#[test]
fn no_sampling_without_subscribers() {
    let mut marker = WakeMarker::new();
    let mut pad = KeypadListener::new();
    assert!(!pad.is_listening());
    let events = pad.poll(&vec![Key::A], &mut marker);
    assert!(events.is_empty());
    assert!(pad.list_keys().is_empty());
    let s = pad.stream();
    assert!(pad.is_listening());
    pad.close(s);
    assert!(!pad.is_listening());
    let s2 = pad.stream();
    assert!(pad.is_listening());
    let events = pad.poll(&vec![Key::A], &mut marker);
    assert_eq!(events, vec![pressed(Key::A)]);
    assert_eq!(pad.poll_next(&s2), Poll::Ready(Some(pressed(Key::A))));
}

#[test]
fn key_events_wake_a_waiting_stream() {
    let mut marker = WakeMarker::new();
    marker.take();
    let mut pad = KeypadListener::new();
    let s = pad.stream();
    assert_eq!(pad.poll_next(&s), Poll::Pending);
    pad.poll(&vec![], &mut marker);
    assert!(!marker.is_runnable());
    pad.poll(&vec![Key::Esc], &mut marker);
    assert!(marker.is_runnable());
}
