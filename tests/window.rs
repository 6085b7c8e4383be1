use birb::window::{Event, Key, Window};

#[test]
fn keys_from_characters() {
    assert_eq!(Key::from_char('q'), Some(Key::Q));
    assert_eq!(Key::from_char('Q'), Some(Key::Q));
    assert_eq!(Key::from_char('7'), Some(Key::Key7));
    assert_eq!(Key::from_char(' '), Some(Key::Space));
    assert_eq!(Key::from_char('\t'), Some(Key::Tab));
    assert_eq!(Key::from_char('?'), Some(Key::Question));
    assert_eq!(Key::from_char('\\'), Some(Key::Backslash));
    assert_eq!(Key::from_char('é'), None);
    assert_eq!(Key::from_char('!'), None);
}

#[test]
fn press_and_release() {
    let mut w = Window::new();
    assert!(!w.is_down(Key::A));
    w.submit(Event::KeyPress(Key::A));
    w.submit(Event::KeyPress(Key::B));
    w.submit(Event::KeyPress(Key::A));
    assert!(w.is_down(Key::A));
    assert!(w.is_down(Key::B));
    w.submit(Event::KeyRelease(Key::A));
    assert!(!w.is_down(Key::A));
    assert!(w.is_down(Key::B));
    w.submit(Event::KeyRelease(Key::C));
    assert!(w.is_down(Key::B));
}
