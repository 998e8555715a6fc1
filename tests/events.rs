use crossterm::event::{KeyModifiers, MouseButton};
use tinybit::{frame_interval_ms, key_event, read_step, Event, KeyCode, KeyEvent, MouseEvent, RawInput};

#[test]
fn frame_interval_values() {
    assert_eq!(frame_interval_ms(20), 50);
    assert_eq!(frame_interval_ms(3), 333);
    assert_eq!(frame_interval_ms(1), 1000);
    assert_eq!(frame_interval_ms(60), 16);
    assert_eq!(frame_interval_ms(2000), 0);
}

#[test]
fn frame_interval_fits_a_second() {
    for fps in 1..=1200u64 {
        let ms = frame_interval_ms(fps);
        assert!(ms * fps <= 1000);
        assert!((ms + 1) * fps > 1000);
    }
}

#[test]
fn key_input_becomes_key_event() {
    let k = KeyEvent::new(KeyCode::Char('q'), KeyModifiers::CONTROL);
    assert_eq!(key_event(RawInput::Key(k)), Some(Event::Key(k)));
}

#[test]
fn resize_is_filtered() {
    assert_eq!(key_event(RawInput::Resize(80, 24)), None);
}

#[test]
fn mouse_is_filtered() {
    let m = MouseEvent::Down(MouseButton::Left, 3, 4, KeyModifiers::NONE);
    assert_eq!(key_event(RawInput::Mouse(m)), None);
}

#[test]
fn failed_read_is_skipped() {
    assert_eq!(read_step(None), None);
    let k = KeyEvent::from(KeyCode::Esc);
    assert_eq!(read_step(Some(RawInput::Key(k))), Some(Event::Key(k)));
    assert_eq!(read_step(Some(RawInput::Resize(1, 1))), None);
}
