use chemu::keyboard::InputEvent;
use chemu::keyboard::Key;
use chemu::keyboard::KeyEvent;
use chemu::keyboard::Keyboard;

fn down(code: i32) -> InputEvent {
    InputEvent::KeyDown { keycode: Some(code) }
}

fn up(code: i32) -> InputEvent {
    InputEvent::KeyUp { keycode: Some(code) }
}

#[test]
fn keys_have_the_codes_of_their_digits() {
    let codes = "0123456789abcdef";
    for (value, character) in codes.chars().enumerate() {
        let code = character as i32;
        assert_eq!(Key::from_keycode(code), Some(Key(value as u8)));
        assert_eq!(Key(value as u8).keycode(), Some(code));
    }
}

#[test]
fn other_codes_are_no_keys() {
    for code in [0, 47, 58, 96, 103, 65, 70, -1, i32::MAX, i32::MIN, 1073741906] {
        assert_eq!(Key::from_keycode(code), None);
    }
    assert_eq!(Key(16).keycode(), None);
    assert_eq!(Key(255).keycode(), None);
}

#[test]
fn nothing_is_held_at_first() {
    let keyboard = Keyboard::new();
    for value in 0..=255u8 {
        assert!(!keyboard.is_pressed(Key(value)));
    }
}

#[test]
fn a_key_is_held_from_down_to_up() {
    let mut keyboard = Keyboard::new();
    assert_eq!(keyboard.process_event(down(53)), Some(KeyEvent::KeyDown(Key(5))));
    assert!(keyboard.is_pressed(Key(5)));
    assert!(!keyboard.is_pressed(Key(4)));
    assert_eq!(keyboard.process_event(down(53)), Some(KeyEvent::KeyDown(Key(5))));
    assert!(keyboard.is_pressed(Key(5)));
    assert_eq!(keyboard.process_event(up(53)), Some(KeyEvent::KeyUp(Key(5))));
    assert!(!keyboard.is_pressed(Key(5)));
    assert_eq!(keyboard.process_event(up(53)), Some(KeyEvent::KeyUp(Key(5))));
}

#[test]
fn events_of_no_concern() {
    let mut keyboard = Keyboard::new();
    assert_eq!(keyboard.process_event(InputEvent::Other), None);
    assert_eq!(keyboard.process_event(InputEvent::KeyDown { keycode: None }), None);
    assert_eq!(keyboard.process_event(InputEvent::KeyUp { keycode: None }), None);
    assert_eq!(keyboard.process_event(down(32)), None);
    assert_eq!(keyboard.process_event(up(32)), None);
    for value in 0..16u8 {
        assert!(!keyboard.is_pressed(Key(value)));
    }
}

#[test]
fn events_in_their_order() {
    let mut keyboard = Keyboard::new();
    keyboard.process_events(&[down(97), down(49), up(97), InputEvent::Other, down(102), up(48)]);
    assert!(!keyboard.is_pressed(Key(0xA)));
    assert!(keyboard.is_pressed(Key(1)));
    assert!(keyboard.is_pressed(Key(0xF)));
    assert!(!keyboard.is_pressed(Key(0)));
    keyboard.process_events(&[]);
    assert!(keyboard.is_pressed(Key(1)));
}

#[test]
fn next_key_stops_at_the_first_key_down() {
    let mut keyboard = Keyboard::new();
    let events = [InputEvent::Other, down(32), up(49), down(99), down(50)];
    assert_eq!(keyboard.next_key(&events), (Some(Key(0xC)), 4));
    assert!(keyboard.is_pressed(Key(0xC)));
    // What stands behind the key has not been taken note of.
    assert!(!keyboard.is_pressed(Key(2)));
    assert_eq!(keyboard.next_key(&events[4..]), (Some(Key(2)), 1));
    assert!(keyboard.is_pressed(Key(2)));
}

#[test]
fn next_key_without_a_key_down() {
    let mut keyboard = Keyboard::new();
    keyboard.process_events(&[down(49)]);
    assert_eq!(keyboard.next_key(&[up(49), InputEvent::Other, down(13)]), (None, 3));
    assert!(!keyboard.is_pressed(Key(1)));
    assert_eq!(keyboard.next_key(&[]), (None, 0));
}
