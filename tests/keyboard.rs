use dx_window::keyboard::{trim_buffer, InvalidKeyCode, KeyEvent, KeyState, Keyboard};

#[test]
fn new_keyboard_has_every_key_up() {
    let kb = Keyboard::new();
    assert_eq!(kb.key_states.len(), 256);
    assert!(kb.key_states.iter().all(|s| !s));
    assert!(kb.key_queue.is_empty());
    assert!(kb.char_queue.is_empty());
    assert!(!kb.auto_repeat_enabled);
}

#[test]
fn last_press_or_release_decides_key_state() {
    let mut kb = Keyboard::new();
    kb.on_key_press(65).unwrap();
    kb.on_key_release(65).unwrap();
    kb.on_key_press(65).unwrap();
    kb.on_key_press(66).unwrap();
    assert_eq!(kb.key_is_pressed(65), Ok(true));
    kb.on_key_release(65).unwrap();
    assert_eq!(kb.key_is_pressed(65), Ok(false));
    assert_eq!(kb.key_is_pressed(66), Ok(true));
    assert_eq!(kb.key_is_pressed(67), Ok(false));
}

#[test]
fn key_queue_keeps_newest_sixteen_in_order() {
    let mut kb = Keyboard::new();
    for code in 0..40u32 {
        kb.on_key_press(code).unwrap();
        assert!(kb.key_queue.len() <= 16);
    }
    let codes: Vec<u32> = kb.key_queue.iter().map(|e| e.key_code).collect();
    assert_eq!(codes, (24..40).collect::<Vec<u32>>());
}

#[test]
fn pop_then_read_reports_released() {
    let mut kb = Keyboard::new();
    kb.on_key_press(13).unwrap();
    assert_eq!(kb.key_is_pressed_pop(13), Ok(true));
    assert_eq!(kb.key_is_pressed(13), Ok(false));
    assert_eq!(kb.key_is_pressed_pop(13), Ok(false));
    assert_eq!(kb.key_is_pressed(13), Ok(false));
}

#[test]
fn read_char_returns_oldest_first() {
    let mut kb = Keyboard::new();
    kb.on_char('a' as u32);
    kb.on_char('b' as u32);
    kb.on_char('c' as u32);
    assert_eq!(kb.read_char(), Some('a'));
    assert_eq!(kb.read_char(), Some('b'));
    assert_eq!(kb.read_char(), Some('c'));
    assert_eq!(kb.read_char(), None);
}

#[test]
fn twenty_chars_keep_final_sixteen() {
    let mut kb = Keyboard::new();
    let typed: Vec<char> = "abcdefghijklmnopqrst".chars().collect();
    assert_eq!(typed.len(), 20);
    for c in &typed {
        kb.on_char(*c as u32);
    }
    assert_eq!(kb.char_queue, typed[4..].to_vec());
}

#[test]
fn out_of_range_codes_are_refused() {
    let mut kb = Keyboard::new();
    assert_eq!(kb.on_key_press(256), Err(InvalidKeyCode { code: 256 }));
    assert_eq!(kb.on_key_release(1000), Err(InvalidKeyCode { code: 1000 }));
    assert_eq!(kb.key_is_pressed(300), Err(InvalidKeyCode { code: 300 }));
    assert_eq!(kb.key_is_pressed_pop(256), Err(InvalidKeyCode { code: 256 }));
    assert!(kb.key_queue.is_empty());
    assert_eq!(kb.on_key_press(255), Ok(()));
    assert_eq!(kb.key_is_pressed(255), Ok(true));
}

#[test]
fn read_key_returns_oldest_event() {
    let mut kb = Keyboard::new();
    kb.on_key_press(10).unwrap();
    kb.on_key_release(10).unwrap();
    assert_eq!(kb.read_key(), Some(KeyEvent { key_state: KeyState::Press, key_code: 10 }));
    assert_eq!(kb.read_key(), Some(KeyEvent { key_state: KeyState::Release, key_code: 10 }));
    assert_eq!(kb.read_key(), None);
}

#[test]
fn surrogate_char_codes_are_dropped() {
    let mut kb = Keyboard::new();
    kb.on_char(0xD800);
    kb.on_char(0x110000);
    assert!(kb.char_queue.is_empty());
    kb.on_char(0x20AC);
    assert_eq!(kb.char_queue, vec!['€']);
}

#[test]
fn reset_and_clears_empty_state() {
    let mut kb = Keyboard::new();
    kb.on_key_press(1).unwrap();
    kb.on_char('x' as u32);
    kb.enable_auto_repeat();
    kb.clear_key_queue();
    assert!(kb.key_queue.is_empty());
    assert_eq!(kb.char_queue.len(), 1);
    kb.clear_char_queue();
    assert!(kb.char_queue.is_empty());
    kb.on_key_press(2).unwrap();
    kb.on_char('y' as u32);
    kb.clear_all_queues();
    assert!(kb.key_queue.is_empty() && kb.char_queue.is_empty());
    assert_eq!(kb.key_is_pressed(1), Ok(true));
    kb.reset();
    assert_eq!(kb.key_is_pressed(1), Ok(false));
    assert!(kb.auto_repeat_enabled);
    kb.disable_auto_repeat();
    assert!(!kb.auto_repeat_enabled);
}

#[test]
fn trim_buffer_drops_oldest() {
    let mut v: Vec<u32> = (0..20).collect();
    trim_buffer(&mut v);
    assert_eq!(v, (4..20).collect::<Vec<u32>>());
    let mut short: Vec<u32> = vec![1, 2, 3];
    trim_buffer(&mut short);
    assert_eq!(short, vec![1, 2, 3]);
}
