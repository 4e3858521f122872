use dx_window::frame::{take_typed_line, Fps, VK_RETURN};
use dx_window::keyboard::Keyboard;

#[test]
fn return_key_matches_platform() {
    assert_eq!(VK_RETURN, windows::Win32::UI::Input::KeyboardAndMouse::VK_RETURN.0);
}

#[test]
fn typed_line_is_handed_over_on_return() {
    let mut kb = Keyboard::new();
    let mut buffer = String::new();
    kb.on_char('h' as u32);
    kb.on_char('i' as u32);
    assert_eq!(take_typed_line(&mut kb, &mut buffer), None);
    assert_eq!(buffer, "h");
    kb.on_key_press(13).unwrap();
    assert_eq!(take_typed_line(&mut kb, &mut buffer), Some("hi".to_string()));
    assert_eq!(buffer, "");
    assert_eq!(kb.key_is_pressed(13), Ok(false));
    assert_eq!(take_typed_line(&mut kb, &mut buffer), None);
}

#[test]
fn frame_rate_statistics() {
    let mut fps = Fps::new();
    assert_eq!(fps.average(), None);
    fps.calc_fps(16_000);
    fps.calc_fps(10_000);
    fps.calc_fps(20_000);
    assert_eq!(fps.high, 100);
    assert_eq!(fps.low, 50);
    assert_eq!(fps.total, 62 + 100 + 50);
    assert_eq!(fps.frames, 3);
    assert_eq!(fps.average(), Some(70));
}
