use dx_window::input::{Input, Reaction};
use dx_window::keyboard::InvalidKeyCode;
use dx_window::message::{
    decode, get_wheel_delta_wparam, make_points, quit_code, Points, WindowMessage, WM_CHAR,
    WM_CLOSE, WM_DESTROY, WM_KEYDOWN, WM_KEYUP, WM_KILLFOCUS, WM_LBUTTONDOWN, WM_LBUTTONUP,
    WM_MBUTTONDOWN, WM_MBUTTONUP, WM_MOUSEMOVE, WM_MOUSEWHEEL, WM_QUIT, WM_RBUTTONDOWN,
    WM_RBUTTONUP, WM_SYSKEYDOWN, WM_SYSKEYUP,
};
use dx_window::mouse::{MouseEvent, MouseEventKind};
use windows::Win32::UI::WindowsAndMessaging as wm;

fn pack(x: i16, y: i16) -> isize {
    (((y as u16 as u32) << 16) | (x as u16 as u32)) as i32 as isize
}

#[test]
fn message_codes_match_platform() {
    assert_eq!(WM_DESTROY, wm::WM_DESTROY);
    assert_eq!(WM_KILLFOCUS, wm::WM_KILLFOCUS);
    assert_eq!(WM_CLOSE, wm::WM_CLOSE);
    assert_eq!(WM_QUIT, wm::WM_QUIT);
    assert_eq!(WM_KEYDOWN, wm::WM_KEYDOWN);
    assert_eq!(WM_KEYUP, wm::WM_KEYUP);
    assert_eq!(WM_CHAR, wm::WM_CHAR);
    assert_eq!(WM_SYSKEYDOWN, wm::WM_SYSKEYDOWN);
    assert_eq!(WM_SYSKEYUP, wm::WM_SYSKEYUP);
    assert_eq!(WM_MOUSEMOVE, wm::WM_MOUSEMOVE);
    assert_eq!(WM_LBUTTONDOWN, wm::WM_LBUTTONDOWN);
    assert_eq!(WM_LBUTTONUP, wm::WM_LBUTTONUP);
    assert_eq!(WM_RBUTTONDOWN, wm::WM_RBUTTONDOWN);
    assert_eq!(WM_RBUTTONUP, wm::WM_RBUTTONUP);
    assert_eq!(WM_MBUTTONDOWN, wm::WM_MBUTTONDOWN);
    assert_eq!(WM_MBUTTONUP, wm::WM_MBUTTONUP);
    assert_eq!(WM_MOUSEWHEEL, wm::WM_MOUSEWHEEL);
}

#[test]
fn make_points_sign_extends_both_words() {
    assert_eq!(make_points(pack(400, 300)), Points { x: 400, y: 300 });
    assert_eq!(make_points(pack(-5, -1)), Points { x: -5, y: -1 });
    assert_eq!(make_points(0x7FFF_8000), Points { x: -32768, y: 32767 });
    assert_eq!(make_points(-1), Points { x: -1, y: -1 });
}

#[test]
fn wheel_delta_is_signed_high_word() {
    assert_eq!(get_wheel_delta_wparam(((-120i16 as u16 as usize) << 16) | 0x0008), -120);
    assert_eq!(get_wheel_delta_wparam(120usize << 16), 120);
    assert_eq!(get_wheel_delta_wparam(0xFFFF), 0);
}

#[test]
fn mouse_leaves_and_reenters_window() {
    let mut input = Input::new(800, 600);
    let r = input.handle_message(WM_MOUSEMOVE, 0, pack(900, 10));
    assert_eq!(r, Ok(Reaction::ReleaseMouse));
    assert!(!input.mouse.is_in_window);
    let r = input.handle_message(WM_MOUSEMOVE, 0, pack(400, 300));
    assert_eq!(r, Ok(Reaction::CaptureMouse));
    assert!(input.mouse.is_in_window);
    assert_eq!(input.mouse.x, 400);
    assert_eq!(input.mouse.y, 300);
    let r = input.handle_message(WM_MOUSEMOVE, 0, pack(401, 300));
    assert_eq!(r, Ok(Reaction::Handled));
}

#[test]
fn drag_outside_window_is_recorded() {
    let mut input = Input::new(800, 600);
    input.handle_message(WM_MOUSEMOVE, 0, pack(10, 10)).unwrap();
    let r = input.handle_message(WM_MOUSEMOVE, 0x0001, pack(-20, 700));
    assert_eq!(r, Ok(Reaction::Handled));
    assert!(input.mouse.is_in_window);
    assert_eq!((input.mouse.x, input.mouse.y), (-20, 700));
    let r = input.handle_message(WM_MOUSEMOVE, 0x0010, pack(900, 5));
    assert_eq!(r, Ok(Reaction::Handled));
    assert_eq!(input.mouse.x, 900);
}

#[test]
fn repeated_key_down_enables_auto_repeat() {
    let mut input = Input::new(800, 600);
    assert_eq!(input.handle_message(WM_KEYDOWN, 13, 0x0000_0001), Ok(Reaction::Handled));
    assert!(!input.keyboard.auto_repeat_enabled);
    assert_eq!(input.handle_message(WM_KEYDOWN, 13, 0x4000_0001), Ok(Reaction::Handled));
    assert!(input.keyboard.auto_repeat_enabled);
    assert_eq!(input.keyboard.key_is_pressed(13), Ok(true));
    assert_eq!(input.handle_message(WM_KEYUP, 13, 0xC000_0001u32 as i32 as isize), Ok(Reaction::Handled));
    assert!(!input.keyboard.auto_repeat_enabled);
    assert_eq!(input.keyboard.key_is_pressed(13), Ok(false));
}

#[test]
fn system_keys_update_state() {
    let mut input = Input::new(800, 600);
    input.handle_message(WM_SYSKEYDOWN, 18, 0).unwrap();
    assert_eq!(input.keyboard.key_is_pressed(18), Ok(true));
    input.handle_message(WM_SYSKEYUP, 18, 0).unwrap();
    assert_eq!(input.keyboard.key_is_pressed(18), Ok(false));
}

#[test]
fn invalid_key_code_message_is_refused() {
    let mut input = Input::new(800, 600);
    assert_eq!(input.handle_message(WM_KEYDOWN, 300, 0), Err(InvalidKeyCode { code: 300 }));
    assert_eq!(input.handle_message(WM_KEYUP, 256, 0), Err(InvalidKeyCode { code: 256 }));
    assert!(input.keyboard.key_queue.is_empty());
}

#[test]
fn window_lifecycle_messages() {
    let mut input = Input::new(800, 600);
    assert_eq!(input.handle_message(WM_CLOSE, 0, 0), Ok(Reaction::DestroyWindow));
    assert_eq!(input.handle_message(WM_DESTROY, 0, 0), Ok(Reaction::PostQuit(0)));
    assert_eq!(input.handle_message(0x000F, 0, 0), Ok(Reaction::Default));
    input.handle_message(WM_KEYDOWN, 65, 0).unwrap();
    input.handle_message(WM_CHAR, 'A' as usize, 0).unwrap();
    assert_eq!(input.keyboard.char_queue, vec!['A']);
    input.handle_message(WM_MOUSEMOVE, 0, pack(5, 6)).unwrap();
    assert!(input.mouse.is_in_window);
    assert_eq!(input.handle_message(WM_KILLFOCUS, 0, 0), Ok(Reaction::Handled));
    assert_eq!(input.keyboard.key_is_pressed(65), Ok(false));
    assert!(!input.mouse.is_in_window);
    assert!(input.mouse.event_queue.is_empty());
    assert!(input.keyboard.char_queue.is_empty());
}

#[test]
fn quit_message_carries_exit_code() {
    assert_eq!(quit_code(&decode(WM_QUIT, 7, 0)), Some(7));
    assert_eq!(quit_code(&decode(WM_CLOSE, 7, 0)), None);
    assert_eq!(decode(WM_CHAR, 97, 0), WindowMessage::Char(97));
}

#[test]
fn buttons_and_wheel_update_mouse() {
    let mut input = Input::new(800, 600);
    input.handle_message(WM_LBUTTONDOWN, 1, 0).unwrap();
    assert!(input.mouse.left_pressed);
    input.handle_message(WM_LBUTTONUP, 0, 0).unwrap();
    assert!(!input.mouse.left_pressed);
    input.handle_message(WM_RBUTTONDOWN, 2, 0).unwrap();
    assert!(input.mouse.right_pressed);
    input.handle_message(WM_RBUTTONUP, 0, 0).unwrap();
    assert!(!input.mouse.right_pressed);
    input.handle_message(WM_MBUTTONDOWN, 0x10, 0).unwrap();
    assert!(input.mouse.wheel_pressed);
    input.handle_message(WM_MBUTTONUP, 0, 0).unwrap();
    assert!(!input.mouse.wheel_pressed);
    let wparam = (-120i16 as u16 as usize) << 16;
    input.handle_message(WM_MOUSEWHEEL, wparam, pack(30, 40)).unwrap();
    assert_eq!(input.mouse.wheel_delta_carry, 0);
    let last = *input.mouse.event_queue.last().unwrap();
    assert_eq!(last, MouseEvent { kind: MouseEventKind::Wheel(-120), x: 30, y: 40 });
    assert_eq!(input.mouse.event_queue.len(), 7);
    let first = input.mouse.read().unwrap();
    assert_eq!(first.kind, MouseEventKind::LeftPress);
}
