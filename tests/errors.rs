use dx_window::errors::{dx_get_error_description, get_error_desc, CallLocation, FatalErrorBase, WindowError};
use dx_window::keyboard::InvalidKeyCode;

#[test]
fn negative_result_uses_fallback() {
    assert_eq!(
        dx_get_error_description(-2005270523, "Presenting failed", Some(b"ignored\r\n")),
        "Code: -2005270523: Unable to find error description. Fallback: Presenting failed"
    );
}

#[test]
fn system_message_loses_line_break() {
    assert_eq!(
        dx_get_error_description(5, "fallback", Some(b"Access is denied.\r\n")),
        "Code 5: Access is denied."
    );
    assert_eq!(
        dx_get_error_description(5, "fallback", None),
        "Code: 5: Unable to find error description. Fallback: fallback"
    );
}

#[test]
fn last_error_descriptions() {
    assert_eq!(
        get_error_desc(0, 0, 0, None),
        "Successful exit with codes: last getResult: 0, wParam: 0"
    );
    assert_eq!(get_error_desc(1400, 1, 0, None), "Code: 1400: Unable to find error description");
    assert_eq!(
        get_error_desc(1400, 1, 0, Some(b"Invalid window handle.\r\n")),
        "Code 1400: Invalid window handle."
    );
}

#[test]
fn window_and_key_errors_exit_with_one() {
    let e = WindowError {
        details: "Unable to load cursor.".to_string(),
        origin: CallLocation { file: "app/window.rs".to_string(), line: 120, column: 5 },
    };
    assert_eq!(e.exit_code(), 1);
    assert_eq!(e.description(), "Unable to load cursor.");
    assert_eq!(e.report(), "Error in app/window.rs:120\nUnable to load cursor.");
    let k = InvalidKeyCode { code: 300 };
    assert_eq!(k.exit_code(), 1);
    assert_eq!(k.report(), "Invalid key code: 300");
}
