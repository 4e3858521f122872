//! Fatal errors as values: each carries the call site it was raised at and
//! the platform code it stems from, and knows its report text and the
//! process exit code the outermost harness terminates with.

use vstd::prelude::*;
use vstd::string::StringExecFns;

use crate::backend::backend_message;
use crate::keyboard::InvalidKeyCode;
use crate::text::{decimal, decimal_text, join, utf8_lossy, lossy_text};

verus! {

/// Where an error was raised.
#[derive(Debug, Clone)]
pub struct CallLocation {
    pub file: String,
    pub line: u32,
    pub column: u32,
}

/// `"Error in <file>:<line>\n<details>"`.
pub open spec fn report_text(origin: CallLocation, details: Seq<char>) -> Seq<char> {
    "Error in "@ + origin.file@ + ":"@ + decimal_text(origin.line as int) + "\n"@ + details
}

fn report_for(origin: &CallLocation, details: &str) -> (r: String)
    ensures
        r@ == report_text(*origin, details@),
{
    let s = join(String::from_str("Error in "), origin.file.as_str());
    let s = join(s, ":");
    let line = decimal(origin.line as i128);
    let s = join(s, line.as_str());
    let s = join(s, "\n");
    join(s, details)
}

/// The exit code for platform code `code`: the code itself, or 1 when there
/// is none.
pub open spec fn fatal_exit_code(code: Option<i32>) -> i32 {
    match code {
        Some(c) => c,
        None => 1,
    }
}

fn exit_code_of(code: Option<i32>) -> (r: i32)
    ensures
        r == fatal_exit_code(code),
{
    match code {
        Some(c) => c,
        None => 1,
    }
}

/// An error that ends the process: it is shown, and the process exits with
/// its code.
pub trait FatalErrorBase {
    spec fn spec_exit_code(&self) -> i32;

    spec fn spec_report(&self) -> Seq<char>;

    /// The code the process exits with.
    fn exit_code(&self) -> (r: i32)
        ensures
            r == self.spec_exit_code(),
    ;

    /// The text shown to the user.
    fn report(&self) -> (r: String)
        ensures
            r@ == self.spec_report(),
    ;
}

/// Which stage of graphics setup failed.
#[derive(Debug, Clone, Copy, PartialEq, Eq, Structural)]
pub enum GraphicsErrorKind {
    /// The factory or the hardware device could not be created.
    DeviceCreation,
    /// A swap chain, view, texture, state, shader, buffer or layout could
    /// not be created.
    ResourceCreation,
}

/// A failed graphics call, with the backend's message and code.
#[derive(Debug, Clone)]
pub struct GraphicsError {
    pub kind: GraphicsErrorKind,
    pub details: String,
    pub code: Option<i32>,
    pub origin: CallLocation,
}

impl FatalErrorBase for GraphicsError {
    open spec fn spec_exit_code(&self) -> i32 {
        fatal_exit_code(self.code)
    }

    open spec fn spec_report(&self) -> Seq<char> {
        report_text(self.origin, self.details@)
    }

    fn exit_code(&self) -> (r: i32) {
        exit_code_of(self.code)
    }

    fn report(&self) -> (r: String) {
        report_for(&self.origin, self.details.as_str())
    }
}

impl GraphicsError {
    /// The error of a backend call at stage `kind` that failed with result
    /// code `code` (the code `error` carries), raised at `origin`, with the
    /// backend's message as its details.
    pub fn from_backend(kind: GraphicsErrorKind, code: i32, error: &windows::core::Error, origin: CallLocation) -> (r: GraphicsError)
        ensures
            r.kind == kind,
            r.code == Some(code),
            r.origin == origin,
    {
        GraphicsError { kind, details: backend_message(error), code: Some(code), origin }
    }
}

/// The device was removed during present; everything tied to it must be
/// recreated. Carries the device's removal-reason code.
#[derive(Debug, Clone)]
pub struct DeviceRemovedError {
    pub reason: i32,
    pub origin: CallLocation,
}

impl FatalErrorBase for DeviceRemovedError {
    /// The removal reason; 0 stands for a reason that could not be read,
    /// which exits with 1.
    open spec fn spec_exit_code(&self) -> i32 {
        fatal_exit_code(if self.reason != 0 { Some(self.reason) } else { None })
    }

    open spec fn spec_report(&self) -> Seq<char> {
        report_text(self.origin, "DXGI_ERROR_DEVICE_REMOVED"@)
    }

    fn exit_code(&self) -> (r: i32) {
        exit_code_of(if self.reason != 0 { Some(self.reason) } else { None })
    }

    fn report(&self) -> (r: String) {
        report_for(&self.origin, "DXGI_ERROR_DEVICE_REMOVED")
    }
}

/// A failing result code with its description.
#[derive(Debug, Clone)]
pub struct HResultError {
    pub code: i32,
    pub description: String,
    pub origin: CallLocation,
}

/// `"Code: <hr>: Unable to find error description. Fallback: <fallback>"`.
pub open spec fn fallback_description(hr: int, fallback: Seq<char>) -> Seq<char> {
    "Code: "@ + decimal_text(hr) + ": Unable to find error description. Fallback: "@ + fallback
}

/// `bytes` without its last two (the line break a system message ends with).
pub open spec fn without_line_break(bytes: Seq<u8>) -> Seq<u8> {
    if bytes.len() >= 2 {
        bytes.subrange(0, bytes.len() - 2)
    } else {
        Seq::empty()
    }
}

/// The description of result code `hr`: the system's message text for it
/// when there is one and `hr` is not negative, else the fallback text.
pub open spec fn hresult_description(hr: int, fallback: Seq<char>, system_message: Option<Seq<u8>>) -> Seq<char> {
    match system_message {
        Some(m) if hr >= 0 => "Code "@ + decimal_text(hr) + ": "@ + lossy_text(without_line_break(m)),
        _ => fallback_description(hr, fallback),
    }
}

/// Describes result code `hr`. `system_message` is the text the system
/// message table holds for it, if any.
pub fn dx_get_error_description(hr: i32, fallback_desc: &str, system_message: Option<&[u8]>) -> (r: String)
    ensures
        r@ == hresult_description(
            hr as int,
            fallback_desc@,
            match system_message {
                Some(m) => Some(m@),
                None => None,
            },
        ),
{
    let code = decimal(hr as i128);
    match system_message {
        Some(m) if hr >= 0 => {
            let n = if m.len() >= 2 { m.len() - 2 } else { 0 };
            let body = utf8_lossy(slice_prefix(m, n).as_slice());
            assert(m@.subrange(0, n as int) == without_line_break(m@));
            let s = join(String::from_str("Code "), code.as_str());
            let s = join(s, ": ");
            join(s, body.as_str())
        },
        _ => {
            let s = join(String::from_str("Code: "), code.as_str());
            let s = join(s, ": Unable to find error description. Fallback: ");
            join(s, fallback_desc)
        },
    }
}

fn slice_prefix(s: &[u8], n: usize) -> (r: Vec<u8>)
    requires
        n <= s@.len(),
    ensures
        r@ == s@.subrange(0, n as int),
{
    let mut v: Vec<u8> = Vec::new();
    let mut i: usize = 0;
    while i < n
        invariant
            i <= n <= s@.len(),
            v@ == s@.subrange(0, i as int),
        decreases n - i,
    {
        v.push(s[i]);
        i = i + 1;
    }
    v
}

/// The description of the calling thread's last error `last_error`: a
/// success line with the pump's last results when it is 0, else the
/// system's message text for it, or a note that there is none.
pub open spec fn last_error_description(last_error: int, last_result: int, wparam: int, system_message: Option<Seq<u8>>) -> Seq<char> {
    if last_error == 0 {
        "Successful exit with codes: last getResult: "@ + decimal_text(last_result) + ", wParam: "@
            + decimal_text(wparam)
    } else {
        match system_message {
            Some(m) => "Code "@ + decimal_text(last_error) + ": "@ + lossy_text(without_line_break(m)),
            None => "Code: "@ + decimal_text(last_error) + ": Unable to find error description"@,
        }
    }
}

/// Describes the last error `last_error` of the window thread, with the
/// pump's last result and quit payload for a clean exit. `system_message`
/// is the text the system message table holds for the error, if any.
pub fn get_error_desc(last_error: u32, last_result: i32, wparam: usize, system_message: Option<&[u8]>) -> (r: String)
    ensures
        r@ == last_error_description(
            last_error as int,
            last_result as int,
            wparam as int,
            match system_message {
                Some(m) => Some(m@),
                None => None,
            },
        ),
{
    if last_error == 0 {
        let s = join(String::from_str("Successful exit with codes: last getResult: "), decimal(last_result as i128).as_str());
        let s = join(s, ", wParam: ");
        return join(s, decimal(wparam as i128).as_str());
    }
    let code = decimal(last_error as i128);
    match system_message {
        Some(m) => {
            let n = if m.len() >= 2 { m.len() - 2 } else { 0 };
            let body = utf8_lossy(slice_prefix(m, n).as_slice());
            assert(m@.subrange(0, n as int) == without_line_break(m@));
            let s = join(String::from_str("Code "), code.as_str());
            let s = join(s, ": ");
            join(s, body.as_str())
        },
        None => {
            let s = join(String::from_str("Code: "), code.as_str());
            join(s, ": Unable to find error description")
        },
    }
}

impl HResultError {
    /// The error for failing result code `h_result` raised at `origin`,
    /// described as `dx_get_error_description` does.
    pub fn new(h_result: i32, origin: CallLocation, fallback_desc: &str, system_message: Option<&[u8]>) -> (r: HResultError)
        ensures
            r.code == h_result,
            r.origin == origin,
            r.description@ == hresult_description(
                h_result as int,
                fallback_desc@,
                match system_message {
                    Some(m) => Some(m@),
                    None => None,
                },
            ),
    {
        HResultError {
            code: h_result,
            description: dx_get_error_description(h_result, fallback_desc, system_message),
            origin,
        }
    }

    /// The error for a backend call that failed with result code `code` (the
    /// code `error` carries), raised at `origin`, described with the
    /// backend's message as the fallback text (the system table is not
    /// consulted).
    pub fn from_backend(code: i32, error: &windows::core::Error, origin: CallLocation) -> (r: HResultError)
        ensures
            r.code == code,
            r.origin == origin,
            exists|message: Seq<char>|
                r.description@ == hresult_description(code as int, message, None),
    {
        let message = backend_message(error);
        let r = HResultError::new(code, origin, message.as_str(), None);
        assert(r.description@ == hresult_description(r.code as int, message@, None));
        r
    }
}

impl FatalErrorBase for HResultError {
    open spec fn spec_exit_code(&self) -> i32 {
        fatal_exit_code(Some(self.code))
    }

    open spec fn spec_report(&self) -> Seq<char> {
        report_text(self.origin, self.description@)
    }

    fn exit_code(&self) -> (r: i32) {
        exit_code_of(Some(self.code))
    }

    fn report(&self) -> (r: String) {
        report_for(&self.origin, self.description.as_str())
    }
}

/// A failure while creating or running the window itself.
#[derive(Debug, Clone)]
pub struct WindowError {
    pub details: String,
    pub origin: CallLocation,
}

impl WindowError {
    /// The details text.
    pub fn description(&self) -> (r: &str)
        ensures
            r@ == self.details@,
    {
        self.details.as_str()
    }
}

impl FatalErrorBase for WindowError {
    open spec fn spec_exit_code(&self) -> i32 {
        1
    }

    open spec fn spec_report(&self) -> Seq<char> {
        report_text(self.origin, self.details@)
    }

    fn exit_code(&self) -> (r: i32) {
        1
    }

    fn report(&self) -> (r: String) {
        report_for(&self.origin, self.details.as_str())
    }
}

/// `"Invalid key code: <code>"`.
pub open spec fn invalid_key_text(code: int) -> Seq<char> {
    "Invalid key code: "@ + decimal_text(code)
}

impl InvalidKeyCode {
    /// The text shown for this error.
    pub fn description(&self) -> (r: String)
        ensures
            r@ == invalid_key_text(self.code as int),
    {
        join(String::from_str("Invalid key code: "), decimal(self.code as i128).as_str())
    }
}

impl FatalErrorBase for InvalidKeyCode {
    open spec fn spec_exit_code(&self) -> i32 {
        1
    }

    open spec fn spec_report(&self) -> Seq<char> {
        invalid_key_text(self.code as int)
    }

    fn exit_code(&self) -> (r: i32) {
        1
    }

    fn report(&self) -> (r: String) {
        self.description()
    }
}

} // verus!
