//! Error codes of Win32 calls.

use vstd::prelude::*;

verus! {

pub const ERROR_FILE_NOT_FOUND: u32 = 2;

pub const ERROR_ACCESS_DENIED: u32 = 5;

pub const ERROR_INSUFFICIENT_BUFFER: u32 = 122;

pub const ERROR_SERVICE_DOES_NOT_EXIST: u32 = 1060;

/// The failure of a Win32 call: the code it carries, an `HRESULT`, and the text
/// that the system has for it.
#[derive(Debug, PartialEq, Eq)]
pub struct WinError {
    pub code: i32,
    pub text: String,
}

/// The `HRESULT` that stands for the Win32 error `code`: the code itself where it
/// is zero or already has the failure bit, else its low half behind `0x8007`.
pub open spec fn win32_hresult(code: u32) -> int {
    if code == 0 {
        0
    } else if code >= 0x8000_0000 {
        code - 0x1_0000_0000
    } else {
        (code as int) % 0x1_0000 + 0x8007_0000 - 0x1_0000_0000
    }
}

/// Calls `windows_core::HRESULT::from_win32`, which maps a Win32 error code to the
/// `HRESULT` that `win32_hresult` describes.
#[verifier::external_body]
fn hresult_from_win32(code: u32) -> (r: i32)
    ensures
        r == win32_hresult(code),
{
    windows_core::HRESULT::from_win32(code).0
}

/// Whether the `HRESULT` `code` stands for the Win32 error `win32`.
pub fn is_win32(code: i32, win32: u32) -> (r: bool)
    ensures
        r == (code == win32_hresult(win32)),
{
    code == hresult_from_win32(win32)
}

/// A call that is made without a buffer reports how large one it needs. Such a
/// first call has done its part when it succeeded, or failed for want of a buffer.
pub fn probe_answered(failure: Option<i32>) -> (r: bool)
    ensures
        r == (failure is None || failure->0 == win32_hresult(122)),
{
    match failure {
        None => true,
        Some(code) => is_win32(code, ERROR_INSUFFICIENT_BUFFER),
    }
}

/// Different ordinary error codes stand for different failures, and every one of
/// them is a failure: no `HRESULT` of an error is a success code.
pub proof fn law_error_codes_stay_apart(a: u32, b: u32)
    requires
        0 < a < 0x1_0000,
        0 < b < 0x1_0000,
    ensures
        win32_hresult(a) < 0,
        win32_hresult(a) == win32_hresult(b) <==> a == b,
{
}

/// An ordinary error code stands in the low half of its `HRESULT`, and no error is no
/// error.
pub proof fn law_error_stands_in_the_low_half(code: u32)
    ensures
        0 < code < 0x1_0000 ==> win32_hresult(code) == code - 2_147_024_896,
        win32_hresult(0) == 0,
        code >= 0x8000_0000 ==> win32_hresult(code) == code - 4_294_967_296,
{
}

} // verus!
