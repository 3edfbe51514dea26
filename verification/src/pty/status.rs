//! Status codes of the operating system and the rules that read them.

use vstd::prelude::*;

verus! {

/// Wait result: the awaited object is signalled.
pub const WAIT_OBJECT_0: u32 = 0;

/// Wait result: the time-out elapsed and the object is not signalled.
pub const WAIT_TIMEOUT: u32 = 258;

/// Wait result: the wait itself failed.
pub const WAIT_FAILED: u32 = 0xFFFF_FFFF;

/// Exit code (and completion status) of something that is still in progress.
pub const STATUS_PENDING: u32 = 0x103;

/// Win32 error code of an overlapped request that was queued.
pub const ERROR_IO_PENDING: u32 = 997;

/// The result code that stands for a Win32 error code: zero and codes with
/// the top bit set are kept; any other gets the Win32 facility and the
/// failure bit.
pub open spec fn win32_hresult(code: u32) -> i32 {
    if code as i32 <= 0 {
        code as i32
    } else {
        ((code & 0x0000_FFFFu32) | (7u32 << 16u32) | 0x8000_0000u32) as i32
    }
}

/// The result code that stands for a native status: a success or
/// informational status is kept; a failure gets the native-status bit.
pub open spec fn nt_hresult(status: i32) -> i32 {
    if status >= 0 {
        status
    } else {
        status | 0x1000_0000i32
    }
}

/// Whether a result code reports failure.
pub open spec fn failed(code: i32) -> bool {
    code < 0
}

/// `windows_core::HRESULT::from_win32`: the result code for a Win32 error
/// code, as that function's source computes it.
#[verifier::external_body]
pub(crate) fn hresult_from_win32(code: u32) -> (r: i32)
    ensures
        r == win32_hresult(code),
{
    windows_core::HRESULT::from_win32(code).0
}

/// `windows_core::HRESULT::from_nt`: the result code for a native status,
/// as that function's source computes it.
#[verifier::external_body]
pub(crate) fn hresult_from_nt(status: i32) -> (r: i32)
    ensures
        r == nt_hresult(status),
{
    windows_core::HRESULT::from_nt(status).0
}

/// The result code of a queued overlapped request is `0x800703E5`.
pub proof fn lemma_io_pending_value()
    ensures
        win32_hresult(ERROR_IO_PENDING) == -2147023899i32,
        failed(win32_hresult(ERROR_IO_PENDING)),
{
    assert(997u32 as i32 == 997i32) by (bit_vector);
    assert((((997u32 & 0x0000_FFFFu32) | (7u32 << 16u32) | 0x8000_0000u32) as i32)
        == -2147023899i32) by (bit_vector);
}

/// A native status fails exactly when its result code does, and a status
/// that does not fail is its own result code.
pub proof fn lemma_nt_hresult_sign(status: i32)
    ensures
        failed(nt_hresult(status)) == (status < 0),
        status >= 0 ==> nt_hresult(status) == status,
{
    assert(status < 0 ==> (status | 0x1000_0000i32) < 0) by (bit_vector);
}

/// The result code for a native status.
pub fn status_code(status: i32) -> (r: i32)
    ensures
        r == nt_hresult(status),
{
    hresult_from_nt(status)
}

/// Turns the native status of a console call into success or its failing
/// result code.
pub fn check_status(status: i32) -> (r: Result<(), i32>)
    ensures
        status >= 0 ==> r == Ok::<(), i32>(()),
        status < 0 ==> r == Err::<(), i32>(nt_hresult(status)),
{
    let code: i32 = hresult_from_nt(status);
    proof {
        lemma_nt_hresult_sign(status);
    }
    if code < 0 {
        Err(code)
    } else {
        Ok(())
    }
}

/// Whether a failed request was in fact queued for later completion.
pub fn is_io_pending(code: i32) -> (r: bool)
    ensures
        r == (code == win32_hresult(ERROR_IO_PENDING)),
        r == (code == -2147023899i32),
{
    proof {
        lemma_io_pending_value();
    }
    code == hresult_from_win32(ERROR_IO_PENDING)
}

} // verus!
