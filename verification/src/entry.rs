//! The three handlers the host drives: load-time capture, command
//! evaluation, and unload negotiation.

use vstd::prelude::*;

use crate::buffer::{
    is_terminated, result_seq, result_text, scan_terminated_len, term_len, write_result_bounded,
    RESULT_LEN,
};
use crate::config::{ConfigCell, LOADINFO};

verus! {

/// Command-handler disposition: the host must halt processing; nothing was
/// written.
pub const HALT_PROCESSING: i32 = 0;

/// Command-handler disposition: the exchange buffer holds the value the
/// command or identifier evaluates to.
pub const FILLED_RESULT: i32 = 3;

/// Unload-handler answer permitting the unload; only consulted by the host
/// for the idle-timeout reason.
pub const ALLOW_UNLOAD: i32 = 1;

/// A configuration record with the two flags the module always requests
/// forced on: keep the module resident, and exchange UTF-16 buffers.
pub open spec fn with_residency_requested(rec: LOADINFO) -> LOADINFO {
    LOADINFO {
        m_version: rec.m_version,
        m_hwnd: rec.m_hwnd,
        m_keep: true,
        m_unicode: true,
        m_beta: rec.m_beta,
        m_bytes: rec.m_bytes,
    }
}

/// Relates the exchange buffer before a successful command evaluation to the
/// buffer after it, writing `l` for the pre-call terminated length and `r`
/// for the result length: the result text sits at the start, a terminator at
/// position `r`, every position from there through `l` is zero, and nothing
/// at or past position `l + 1` was touched.
pub open spec fn filled_with_result(pre: Seq<u16>, post: Seq<u16>) -> bool {
    let l = term_len(pre);
    let r = result_seq().len() as int;
    &&& post.len() == pre.len()
    &&& forall|i: int| 0 <= i < r ==> post[i] == result_seq()[i]
    &&& forall|i: int| r <= i <= l ==> post[i] == 0
    &&& forall|i: int| l < i < pre.len() ==> post[i] == pre[i]
}

/// Load-time handler. Forces the keep-loaded and unicode flags on the host's
/// record to true — the module always requests Unicode buffers and residency,
/// whatever the host initialized them to — then stores a durable copy of the
/// modified record in the configuration cell.
///
/// Returns whether this call made the capture; `false` reports the
/// duplicate-load anomaly (a second load without a process restart) so the
/// caller can surface a diagnostic, but the call itself does not fail: the
/// host's flags have been set correctly on that path regardless, and the
/// stored record is untouched.
#[allow(non_snake_case)]
pub fn LoadDll(info: &mut LOADINFO, cell: &mut ConfigCell) -> (fresh: bool)
    ensures
        *final(info) == with_residency_requested(*old(info)),
        !old(cell).is_captured() ==> final(cell)@ == Some(with_residency_requested(*old(info)))
            && fresh,
        old(cell).is_captured() ==> final(cell)@ == old(cell)@ && !fresh,
{
    info.m_keep = true;
    info.m_unicode = true;
    let captured = cell.capture(*info);
    captured.is_ok()
}

/// Command/identifier evaluation entry point.
///
/// The window handles, the auxiliary parameter buffer and the two display
/// hints arrive at this boundary but play no part in the result. If the
/// configuration cell was never captured, the handler touches nothing and
/// answers [`HALT_PROCESSING`]. Otherwise it scans the exchange buffer for
/// its existing terminator, clears the previously-terminated region against
/// that pre-write length, writes the result text with its terminator over
/// the start of the buffer, and answers [`FILLED_RESULT`].
///
/// The terminated length is the only size signal the host supplies, so the
/// handler never writes past it; a captured cell therefore demands a buffer
/// whose terminated length has room for the result, which the caller must
/// have checked.
pub fn hello(
    cell: &ConfigCell,
    _m_wnd: usize,
    _a_wnd: usize,
    data: &mut Vec<u16>,
    _parms: &Vec<u16>,
    _show: bool,
    _nopause: bool,
) -> (r: i32)
    requires
        cell.is_captured() ==> is_terminated(old(data)@) && RESULT_LEN <= term_len(old(data)@),
    ensures
        final(data)@.len() == old(data)@.len(),
        !cell.is_captured() ==> r == HALT_PROCESSING && final(data)@ == old(data)@,
        cell.is_captured() ==> r == FILLED_RESULT && filled_with_result(old(data)@, final(data)@),
{
    match cell.read() {
        Some(_info) => {
            let result = result_text();
            let limit = scan_terminated_len(data);
            write_result_bounded(data, &result, limit);
            FILLED_RESULT
        },
        None => HALT_PROCESSING,
    }
}

/// Unload negotiation: every admissible reason code — explicit unload
/// request, idle-timeout proposal, host exit — permits unloading. The host
/// only consults the answer for the idle-timeout reason.
#[allow(non_snake_case)]
pub fn UnloadDll(m_timeout: i32) -> (r: i32)
    requires
        0 <= m_timeout <= 2,
    ensures
        r == ALLOW_UNLOAD,
{
    ALLOW_UNLOAD
}

} // verus!
