//! Write-once storage for the configuration snapshot the host delivers at
//! load time.

use vstd::prelude::*;

verus! {

/// Snapshot of host state and negotiated capabilities, delivered once when
/// the module is loaded.
///
/// The fields mirror the host's record: the version number packed in low and
/// high words, the handle of the host's main window (opaque to the module and
/// never dereferenced), the keep-loaded hint, the unicode flag (when true,
/// exchanged buffers hold UTF-16 code units rather than single-byte units),
/// the beta version number, and the advisory ceiling on buffer sizes in
/// bytes.
#[allow(non_camel_case_types)]
#[derive(Clone, Copy, Debug, PartialEq, Eq, Structural)]
pub struct LOADINFO {
    pub m_version: u32,
    pub m_hwnd: usize,
    pub m_keep: bool,
    pub m_unicode: bool,
    pub m_beta: u32,
    pub m_bytes: u32,
}

/// Reported by [`ConfigCell::capture`] when a snapshot has already been
/// stored; the stored value is left untouched.
#[derive(Clone, Copy, Debug, PartialEq, Eq, Structural)]
pub enum CaptureError {
    AlreadyInitialized,
}

/// Write-once cell holding the module's durable copy of the host's
/// configuration record.
///
/// Exactly one `capture` can succeed over the cell's lifetime; every later
/// attempt fails with [`CaptureError::AlreadyInitialized`] and leaves the
/// stored record unchanged. After the single write the contents are
/// immutable, so readers need no further coordination.
pub struct ConfigCell {
    info: Option<LOADINFO>,
}

impl View for ConfigCell {
    type V = Option<LOADINFO>;

    closed spec fn view(&self) -> Option<LOADINFO> {
        self.info
    }
}

/// What one capture attempt does to a cell's contents: an empty cell takes
/// the record and reports success; a full cell is unchanged and reports the
/// duplicate.
pub open spec fn spec_capture(
    state: Option<LOADINFO>,
    rec: LOADINFO,
) -> (Option<LOADINFO>, Result<(), CaptureError>) {
    match state {
        None => (Some(rec), Ok(())),
        Some(_) => (state, Err(CaptureError::AlreadyInitialized)),
    }
}

impl ConfigCell {
    /// True once a capture has succeeded.
    pub open spec fn is_captured(&self) -> bool {
        self@ is Some
    }

    /// An empty cell: nothing captured yet.
    pub fn new() -> (cell: Self)
        ensures
            cell@ is None,
    {
        ConfigCell { info: None }
    }

    /// Stores `rec` if the cell is still empty; otherwise reports the
    /// duplicate and leaves the stored record exactly as it was.
    pub fn capture(&mut self, rec: LOADINFO) -> (r: Result<(), CaptureError>)
        ensures
            final(self)@ == spec_capture(old(self)@, rec).0,
            r == spec_capture(old(self)@, rec).1,
            !old(self).is_captured() ==> final(self)@ == Some(rec) && r is Ok,
            old(self).is_captured() ==> final(self)@ == old(self)@ && r == Err::<
                (),
                CaptureError,
            >(CaptureError::AlreadyInitialized),
    {
        match self.info {
            None => {
                self.info = Some(rec);
                Ok(())
            },
            Some(_) => Err(CaptureError::AlreadyInitialized),
        }
    }

    /// Immutable view of the captured record; `None` before any successful
    /// capture. May be called any number of times.
    pub fn read(&self) -> (r: Option<&LOADINFO>)
        ensures
            (match r {
                Some(rec) => self@ == Some(*rec),
                None => self@ is None,
            }),
    {
        match &self.info {
            Some(rec) => Some(rec),
            None => None,
        }
    }
}

/// Write-once law: after a capture has succeeded, any further capture
/// attempt leaves the stored record unchanged and reports the duplicate
/// condition.
pub proof fn lemma_capture_write_once(first: LOADINFO, second: LOADINFO)
    ensures
        spec_capture(spec_capture(None, first).0, second).0 == spec_capture(None, first).0,
        spec_capture(spec_capture(None, first).0, second).1 == Err::<(), CaptureError>(
            CaptureError::AlreadyInitialized,
        ),
{
}

} // verus!
