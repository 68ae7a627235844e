use mirc_hello::{CaptureError, ConfigCell, LoadDll, LOADINFO};

fn record(version: u32) -> LOADINFO {
    LOADINFO {
        m_version: version,
        m_hwnd: 0,
        m_keep: false,
        m_unicode: false,
        m_beta: 0,
        m_bytes: 0,
    }
}

#[test]
fn read_before_capture_is_none() {
    let cell = ConfigCell::new();
    assert!(cell.read().is_none());
}

#[test]
fn capture_is_write_once() {
    let mut cell = ConfigCell::new();
    assert_eq!(cell.capture(record(1)), Ok(()));
    // a later attempt reports the duplicate and changes nothing
    assert_eq!(
        cell.capture(record(2)),
        Err(CaptureError::AlreadyInitialized)
    );
    let stored = cell.read().expect("captured record");
    assert_eq!(*stored, record(1));
}

#[test]
fn load_sets_flags_and_captures() {
    let mut cell = ConfigCell::new();
    let mut info = record(3);
    let fresh = LoadDll(&mut info, &mut cell);
    assert!(fresh);
    // both flags forced on, everything else as the host set it
    assert!(info.m_keep);
    assert!(info.m_unicode);
    assert_eq!(info.m_version, 3);
    assert_eq!(info.m_bytes, 0);
    let stored = cell.read().expect("captured record");
    assert_eq!(*stored, info);
}

#[test]
fn duplicate_load_keeps_first_record() {
    let mut cell = ConfigCell::new();
    let mut first = record(1);
    assert!(LoadDll(&mut first, &mut cell));
    let mut second = record(2);
    let fresh = LoadDll(&mut second, &mut cell);
    // the host's record is still adjusted on the duplicate path
    assert!(!fresh);
    assert!(second.m_keep && second.m_unicode);
    // but the stored record is the first one
    let stored = cell.read().expect("captured record");
    assert_eq!(stored.m_version, 1);
}
