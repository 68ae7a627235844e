use mirc_hello::{hello, ConfigCell, LoadDll, UnloadDll, LOADINFO};

fn zero_record() -> LOADINFO {
    LOADINFO {
        m_version: 0,
        m_hwnd: 0,
        m_keep: false,
        m_unicode: false,
        m_beta: 0,
        m_bytes: 0,
    }
}

fn terminated(text: &str) -> Vec<u16> {
    let mut v: Vec<u16> = text.encode_utf16().collect();
    v.push(0);
    v
}

#[test]
fn test_hello() {
    let mut cell = ConfigCell::new();
    let mut loadinfo = zero_record();
    LoadDll(&mut loadinfo, &mut cell);

    let data_str = "The quick brown fox jumps over the lazy dog";
    let mut data = terminated(data_str);
    let parms: Vec<u16> = Vec::new();

    let result = hello(&cell, 0, 0, &mut data, &parms, false, false);
    let tlen = data.iter().position(|&u| u == 0).unwrap();
    println!("Result: {:?}", String::from_utf16_lossy(&data[..tlen]));
    let expected: Vec<u16> = "Hello, world!".encode_utf16().collect();
    assert_eq!(&data[..tlen], &expected[..]);
    assert_eq!(result, 3);
}

#[test]
fn hello_zeroes_stale_tail() {
    let mut cell = ConfigCell::new();
    let mut loadinfo = zero_record();
    LoadDll(&mut loadinfo, &mut cell);

    // terminated length 18, with a stale unit past the terminator
    let mut data: Vec<u16> = vec![5; 18];
    data.push(0);
    data.push(9);
    let parms: Vec<u16> = Vec::new();

    let result = hello(&cell, 0, 0, &mut data, &parms, false, false);
    assert_eq!(result, 3);
    let expected: Vec<u16> = "Hello, world!".encode_utf16().collect();
    assert_eq!(&data[..13], &expected[..]);
    // terminator at the result length, zeros through the old terminated length
    for i in 13..=18 {
        assert_eq!(data[i], 0);
    }
    // nothing past the old terminated length was touched
    assert_eq!(data[19], 9);
    assert_eq!(data.len(), 20);
}

#[test]
fn hello_exact_fit() {
    let mut cell = ConfigCell::new();
    let mut loadinfo = zero_record();
    LoadDll(&mut loadinfo, &mut cell);

    // terminated length exactly the result length: no slack to clear
    let mut data = terminated("aaaaaaaaaaaaa");
    assert_eq!(data.len(), 14);
    let parms: Vec<u16> = Vec::new();

    let result = hello(&cell, 0, 0, &mut data, &parms, false, false);
    assert_eq!(result, 3);
    let expected = terminated("Hello, world!");
    assert_eq!(data, expected);
}

#[test]
fn hello_before_load_returns_halt() {
    let cell = ConfigCell::new();
    let mut data = terminated("The quick brown fox jumps over the lazy dog");
    let untouched = data.clone();
    let parms: Vec<u16> = Vec::new();

    let result = hello(&cell, 0, 0, &mut data, &parms, false, false);
    assert_eq!(result, 0);
    assert_eq!(data, untouched);
}

#[test]
fn unload_allows_all_reasons() {
    assert_eq!(UnloadDll(0), 1);
    assert_eq!(UnloadDll(1), 1);
    assert_eq!(UnloadDll(2), 1);
}
