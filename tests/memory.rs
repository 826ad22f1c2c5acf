use roc_ast::memory::ExpectMemory;
use roc_ast::repl_app::ExpectReplApp;

fn small_slot(text: &[u8]) -> [u8; 24] {
    let mut slot = [0u8; 24];
    slot[..text.len()].copy_from_slice(text);
    slot[23] = 0x80 | text.len() as u8;
    slot
}

fn large_slot(offset: usize, len: usize, cap: usize) -> Vec<u8> {
    let mut v = Vec::new();
    v.extend_from_slice(&(offset as u64).to_le_bytes());
    v.extend_from_slice(&(len as u64).to_le_bytes());
    v.extend_from_slice(&(cap as u64).to_le_bytes());
    v
}

#[test]
fn small_string_at_offset_8() {
    let mut buf = vec![0u8; 64];
    buf[8..32].copy_from_slice(&small_slot(b"hi"));
    let mem = ExpectMemory::new(buf);
    assert_eq!(mem.deref_str(8), b"hi");
}

#[test]
fn large_string_at_offset_16() {
    let mut buf = vec![0u8; 128];
    buf[16..40].copy_from_slice(&large_slot(100, 5, 5));
    buf[100..105].copy_from_slice(b"abcde");
    let mem = ExpectMemory::new(buf);
    assert_eq!(mem.deref_str(16), b"abcde");
}

#[test]
fn string_round_trip_at_threshold() {
    let below: Vec<u8> = (0..23u8).map(|i| b'a' + i).collect();
    let mut buf = vec![0u8; 40];
    buf[3..27].copy_from_slice(&small_slot(&below));
    assert_eq!(ExpectMemory::new(buf).deref_str(3), &below[..]);

    let at: Vec<u8> = (0..24u8).map(|i| b'A' + i).collect();
    let mut buf = vec![0u8; 80];
    buf[0..24].copy_from_slice(&large_slot(40, 24, 32));
    buf[40..64].copy_from_slice(&at);
    assert_eq!(ExpectMemory::new(buf).deref_str(0), &at[..]);

    let mut buf = vec![0u8; 24];
    buf.copy_from_slice(&small_slot(b""));
    assert_eq!(ExpectMemory::new(buf).deref_str(0), b"");
}

#[test]
fn unaligned_reads_return_what_was_written() {
    for off in [1usize, 3, 5, 7] {
        let mut buf = vec![0xEEu8; 48];
        buf[off..off + 4].copy_from_slice(&0xDEAD_BEEFu32.to_le_bytes());
        buf[off + 4..off + 12].copy_from_slice(&0x0123_4567_89AB_CDEFu64.to_le_bytes());
        buf[off + 12..off + 20].copy_from_slice(&(-5i64).to_le_bytes());
        buf[off + 20..off + 24].copy_from_slice(&(-123456i32).to_le_bytes());
        buf[off + 24..off + 40].copy_from_slice(&(-7i128).to_le_bytes());
        let mem = ExpectMemory::new(buf);
        assert_eq!(mem.deref_u32(off), 0xDEAD_BEEF);
        assert_eq!(mem.deref_u64(off + 4), 0x0123_4567_89AB_CDEF);
        assert_eq!(mem.deref_i64(off + 12), -5);
        assert_eq!(mem.deref_usize(off + 4), 0x0123_4567_89AB_CDEF);
        assert_eq!(mem.deref_isize(off + 12), -5);
        assert_eq!(mem.deref_i32(off + 20), -123456);
        assert_eq!(mem.deref_i128(off + 24), -7);
        assert_eq!(mem.deref_u128(off + 24), (-7i128) as u128);
    }
}

#[test]
fn narrow_reads() {
    let mut buf = vec![0u8; 16];
    buf[0] = 0xFF;
    buf[1] = 0x01;
    buf[2..4].copy_from_slice(&(-2i16).to_le_bytes());
    buf[4..6].copy_from_slice(&0xBEEFu16.to_le_bytes());
    buf[6] = 0x7F;
    let mem = ExpectMemory::new(buf);
    assert_eq!(mem.deref_u8(0), 255);
    assert_eq!(mem.deref_i8(0), -1);
    assert_eq!(mem.deref_i8(6), 127);
    assert!(mem.deref_bool(1));
    assert!(!mem.deref_bool(7));
    assert_eq!(mem.deref_i16(2), -2);
    assert_eq!(mem.deref_u16(4), 0xBEEF);
    assert_eq!(mem.len(), 16);
}

#[test]
fn dynamic_size_passes_the_offset_through() {
    let mem = ExpectMemory::new(vec![0u8; 4]);
    let mut app = ExpectReplApp::new(&mem, 1234);
    let got = app.call_function_dynamic_size("main", 999, |_m, off| off);
    assert_eq!(got, 1234);
    let got = app.call_function_returns_roc_str("main", |_m, off| off + 1);
    assert_eq!(got, 1235);
}

#[test]
fn fixed_shape_results() {
    let mut buf = vec![0u8; 40];
    buf[5..13].copy_from_slice(&(-42i64).to_le_bytes());
    let mem = ExpectMemory::new(buf);
    let mut app = ExpectReplApp::new(&mem, 5);
    let v = app.call_function("main", |_m, x: i64| x * 2);
    assert_eq!(v, -84);

    let mut buf = vec![0u8; 40];
    buf[8..32].copy_from_slice(&large_slot(100, 3, 4));
    let mem = ExpectMemory::new(buf);
    let mut app = ExpectReplApp::new(&mem, 8);
    let triple = app.call_function_returns_roc_list("main", |_m, t| t);
    assert_eq!(triple, (100, 3, 4));
}

#[test]
fn string_result_decoded_by_transform() {
    let mut buf = vec![0u8; 32];
    buf[0..24].copy_from_slice(&small_slot(b"roc"));
    let mem = ExpectMemory::new(buf);
    let mut app = ExpectReplApp::new(&mem, 0);
    let s = app.call_function_returns_roc_str("main", |m, off| m.deref_str(off).to_vec());
    assert_eq!(s, b"roc".to_vec());
}

#[test]
fn checked_string_reads() {
    let mut buf = vec![0u8; 48];
    buf[0..24].copy_from_slice(&small_slot(b"ok"));
    let mem = ExpectMemory::new(buf.clone());
    assert_eq!(mem.deref_str_checked(0), Some(&b"ok"[..]));
    assert_eq!(mem.deref_str_checked(30), None);
    assert_eq!(mem.deref_str_checked(usize::MAX), None);

    let mut bad_small = buf.clone();
    bad_small[23] = 0x80 | 24;
    assert_eq!(ExpectMemory::new(bad_small).deref_str_checked(0), None);

    let mut large = vec![0u8; 48];
    large[0..24].copy_from_slice(&large_slot(40, 9, 9));
    assert_eq!(ExpectMemory::new(large.clone()).deref_str_checked(0), None);
    large[0..24].copy_from_slice(&large_slot(40, 8, 8));
    large[40..48].copy_from_slice(b"12345678");
    assert_eq!(ExpectMemory::new(large).deref_str_checked(0), Some(&b"12345678"[..]));
}
