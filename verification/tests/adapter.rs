use crc32_digest::Crc32;

fn checksum_of(data: &[u8]) -> Vec<u8> {
    let mut c = Crc32::new();
    c.update(data);
    let mut out = vec![0u8; 4];
    c.finalize_into(&mut out);
    out
}

#[test]
fn reference_value_of_check_input() {
    // The standard reference CRC-32 of the ASCII digits "123456789".
    assert_eq!(checksum_of(b"123456789"), vec![0xCB, 0xF4, 0x39, 0x26]);
}

#[test]
fn empty_input_checksum_is_zero() {
    assert_eq!(checksum_of(b""), vec![0x00, 0x00, 0x00, 0x00]);
}

#[test]
fn chunked_updates_match_single_update() {
    let mut chunked = Crc32::new();
    chunked.update(b"12345");
    chunked.update(b"6789");
    let mut out = vec![0u8; 4];
    chunked.finalize_into(&mut out);
    assert_eq!(out, checksum_of(b"123456789"));

    let mut many = Crc32::new();
    many.update(b"");
    many.update(b"hello ");
    many.update(b"world");
    many.update(b"");
    let mut out = vec![0u8; 4];
    many.finalize_into(&mut out);
    assert_eq!(out, checksum_of(b"hello world"));
}

#[test]
fn matches_engine_checksum() {
    for data in [
        b"".as_slice(),
        b"a",
        b"123456789",
        b"The quick brown fox jumps over the lazy dog",
    ] {
        let expected = crc32fast::hash(data);
        assert_eq!(checksum_of(data), expected.to_be_bytes().to_vec());
    }
}

#[test]
fn from_state_finalizes_to_the_seed() {
    let c = Crc32::from_state(0xCBF4_3926);
    let mut out = vec![0u8; 4];
    c.finalize_into(&mut out);
    assert_eq!(out, vec![0xCB, 0xF4, 0x39, 0x26]);
}

#[test]
fn from_state_resumes_a_checksum() {
    let mut first = Crc32::new();
    first.update(b"12345");
    let mut seed = vec![0u8; 4];
    first.finalize_into(&mut seed);
    let seed = u32::from_be_bytes([seed[0], seed[1], seed[2], seed[3]]);

    let mut resumed = Crc32::from_state(seed);
    resumed.update(b"6789");
    let mut out = vec![0u8; 4];
    resumed.finalize_into(&mut out);
    assert_eq!(out, checksum_of(b"123456789"));
}

#[test]
fn reset_discards_updates_and_custom_seed() {
    let mut c = Crc32::from_state(0xDEAD_BEEF);
    c.update(b"some earlier bytes");
    c.reset();
    c.update(b"123456789");
    let mut out = vec![0u8; 4];
    c.finalize_into(&mut out);
    assert_eq!(out, vec![0xCB, 0xF4, 0x39, 0x26]);
}

#[test]
fn clones_diverge_independently() {
    let mut base = Crc32::new();
    base.update(b"1234");
    let mut copy = base.clone();

    base.update(b"56789");
    copy.update(b"5678");

    let mut base_out = vec![0u8; 4];
    base.finalize_into(&mut base_out);
    assert_eq!(base_out, checksum_of(b"123456789"));

    let mut copy_out = vec![0u8; 4];
    copy.finalize_into(&mut copy_out);
    assert_eq!(copy_out, checksum_of(b"12345678"));
}

#[test]
fn write_accepts_all_bytes_and_acts_as_update() {
    let mut w = Crc32::new();
    assert_eq!(w.write(b"12345"), 5);
    assert_eq!(w.write(b""), 0);
    assert_eq!(w.write(b"6789"), 4);
    let mut out = vec![0u8; 4];
    w.finalize_into(&mut out);
    assert_eq!(out, vec![0xCB, 0xF4, 0x39, 0x26]);
}

#[test]
fn flush_leaves_the_state_alone() {
    let mut w = Crc32::new();
    w.write(b"123456789");
    w.flush();
    w.flush();
    let mut out = vec![0u8; 4];
    w.finalize_into(&mut out);
    assert_eq!(out, vec![0xCB, 0xF4, 0x39, 0x26]);
}

#[test]
fn output_is_always_four_bytes() {
    assert_eq!(Crc32::output_size(), 4);
}

#[test]
fn default_matches_new() {
    let mut a = Crc32::default();
    let mut b = Crc32::new();
    a.update(b"xyz");
    b.update(b"xyz");
    let mut a_out = vec![0u8; 4];
    a.finalize_into(&mut a_out);
    let mut b_out = vec![0u8; 4];
    b.finalize_into(&mut b_out);
    assert_eq!(a_out, b_out);
}
