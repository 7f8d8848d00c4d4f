use testeq_rs::error::Error;
use testeq_rs::xdr::{
    pack_opaque, pack_u32, unpack_i32, unpack_opaque, unpack_u16, unpack_u32, XdrPack,
};

#[test]
fn u32_is_big_endian() {
    let mut out = Vec::new();
    pack_u32(0x0102_0304, &mut out);
    assert_eq!(out, vec![1, 2, 3, 4]);
}

#[test]
fn u32_round_trip_keeps_rest() {
    for x in [0u32, 1, 703, 0x8000_0000, u32::MAX] {
        let mut buf = Vec::new();
        x.pack_xdr(&mut buf);
        buf.push(9);
        assert_eq!(unpack_u32(&mut buf).unwrap(), x);
        assert_eq!(buf, vec![9]);
    }
}

#[test]
fn i32_round_trip() {
    for x in [0i32, 1, -1, i32::MIN, i32::MAX] {
        let mut buf = Vec::new();
        x.pack_xdr(&mut buf);
        assert_eq!(unpack_i32(&mut buf).unwrap(), x);
        assert!(buf.is_empty());
    }
    let mut buf = Vec::new();
    (-1i32).pack_xdr(&mut buf);
    assert_eq!(buf, vec![0xff, 0xff, 0xff, 0xff]);
}

#[test]
fn bool_packs_as_word() {
    let mut buf = Vec::new();
    true.pack_xdr(&mut buf);
    false.pack_xdr(&mut buf);
    assert_eq!(buf, vec![0, 0, 0, 1, 0, 0, 0, 0]);
    assert_eq!(unpack_u32(&mut buf).unwrap(), 1);
    assert_eq!(unpack_u32(&mut buf).unwrap(), 0);
}

#[test]
fn string_round_trip() {
    let mut buf = Vec::new();
    String::from("inst0").pack_xdr(&mut buf);
    assert_eq!(buf, vec![0, 0, 0, 5, b'i', b'n', b's', b't', b'0', 0, 0, 0]);
    assert_eq!(unpack_opaque(&mut buf).unwrap(), b"inst0".to_vec());
    assert!(buf.is_empty());
}

#[test]
fn opaque_round_trip_every_padding() {
    for n in 0..9usize {
        let data: Vec<u8> = (0..n as u8).map(|b| b + 1).collect();
        let mut buf = Vec::new();
        pack_opaque(&data, &mut buf);
        assert_eq!(buf.len() % 4, 0);
        assert_eq!(buf.len(), 4 + n + (4 - n % 4) % 4);
        buf.extend_from_slice(&[7, 7]);
        assert_eq!(unpack_opaque(&mut buf).unwrap(), data);
        assert_eq!(buf, vec![7, 7]);
    }
}

#[test]
fn opaque_multiple_of_four_has_no_padding() {
    let mut buf = Vec::new();
    pack_opaque(&[1, 2, 3, 4, 5, 6, 7, 8], &mut buf);
    assert_eq!(buf, vec![0, 0, 0, 8, 1, 2, 3, 4, 5, 6, 7, 8]);
}

#[test]
fn opaque_empty_is_length_only() {
    let mut buf = Vec::new();
    pack_opaque(&[], &mut buf);
    assert_eq!(buf, vec![0, 0, 0, 0]);
    assert_eq!(unpack_opaque(&mut buf).unwrap(), Vec::<u8>::new());
}

#[test]
fn short_input_is_bad_response() {
    let mut buf = vec![1, 2, 3];
    assert!(matches!(unpack_u32(&mut buf), Err(Error::BadResponse(_))));
    assert_eq!(buf, vec![1, 2, 3]);
    let mut buf = vec![0, 0, 0, 5, 1, 2, 3, 4, 5, 0, 0];
    assert!(matches!(unpack_opaque(&mut buf), Err(Error::BadResponse(_))));
    assert_eq!(buf.len(), 11);
}

#[test]
fn u16_rejects_large_values() {
    let mut buf = vec![0, 0, 0xff, 0xff];
    assert_eq!(unpack_u16(&mut buf).unwrap(), 0xffff);
    let mut buf = vec![0, 1, 0, 0, 9];
    assert!(matches!(unpack_u16(&mut buf), Err(Error::BadResponse(_))));
    assert_eq!(buf, vec![9]);
    let mut buf = vec![0, 1];
    assert!(matches!(unpack_u16(&mut buf), Err(Error::BadResponse(_))));
    assert_eq!(buf, vec![0, 1]);
}

#[test]
fn nonzero_padding_is_bad_response() {
    let mut buf = vec![0, 0, 0, 1, 0xaa, 1, 0, 0];
    assert!(matches!(unpack_opaque(&mut buf), Err(Error::BadResponse(_))));
    assert_eq!(buf.len(), 8);
    let mut buf = vec![0, 0, 0, 3, 1, 2, 3, 7];
    assert!(matches!(unpack_opaque(&mut buf), Err(Error::BadResponse(_))));
    let mut buf = vec![0, 0, 0, 1, 0xaa, 0, 0, 0];
    assert_eq!(unpack_opaque(&mut buf).unwrap(), vec![0xaa]);
}
