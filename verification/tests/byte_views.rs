use as_bytes::records::{ReprC, ReprPacked};
use as_bytes::AsBytes;

#[test]
fn test_u32() {
    let i = u32::MAX;
    let bytes = i.as_bytes();
    assert_eq!(bytes, vec![255, 255, 255, 255]);
}

#[test]
fn test_repr_packed_struct() {
    let packed = ReprPacked {
        a: u64::MAX,
        b: 0u8,
        c: u64::MAX,
    };
    let bytes = packed.as_bytes();
    assert_eq!(
        bytes,
        vec![255, 255, 255, 255, 255, 255, 255, 255, 0, 255, 255, 255, 255, 255, 255, 255, 255]
    )
}

#[test]
fn test_repr_c_struct() {
    let packed = ReprC {
        a: u64::MAX,
        b: 0u8,
        c: u64::MAX,
    };
    let bytes = packed.as_bytes();
    assert_eq!(
        bytes,
        vec![
            255, 255, 255, 255, 255, 255, 255, 255, 0, 0, 0, 0, 0, 0, 0, 0, 255, 255, 255, 255,
            255, 255, 255, 255
        ]
    )
}

#[test]
fn view_length_equals_value_size() {
    assert_eq!(7u8.as_bytes().len(), 1);
    assert_eq!(7u16.as_bytes().len(), 2);
    assert_eq!(7u32.as_bytes().len(), 4);
    assert_eq!(7u64.as_bytes().len(), 8);
    let packed = ReprPacked { a: 1, b: 2, c: 3 };
    assert_eq!(packed.as_bytes().len(), 17);
    let aligned = ReprC { a: 1, b: 2, c: 3 };
    assert_eq!(aligned.as_bytes().len(), 24);
}

#[test]
fn view_length_tracks_runtime_size() {
    // The size of a buffer comes from the value, not from its type: two
    // values of one type report different sizes.
    let short: Vec<u8> = vec![9, 8, 7];
    assert_eq!(short.as_bytes().len(), 3);
    assert_eq!(short.as_bytes(), vec![9, 8, 7]);
    let long: Vec<u8> = vec![0; 100];
    assert_eq!(long.as_bytes().len(), 100);
}

#[test]
fn little_endian_byte_order() {
    // The model pins multi-byte fields to little-endian order.
    let v: u16 = 0x0102;
    assert_eq!(v.as_bytes(), vec![2, 1]);
    let w: u32 = 0x0A0B0C0D;
    assert_eq!(w.as_bytes(), vec![0x0D, 0x0C, 0x0B, 0x0A]);
}

#[test]
fn concurrent_views_identical() {
    let v: u32 = 0xDEAD_BEEF;
    let first = v.as_bytes();
    let second = v.as_bytes();
    assert_eq!(first, second);
    let record = ReprC { a: 11, b: 22, c: 33 };
    let one = record.as_bytes();
    let two = record.as_bytes();
    assert_eq!(one, two);
}

#[test]
fn round_trip_u8() {
    let mut v: u8 = 0;
    v.as_bytes_mut(&vec![0x5A]);
    assert_eq!(v, 0x5A);
    assert_eq!(v.as_bytes(), vec![0x5A]);
}

#[test]
fn round_trip_u16() {
    let mut v: u16 = 0;
    v.as_bytes_mut(&vec![0x34, 0x12]);
    assert_eq!(v, 0x1234);
}

#[test]
fn round_trip_u32() {
    let mut v: u32 = 0;
    v.as_bytes_mut(&vec![0x78, 0x56, 0x34, 0x12]);
    assert_eq!(v, 0x12345678);
    assert_eq!(v.as_bytes(), vec![0x78, 0x56, 0x34, 0x12]);
}

#[test]
fn round_trip_u64() {
    let mut v: u64 = 0;
    v.as_bytes_mut(&vec![8, 7, 6, 5, 4, 3, 2, 1]);
    assert_eq!(v, 0x0102030405060708);
    assert_eq!(v.as_bytes(), vec![8, 7, 6, 5, 4, 3, 2, 1]);
}

#[test]
fn round_trip_packed_record() {
    let mut v = ReprPacked { a: 0, b: 0, c: 0 };
    let written: Vec<u8> = vec![1, 0, 0, 0, 0, 0, 0, 0, 7, 2, 0, 0, 0, 0, 0, 0, 0];
    v.as_bytes_mut(&written);
    assert_eq!(v.a, 1);
    assert_eq!(v.b, 7);
    assert_eq!(v.c, 2);
    assert_eq!(v.as_bytes(), written);
}

#[test]
fn round_trip_buffer() {
    let mut v: Vec<u8> = vec![0, 0, 0, 0];
    v.as_bytes_mut(&vec![4, 3, 2, 1]);
    assert_eq!(v, vec![4, 3, 2, 1]);
}

#[test]
fn aligned_padding_not_stored() {
    // Bytes written over the padding positions of an aligned record are
    // dropped: the stored representation keeps its padding zero.
    let mut v = ReprC { a: 0, b: 0, c: 0 };
    let written: Vec<u8> = vec![
        1, 0, 0, 0, 0, 0, 0, 0, 7, 0xAA, 0xAA, 0xAA, 0xAA, 0xAA, 0xAA, 0xAA, 2, 0, 0, 0, 0, 0, 0,
        0,
    ];
    v.as_bytes_mut(&written);
    assert_eq!(v.a, 1);
    assert_eq!(v.b, 7);
    assert_eq!(v.c, 2);
    let reread = v.as_bytes();
    assert_eq!(
        reread,
        vec![1, 0, 0, 0, 0, 0, 0, 0, 7, 0, 0, 0, 0, 0, 0, 0, 2, 0, 0, 0, 0, 0, 0, 0]
    );
}

#[test]
fn dense_and_aligned_layouts_compared() {
    // The same field set under the two layout policies: the dense record
    // takes 17 bytes, the aligned one 24, and they agree up to the point
    // where the aligned padding begins.
    let packed = ReprPacked { a: 5, b: 6, c: 7 };
    let aligned = ReprC { a: 5, b: 6, c: 7 };
    let dense_bytes = packed.as_bytes();
    let aligned_bytes = aligned.as_bytes();
    assert_eq!(dense_bytes.len(), 17);
    assert_eq!(aligned_bytes.len(), 24);
    assert_eq!(dense_bytes[0..9], aligned_bytes[0..9]);
    assert_eq!(dense_bytes[9..17], aligned_bytes[16..24]);
}
