use movenet::bytes::{
    append_bytes, byte_order_of_probe, copy_range, native_byte_order, push_be, push_int, push_le,
    push_u128, push_u32, push_u64, read_be, read_int, read_le, read_u128, read_u32, read_u64,
    ByteOrder,
};

#[test]
fn big_endian_bytes_of_a_word() {
    let mut out = Vec::new();
    push_u64(ByteOrder::Big, 0x0102_0304_0506_0708, &mut out);
    assert_eq!(out, vec![1, 2, 3, 4, 5, 6, 7, 8]);
}

#[test]
fn little_endian_bytes_of_a_word() {
    let mut out = Vec::new();
    push_u64(ByteOrder::Little, 0x0102_0304_0506_0708, &mut out);
    assert_eq!(out, vec![8, 7, 6, 5, 4, 3, 2, 1]);
}

#[test]
fn pushes_agree_with_the_standard_conversions() {
    for x in [0u64, 1, 255, 256, 0xDEAD_BEEF, u64::MAX] {
        let mut be = Vec::new();
        push_u64(ByteOrder::Big, x, &mut be);
        assert_eq!(be, x.to_be_bytes().to_vec());
        let mut le = Vec::new();
        push_u64(ByteOrder::Little, x, &mut le);
        assert_eq!(le, x.to_le_bytes().to_vec());
    }
    for x in [0u32, 192, 0x5659_5559, u32::MAX] {
        let mut be = Vec::new();
        push_u32(ByteOrder::Big, x, &mut be);
        assert_eq!(be, x.to_be_bytes().to_vec());
    }
    for x in [0u128, 42, u128::MAX, 1u128 << 100] {
        let mut be = Vec::new();
        push_u128(ByteOrder::Big, x, &mut be);
        assert_eq!(be, x.to_be_bytes().to_vec());
        let mut le = Vec::new();
        push_u128(ByteOrder::Little, x, &mut le);
        assert_eq!(le, x.to_le_bytes().to_vec());
    }
}

#[test]
fn pushes_append_and_keep_what_was_there() {
    let mut out = vec![9u8];
    push_be(0x0102, 2, &mut out);
    push_le(0x0102, 2, &mut out);
    push_int(ByteOrder::Big, 7, 1, &mut out);
    push_int(ByteOrder::Little, 7, 0, &mut out);
    assert_eq!(out, vec![9, 1, 2, 2, 1, 7]);
}

#[test]
fn narrow_fields_keep_the_low_bytes() {
    let mut out = Vec::new();
    push_be(0x0102_0304, 2, &mut out);
    push_le(0x0102_0304, 2, &mut out);
    assert_eq!(out, vec![3, 4, 4, 3]);
}

#[test]
fn reads_undo_pushes_in_both_orders() {
    for order in [ByteOrder::Big, ByteOrder::Little] {
        let mut out = vec![0xAAu8];
        push_u128(order, 0x0123_4567_89AB_CDEF_0011_2233_4455_6677, &mut out);
        push_u32(order, 0xCAFE_F00D, &mut out);
        push_u64(order, 0x1122_3344_5566_7788, &mut out);
        assert_eq!(read_u128(order, &out, 1), 0x0123_4567_89AB_CDEF_0011_2233_4455_6677);
        assert_eq!(read_u32(order, &out, 17), 0xCAFE_F00D);
        assert_eq!(read_u64(order, &out, 21), 0x1122_3344_5566_7788);
    }
}

#[test]
fn reads_of_given_bytes() {
    let bytes = [0x12u8, 0x34, 0x56];
    assert_eq!(read_be(&bytes, 0, 2), 0x1234);
    assert_eq!(read_le(&bytes, 0, 2), 0x3412);
    assert_eq!(read_be(&bytes, 1, 2), 0x3456);
    assert_eq!(read_int(ByteOrder::Big, &bytes, 0, 3), 0x123456);
    assert_eq!(read_int(ByteOrder::Little, &bytes, 0, 3), 0x563412);
    assert_eq!(read_int(ByteOrder::Little, &bytes, 3, 0), 0);
}

#[test]
fn native_order_is_that_of_the_standard_conversion() {
    let order = native_byte_order();
    let mut out = Vec::new();
    push_u64(order, 0x0102_0304_0506_0708, &mut out);
    assert_eq!(out, 0x0102_0304_0506_0708u64.to_ne_bytes().to_vec());
    assert_eq!(read_u64(order, &out, 0), 0x0102_0304_0506_0708);
}

#[test]
fn probe_tells_the_orders_apart() {
    assert_eq!(byte_order_of_probe(&[1, 0]), ByteOrder::Little);
    assert_eq!(byte_order_of_probe(&[0, 1]), ByteOrder::Big);
}

#[test]
fn byte_ranges_are_copied_and_appended() {
    let bytes = [1u8, 2, 3, 4, 5];
    assert_eq!(copy_range(&bytes, 1, 4), vec![2, 3, 4]);
    assert_eq!(copy_range(&bytes, 2, 2), Vec::<u8>::new());
    let mut out = vec![0u8];
    append_bytes(&mut out, &bytes[3..]);
    assert_eq!(out, vec![0, 4, 5]);
}
