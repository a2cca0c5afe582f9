use mm_byte_order::Converter;

#[test]
fn u16_octets_are_exchanged() {
    let src = 0x1234_u16;
    let dest = src.convert_byte_order();
    assert_eq!(0x3412, dest);
    assert_eq!(src, dest.convert_byte_order());
}

#[test]
fn i16_octets_are_exchanged() {
    let src = 0xFFFE_u16 as i16;
    let dest = src.convert_byte_order();
    assert_eq!(-257, dest);
    assert_eq!(0xFEFF_u16 as i16, dest);
    assert_eq!(src, dest.convert_byte_order());
    assert_eq!(0xFFFE_u16 as i16, dest.convert_byte_order());
}

#[test]
fn u32_octets_are_reversed() {
    let src = 0x12345678_u32;
    let dest = src.convert_byte_order();
    assert_eq!(0x78563412, dest);
    assert_eq!(src, dest.convert_byte_order());
}

#[test]
fn i32_octets_are_reversed() {
    let src = 0xFF123456_u32 as i32;
    let dest = src.convert_byte_order();
    assert_eq!(1446253311, dest);
    assert_eq!(0x563412FF, dest);
    assert_eq!(-15584170, dest.convert_byte_order());
    assert_eq!(0xFF123456_u32 as i32, dest.convert_byte_order());
}

#[test]
fn u64_octets_are_reversed() {
    let src = 0x1234567812345678_u64;
    let dest = src.convert_byte_order();
    assert_eq!(0x7856341278563412, dest);
    assert_eq!(src, dest.convert_byte_order());
}

#[test]
fn i64_octets_are_reversed() {
    let src = 0xFF345678123456FF_u64 as i64;
    let dest = src.convert_byte_order();
    assert_eq!(-47793492107840257, dest);
    assert_eq!(0xFF563412785634FF_u64 as i64, dest);
    assert_eq!(-57325821547489537, dest.convert_byte_order());
    assert_eq!(0xFF345678123456FF_u64 as i64, dest.convert_byte_order());
}

#[test]
fn u8_is_left_as_it_is() {
    for x in 0..=u8::MAX {
        assert_eq!(x, x.convert_byte_order());
    }
}

#[test]
fn i8_is_left_as_it_is() {
    for x in i8::MIN..=i8::MAX {
        assert_eq!(x, x.convert_byte_order());
    }
}

#[test]
fn zero_stays_zero() {
    assert_eq!(0_u8, 0_u8.convert_byte_order());
    assert_eq!(0_i8, 0_i8.convert_byte_order());
    assert_eq!(0_u16, 0_u16.convert_byte_order());
    assert_eq!(0_i16, 0_i16.convert_byte_order());
    assert_eq!(0_u32, 0_u32.convert_byte_order());
    assert_eq!(0_i32, 0_i32.convert_byte_order());
    assert_eq!(0_u64, 0_u64.convert_byte_order());
    assert_eq!(0_i64, 0_i64.convert_byte_order());
}

#[test]
fn all_ones_stay_all_ones() {
    assert_eq!(u8::MAX, u8::MAX.convert_byte_order());
    assert_eq!(-1_i8, (-1_i8).convert_byte_order());
    assert_eq!(u16::MAX, u16::MAX.convert_byte_order());
    assert_eq!(-1_i16, (-1_i16).convert_byte_order());
    assert_eq!(u32::MAX, u32::MAX.convert_byte_order());
    assert_eq!(-1_i32, (-1_i32).convert_byte_order());
    assert_eq!(u64::MAX, u64::MAX.convert_byte_order());
    assert_eq!(-1_i64, (-1_i64).convert_byte_order());
}

#[test]
fn repeated_octet_groups_swap_in_step() {
    assert_eq!(0xFF00_u16, 0x00FF_u16.convert_byte_order());
    assert_eq!(0xFF00FF00_u32, 0x00FF00FF_u32.convert_byte_order());
    assert_eq!(0xFF00FF00FF00FF00_u64, 0x00FF00FF00FF00FF_u64.convert_byte_order());
    assert_eq!(0xFF00FF00_u32 as i32, 0x00FF00FF_i32.convert_byte_order());
}

#[test]
fn every_octet_lands_at_the_mirrored_place() {
    assert_eq!(0x0201_u16, 0x0102_u16.convert_byte_order());
    assert_eq!(0x04030201_u32, 0x01020304_u32.convert_byte_order());
    assert_eq!(0x0807060504030201_u64, 0x0102030405060708_u64.convert_byte_order());
    assert_eq!(0x0807060504030201_i64, 0x0102030405060708_i64.convert_byte_order());
}

#[test]
fn extremes_of_the_signed_types() {
    assert_eq!(0x0080_i16, i16::MIN.convert_byte_order());
    assert_eq!(0xFF7F_u16 as i16, i16::MAX.convert_byte_order());
    assert_eq!(0x00000080_i32, i32::MIN.convert_byte_order());
    assert_eq!(0xFFFFFF7F_u32 as i32, i32::MAX.convert_byte_order());
    assert_eq!(0x0000000000000080_i64, i64::MIN.convert_byte_order());
    assert_eq!(0xFFFFFFFFFFFFFF7F_u64 as i64, i64::MAX.convert_byte_order());
}

#[test]
fn agrees_with_the_octets_read_in_the_other_order() {
    let samples: [u64; 6] =
        [0, 1, 0x1234567812345678, 0x8000000000000001, 0x00FF00FF00FF00FF, u64::MAX];
    for s in samples {
        let a = s as u16;
        assert_eq!(u16::from_le_bytes(a.to_be_bytes()), a.convert_byte_order());
        let b = s as u32;
        assert_eq!(u32::from_le_bytes(b.to_be_bytes()), b.convert_byte_order());
        assert_eq!(u64::from_le_bytes(s.to_be_bytes()), s.convert_byte_order());
        let c = s as i16;
        assert_eq!(i16::from_le_bytes(c.to_be_bytes()), c.convert_byte_order());
        let d = s as i32;
        assert_eq!(i32::from_le_bytes(d.to_be_bytes()), d.convert_byte_order());
        let e = s as i64;
        assert_eq!(i64::from_le_bytes(e.to_be_bytes()), e.convert_byte_order());
    }
}

#[test]
fn converting_twice_gives_the_value_back() {
    for x in 0..=u16::MAX {
        assert_eq!(x, x.convert_byte_order().convert_byte_order());
        let y = x as i16;
        assert_eq!(y, y.convert_byte_order().convert_byte_order());
    }
    let wide: [u64; 5] = [0, 0x0102030405060708, 0x80000000, 0xFF345678123456FF, u64::MAX];
    for x in wide {
        assert_eq!(x, x.convert_byte_order().convert_byte_order());
        assert_eq!(x as i64, (x as i64).convert_byte_order().convert_byte_order());
        assert_eq!(x as u32, (x as u32).convert_byte_order().convert_byte_order());
        assert_eq!(x as i32, (x as i32).convert_byte_order().convert_byte_order());
    }
}

#[test]
fn signed_and_unsigned_share_their_octets() {
    for x in 0..=u16::MAX {
        let signed = (x as i16).convert_byte_order();
        assert_eq!(x.convert_byte_order().to_be_bytes(), signed.to_be_bytes());
    }
    let wide: [u64; 5] = [0, 0x0102030405060708, 0x80000000, 0xFF345678123456FF, u64::MAX];
    for x in wide {
        assert_eq!(x.convert_byte_order() as i64, (x as i64).convert_byte_order());
        assert_eq!((x as u32).convert_byte_order() as i32, (x as i32).convert_byte_order());
        assert_eq!((x as u8).convert_byte_order() as i8, (x as i8).convert_byte_order());
    }
}
