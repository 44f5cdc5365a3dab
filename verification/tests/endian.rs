//! Behavior of the byte-order wrapper types.

use foreign_endian::endian::BigEndian;
use foreign_endian::endian::ForeignEndian;
use foreign_endian::endian::LittleEndian;
use foreign_endian::endian::{i128be, i16be, i32be, i64be, i8be};
use foreign_endian::endian::{i128le, i16le, i32le, i64le, i8le};
use foreign_endian::endian::{u128be, u16be, u32be, u64be, u8be};
use foreign_endian::endian::{u128le, u16le, u32le, u64le, u8le};

fn host_is_little() -> bool {
    u16::from_ne_bytes([1, 0]) == 1
}

#[test]
fn round_trip_unsigned() {
    assert_eq!(u8be::from_native(0xA5).to_native(), 0xA5);
    assert_eq!(u8le::from_native(0xA5).to_native(), 0xA5);
    assert_eq!(u16be::from_native(0x1234).to_native(), 0x1234);
    assert_eq!(u16le::from_native(0x1234).to_native(), 0x1234);
    assert_eq!(u32be::from_native(0xDEAD_BEEF).to_native(), 0xDEAD_BEEF);
    assert_eq!(u32le::from_native(0xDEAD_BEEF).to_native(), 0xDEAD_BEEF);
    assert_eq!(
        u64be::from_native(0x0123_4567_89AB_CDEF).to_native(),
        0x0123_4567_89AB_CDEF
    );
    assert_eq!(
        u64le::from_native(0x0123_4567_89AB_CDEF).to_native(),
        0x0123_4567_89AB_CDEF
    );
    assert_eq!(
        u128be::from_native(0x0123_4567_89AB_CDEF_0011_2233_4455_6677).to_native(),
        0x0123_4567_89AB_CDEF_0011_2233_4455_6677
    );
    assert_eq!(
        u128le::from_native(0x0123_4567_89AB_CDEF_0011_2233_4455_6677).to_native(),
        0x0123_4567_89AB_CDEF_0011_2233_4455_6677
    );
    assert_eq!(u16be::from_native(u16::MAX).to_native(), u16::MAX);
    assert_eq!(u64le::from_native(u64::MAX).to_native(), u64::MAX);
    assert_eq!(u32be::from_native(0).to_native(), 0);
}

#[test]
fn round_trip_signed() {
    assert_eq!(i8be::from_native(-5).to_native(), -5);
    assert_eq!(i8le::from_native(-5).to_native(), -5);
    assert_eq!(i16be::from_native(-12345).to_native(), -12345);
    assert_eq!(i16le::from_native(-12345).to_native(), -12345);
    assert_eq!(i32be::from_native(i32::MIN).to_native(), i32::MIN);
    assert_eq!(i32le::from_native(i32::MIN).to_native(), i32::MIN);
    assert_eq!(i64be::from_native(i64::MAX).to_native(), i64::MAX);
    assert_eq!(i64le::from_native(-1).to_native(), -1);
    assert_eq!(i128be::from_native(i128::MIN).to_native(), i128::MIN);
    assert_eq!(i128le::from_native(i128::MAX).to_native(), i128::MAX);
}

#[test]
fn round_trip_pointer_sized() {
    assert_eq!(
        BigEndian::<usize>::from_native(0x1234_5678).to_native(),
        0x1234_5678
    );
    assert_eq!(
        LittleEndian::<usize>::from_native(usize::MAX).to_native(),
        usize::MAX
    );
    assert_eq!(
        BigEndian::<isize>::from_native(-0x1234_5678).to_native(),
        -0x1234_5678
    );
    assert_eq!(
        LittleEndian::<isize>::from_native(isize::MIN).to_native(),
        isize::MIN
    );
}

#[test]
fn raw_passthrough() {
    assert_eq!(u16be::from_raw(0xADDE).to_raw(), 0xADDE);
    assert_eq!(u16le::from_raw(0xADDE).to_raw(), 0xADDE);
    assert_eq!(u32be::from_raw(0xEFBE_ADDE).to_raw(), 0xEFBE_ADDE);
    assert_eq!(u64le::from_raw(u64::MAX - 1).to_raw(), u64::MAX - 1);
    assert_eq!(u128be::from_raw(1 << 100).to_raw(), 1 << 100);
    assert_eq!(i16be::from_raw(-2).to_raw(), -2);
    assert_eq!(i64le::from_raw(i64::MIN).to_raw(), i64::MIN);
    assert_eq!(u8le::from_raw(0x7F).to_raw(), 0x7F);
}

#[test]
fn matching_host_converts_nothing() {
    if host_is_little() {
        let w = u32le::from_raw(0xDEAD_BEEF);
        assert_eq!(w.to_raw(), w.to_native());
        let v = i16le::from_raw(-321);
        assert_eq!(v.to_raw(), v.to_native());
    } else {
        let w = u32be::from_raw(0xDEAD_BEEF);
        assert_eq!(w.to_raw(), w.to_native());
        let v = i16be::from_raw(-321);
        assert_eq!(v.to_raw(), v.to_native());
    }
}

#[test]
fn mismatched_host_reverses_bytes() {
    if host_is_little() {
        assert_eq!(u16be::from_raw(0x1234).to_native(), 0x1234u16.swap_bytes());
        assert_eq!(
            u32be::from_raw(0xDEAD_BEEF).to_native(),
            0xDEAD_BEEFu32.swap_bytes()
        );
        assert_eq!(
            u64be::from_raw(0x0123_4567_89AB_CDEF).to_native(),
            0x0123_4567_89AB_CDEFu64.swap_bytes()
        );
        assert_eq!(
            u128be::from_raw(0x0123_4567_89AB_CDEF_0011_2233_4455_6677)
                .to_native(),
            0x0123_4567_89AB_CDEF_0011_2233_4455_6677u128.swap_bytes()
        );
        assert_eq!(i32be::from_raw(-2).to_native(), (-2i32).swap_bytes());
        assert_eq!(u8be::from_raw(0x5A).to_native(), 0x5Au8.swap_bytes());
    } else {
        assert_eq!(u16le::from_raw(0x1234).to_native(), 0x1234u16.swap_bytes());
        assert_eq!(
            u32le::from_raw(0xDEAD_BEEF).to_native(),
            0xDEAD_BEEFu32.swap_bytes()
        );
        assert_eq!(
            u64le::from_raw(0x0123_4567_89AB_CDEF).to_native(),
            0x0123_4567_89AB_CDEFu64.swap_bytes()
        );
        assert_eq!(
            u128le::from_raw(0x0123_4567_89AB_CDEF_0011_2233_4455_6677)
                .to_native(),
            0x0123_4567_89AB_CDEF_0011_2233_4455_6677u128.swap_bytes()
        );
        assert_eq!(i32le::from_raw(-2).to_native(), (-2i32).swap_bytes());
        assert_eq!(u8le::from_raw(0x5A).to_native(), 0x5Au8.swap_bytes());
    }
}

#[test]
fn equality_reflects_native_equality() {
    assert_eq!(u16be::from_native(7), u16be::from_native(7));
    assert_ne!(u16be::from_native(7), u16be::from_native(8));
    assert_eq!(u16le::from_native(0x0100), u16le::from_native(0x0100));
    assert_ne!(u16le::from_native(0x0100), u16le::from_native(0x0001));
    assert_eq!(i64be::from_native(-9), i64be::from_native(-9));
    assert_ne!(i64be::from_native(-9), i64be::from_native(9));
    assert_eq!(u128le::from_native(1 << 99), u128le::from_native(1 << 99));
    assert_ne!(u128le::from_native(1 << 99), u128le::from_native(1 << 98));
}

#[test]
fn default_is_zero() {
    assert_eq!(u8be::default().to_native(), 0);
    assert_eq!(u16be::default().to_native(), 0);
    assert_eq!(u32be::default().to_native(), 0);
    assert_eq!(u64be::default().to_native(), 0);
    assert_eq!(u128be::default().to_native(), 0);
    assert_eq!(i8le::default().to_native(), 0);
    assert_eq!(i16le::default().to_native(), 0);
    assert_eq!(i32le::default().to_native(), 0);
    assert_eq!(i64le::default().to_native(), 0);
    assert_eq!(i128le::default().to_native(), 0);
    assert_eq!(BigEndian::<usize>::default().to_native(), 0);
    assert_eq!(LittleEndian::<isize>::default().to_native(), 0);
    assert_eq!(u32be::default().to_raw(), 0);
    assert_eq!(i64le::default().to_raw(), 0);
}

#[test]
fn from_is_from_native() {
    assert_eq!(u16be::from(0x1234), u16be::from_native(0x1234));
    assert_eq!(u32le::from(0xDEAD_BEEF), u32le::from_native(0xDEAD_BEEF));
    assert_eq!(i64be::from(-77), i64be::from_native(-77));
    assert_eq!(u16be::from(0x1234).to_native(), 0x1234);
}

#[test]
fn wrap_0x1234_big_endian_raw_bytes() {
    let w = u16be::from_native(0x1234);
    assert_eq!(w.to_raw().to_ne_bytes(), [0x12, 0x34]);
    assert_eq!(w.to_native(), 0x1234);
}

#[test]
fn wrap_0x1234_little_endian_raw_bytes() {
    let w = u16le::from_native(0x1234);
    assert_eq!(w.to_raw().to_ne_bytes(), [0x34, 0x12]);
    assert_eq!(w.to_native(), 0x1234);
}

#[test]
fn raw_bytes_de_ad_read_as_big_endian() {
    let w = u16be::from_raw(u16::from_ne_bytes([0xDE, 0xAD]));
    assert_eq!(w.to_native(), 0xDEAD);
    if host_is_little() {
        assert_ne!(w.to_native(), w.to_raw());
        assert_eq!(w.to_raw(), 0xADDE);
    }
}

#[test]
fn copies_are_independent_values() {
    let w = u64be::from_native(42);
    let c = w;
    assert_eq!(w, c);
    assert_eq!(c.to_native(), 42);
    let d = w.clone();
    assert_eq!(d.to_native(), 42);
}
