//! Byte-order capability for primitive integers.
//!
//! The [`PrimInt`] trait certifies, for a closed set of fixed-width integer
//! types, that the byte order of a value can be reasoned about: each granted
//! type carries a specification of its exact byte reversal together with a
//! proof that reversing twice restores the original value, plus the few
//! executable operations the wrapper types in [`crate::endian`] are built from.
//!
//! On top of that capability, the free functions [`to_be`], [`from_be`],
//! [`to_le`] and [`from_le`] convert between the host's arithmetic
//! representation and a fixed foreign byte order. Whether such a conversion
//! swaps bytes or leaves the value alone depends on the byte order of the
//! running machine, which the contracts express through
//! [`vstd::endian::endianness`].

use vstd::prelude::*;

verus! {

use vstd::endian::Endian;
use vstd::endian::endianness;

/// Capability granted to primitive fixed-width integers.
///
/// A granted type knows its own byte reversal ([`PrimInt::spec_swap`]) and
/// proves it is an involution, so that the conversions built on it are
/// bijections. The capability is granted only to the primitive integers of
/// the language, whose every bit pattern is a valid value; it is never
/// granted to aggregates, which could carry padding.
pub trait PrimInt: Sized + Copy {
    /// The value whose bytes are those of `x` in reverse order.
    spec fn spec_swap(x: Self) -> Self;

    /// The zero value of the type.
    spec fn spec_zero() -> Self;

    /// Reversing the bytes twice restores the original value.
    proof fn lemma_swap_involution(x: Self)
        ensures
            Self::spec_swap(Self::spec_swap(x)) == x,
    ;

    /// Zero reads the same in either byte order: reversal fixes it.
    proof fn lemma_swap_zero()
        ensures
            Self::spec_swap(Self::spec_zero()) == Self::spec_zero(),
    ;

    /// Returns the value with its bytes in reverse order.
    fn swapped(self) -> (r: Self)
        ensures
            r == Self::spec_swap(self),
    ;

    /// Returns the zero value of the type.
    fn zero() -> (r: Self)
        ensures
            r == Self::spec_zero(),
    ;

    /// Value equality, usable from generic code.
    fn eq_value(self, other: Self) -> (r: bool)
        ensures
            r == (self == other),
    ;
}

/// True exactly on a big-endian host.
///
/// Relies on `u16::from_ne_bytes`, which assembles an integer from bytes
/// given in the host's own memory order: the byte pair `[0, 1]` reads as `1`
/// precisely when the most significant byte comes first. The result is tied
/// to `vstd::endian::endianness`, the abstract byte order of the running
/// machine.
#[verifier::external_body]
fn host_is_big_endian() -> (r: bool)
    ensures
        r == (endianness() == Endian::Big),
{
    u16::from_ne_bytes([0u8, 1u8]) == 1u16
}

/// A value as big-endian encoding sees it: unchanged on a big-endian host,
/// byte-reversed on a little-endian host. The conversion is its own inverse,
/// so it serves both directions, into and out of the encoding.
pub open spec fn spec_be_convert<T: PrimInt>(x: T) -> T {
    if endianness() == Endian::Big {
        x
    } else {
        T::spec_swap(x)
    }
}

/// A value as little-endian encoding sees it: unchanged on a little-endian
/// host, byte-reversed on a big-endian host. Its own inverse, like
/// [`spec_be_convert`].
pub open spec fn spec_le_convert<T: PrimInt>(x: T) -> T {
    if endianness() == Endian::Little {
        x
    } else {
        T::spec_swap(x)
    }
}

/// Converting a value into big-endian layout and back restores it, in either
/// order of the two directions.
pub proof fn lemma_be_convert_involution<T: PrimInt>(x: T)
    ensures
        spec_be_convert(spec_be_convert(x)) == x,
{
    T::lemma_swap_involution(x);
}

/// Converting a value into little-endian layout and back restores it, in
/// either order of the two directions.
pub proof fn lemma_le_convert_involution<T: PrimInt>(x: T)
    ensures
        spec_le_convert(spec_le_convert(x)) == x,
{
    T::lemma_swap_involution(x);
}

/// Converts a host-order value to its big-endian byte layout.
pub fn to_be<T: PrimInt>(x: T) -> (r: T)
    ensures
        r == spec_be_convert(x),
{
    if host_is_big_endian() {
        x
    } else {
        x.swapped()
    }
}

/// Interprets `x`'s bytes as big-endian and returns the value in host order.
/// The same bijection as [`to_be`]: a conditional byte swap is its own
/// inverse.
pub fn from_be<T: PrimInt>(x: T) -> (r: T)
    ensures
        r == spec_be_convert(x),
{
    if host_is_big_endian() {
        x
    } else {
        x.swapped()
    }
}

/// Converts a host-order value to its little-endian byte layout.
pub fn to_le<T: PrimInt>(x: T) -> (r: T)
    ensures
        r == spec_le_convert(x),
{
    if host_is_big_endian() {
        x.swapped()
    } else {
        x
    }
}

/// Interprets `x`'s bytes as little-endian and returns the value in host
/// order. The same bijection as [`to_le`].
pub fn from_le<T: PrimInt>(x: T) -> (r: T)
    ensures
        r == spec_le_convert(x),
{
    if host_is_big_endian() {
        x.swapped()
    } else {
        x
    }
}

impl PrimInt for u8 {
    open spec fn spec_swap(x: u8) -> u8 {
        x
    }

    open spec fn spec_zero() -> u8 {
        0u8
    }

    proof fn lemma_swap_involution(x: u8) {
    }

    proof fn lemma_swap_zero() {
    }

    fn swapped(self) -> (r: u8) {
        self
    }

    fn zero() -> (r: u8) {
        0u8
    }

    fn eq_value(self, other: u8) -> (r: bool) {
        self == other
    }
}

impl PrimInt for u16 {
    open spec fn spec_swap(x: u16) -> u16 {
        ((x & 0xff) << 8) | (x >> 8)
    }

    open spec fn spec_zero() -> u16 {
        0u16
    }

    proof fn lemma_swap_involution(x: u16) {
        assert((((((x & 0xff) << 8) | (x >> 8)) & 0xff) << 8) | ((((x & 0xff) << 8) | (x >> 8))
            >> 8) == x) by (bit_vector);
    }

    proof fn lemma_swap_zero() {
        assert(Self::spec_swap(0u16) == 0u16) by (bit_vector);
    }

    fn swapped(self) -> (r: u16) {
        ((self & 0xff) << 8) | (self >> 8)
    }

    fn zero() -> (r: u16) {
        0u16
    }

    fn eq_value(self, other: u16) -> (r: bool) {
        self == other
    }
}

impl PrimInt for u32 {
    open spec fn spec_swap(x: u32) -> u32 {
        ((x & 0xff) << 24) | (((x >> 8) & 0xff) << 16) | (((x >> 16) & 0xff) << 8) | (x >> 24)
    }

    open spec fn spec_zero() -> u32 {
        0u32
    }

    proof fn lemma_swap_involution(x: u32) {
        assert(Self::spec_swap(Self::spec_swap(x)) == x) by (bit_vector);
    }

    proof fn lemma_swap_zero() {
        assert(Self::spec_swap(0u32) == 0u32) by (bit_vector);
    }

    fn swapped(self) -> (r: u32) {
        ((self & 0xff) << 24) | (((self >> 8) & 0xff) << 16) | (((self >> 16) & 0xff) << 8) | (
        self >> 24)
    }

    fn zero() -> (r: u32) {
        0u32
    }

    fn eq_value(self, other: u32) -> (r: bool) {
        self == other
    }
}

impl PrimInt for u64 {
    open spec fn spec_swap(x: u64) -> u64 {
        ((x & 0xff) << 56) | (((x >> 8) & 0xff) << 48) | (((x >> 16) & 0xff) << 40) | (((x >> 24)
            & 0xff) << 32) | (((x >> 32) & 0xff) << 24) | (((x >> 40) & 0xff) << 16) | (((x >> 48)
            & 0xff) << 8) | (x >> 56)
    }

    open spec fn spec_zero() -> u64 {
        0u64
    }

    proof fn lemma_swap_involution(x: u64) {
        assert(Self::spec_swap(Self::spec_swap(x)) == x) by (bit_vector);
    }

    proof fn lemma_swap_zero() {
        assert(Self::spec_swap(0u64) == 0u64) by (bit_vector);
    }

    fn swapped(self) -> (r: u64) {
        ((self & 0xff) << 56) | (((self >> 8) & 0xff) << 48) | (((self >> 16) & 0xff) << 40) | (((
        self >> 24) & 0xff) << 32) | (((self >> 32) & 0xff) << 24) | (((self >> 40) & 0xff) << 16)
            | (((self >> 48) & 0xff) << 8) | (self >> 56)
    }

    fn zero() -> (r: u64) {
        0u64
    }

    fn eq_value(self, other: u64) -> (r: bool) {
        self == other
    }
}

impl PrimInt for u128 {
    open spec fn spec_swap(x: u128) -> u128 {
        ((x & 0xff) << 120) | (((x >> 8) & 0xff) << 112) | (((x >> 16) & 0xff) << 104) | (((x
            >> 24) & 0xff) << 96) | (((x >> 32) & 0xff) << 88) | (((x >> 40) & 0xff) << 80) | (((x
            >> 48) & 0xff) << 72) | (((x >> 56) & 0xff) << 64) | (((x >> 64) & 0xff) << 56) | (((x
            >> 72) & 0xff) << 48) | (((x >> 80) & 0xff) << 40) | (((x >> 88) & 0xff) << 32) | (((x
            >> 96) & 0xff) << 24) | (((x >> 104) & 0xff) << 16) | (((x >> 112) & 0xff) << 8) | (x
            >> 120)
    }

    open spec fn spec_zero() -> u128 {
        0u128
    }

    proof fn lemma_swap_involution(x: u128) {
        assert(Self::spec_swap(Self::spec_swap(x)) == x) by (bit_vector);
    }

    proof fn lemma_swap_zero() {
        assert(Self::spec_swap(0u128) == 0u128) by (bit_vector);
    }

    fn swapped(self) -> (r: u128) {
        ((self & 0xff) << 120) | (((self >> 8) & 0xff) << 112) | (((self >> 16) & 0xff) << 104) | (
        ((self >> 24) & 0xff) << 96) | (((self >> 32) & 0xff) << 88) | (((self >> 40) & 0xff)
            << 80) | (((self >> 48) & 0xff) << 72) | (((self >> 56) & 0xff) << 64) | (((self >> 64)
            & 0xff) << 56) | (((self >> 72) & 0xff) << 48) | (((self >> 80) & 0xff) << 40) | (((
        self >> 88) & 0xff) << 32) | (((self >> 96) & 0xff) << 24) | (((self >> 104) & 0xff) << 16)
            | (((self >> 112) & 0xff) << 8) | (self >> 120)
    }

    fn zero() -> (r: u128) {
        0u128
    }

    fn eq_value(self, other: u128) -> (r: bool) {
        self == other
    }
}

impl PrimInt for usize {
    open spec fn spec_swap(x: usize) -> usize {
        if usize::BITS == 64 {
            <u64 as PrimInt>::spec_swap(x as u64) as usize
        } else {
            <u32 as PrimInt>::spec_swap(x as u32) as usize
        }
    }

    open spec fn spec_zero() -> usize {
        0usize
    }

    proof fn lemma_swap_involution(x: usize) {
        if usize::BITS == 64 {
            <u64 as PrimInt>::lemma_swap_involution(x as u64);
            assert((x as u64) as usize == x) by (bit_vector);
            let y: u64 = <u64 as PrimInt>::spec_swap(x as u64);
            assert(usize::BITS == 64 ==> (y as usize) as u64 == y) by (bit_vector);
        } else {
            <u32 as PrimInt>::lemma_swap_involution(x as u32);
            assert(usize::BITS == 32 ==> (x as u32) as usize == x) by (bit_vector);
            let y: u32 = <u32 as PrimInt>::spec_swap(x as u32);
            assert(usize::BITS == 32 ==> (y as usize) as u32 == y) by (bit_vector);
        }
    }

    proof fn lemma_swap_zero() {
        if usize::BITS == 64 {
            <u64 as PrimInt>::lemma_swap_zero();
            assert(usize::BITS == 64 ==> <u64 as PrimInt>::spec_swap(0usize as u64) as usize == 0usize) by (bit_vector);
        } else {
            <u32 as PrimInt>::lemma_swap_zero();
            assert(usize::BITS == 32 ==> <u32 as PrimInt>::spec_swap(0usize as u32) as usize == 0usize) by (bit_vector);
        }
    }

    fn swapped(self) -> (r: usize) {
        if usize::BITS == 64 {
            (self as u64).swapped() as usize
        } else {
            (self as u32).swapped() as usize
        }
    }

    fn zero() -> (r: usize) {
        0usize
    }

    fn eq_value(self, other: usize) -> (r: bool) {
        self == other
    }
}

impl PrimInt for i8 {
    open spec fn spec_swap(x: i8) -> i8 {
        x
    }

    open spec fn spec_zero() -> i8 {
        0i8
    }

    proof fn lemma_swap_involution(x: i8) {
    }

    proof fn lemma_swap_zero() {
    }

    fn swapped(self) -> (r: i8) {
        self
    }

    fn zero() -> (r: i8) {
        0i8
    }

    fn eq_value(self, other: i8) -> (r: bool) {
        self == other
    }
}

impl PrimInt for i16 {
    open spec fn spec_swap(x: i16) -> i16 {
        <u16 as PrimInt>::spec_swap(x as u16) as i16
    }

    open spec fn spec_zero() -> i16 {
        0i16
    }

    proof fn lemma_swap_involution(x: i16) {
        <u16 as PrimInt>::lemma_swap_involution(x as u16);
        assert((x as u16) as i16 == x) by (bit_vector);
        let y: u16 = <u16 as PrimInt>::spec_swap(x as u16);
        assert((y as i16) as u16 == y) by (bit_vector);
    }

    proof fn lemma_swap_zero() {
        <u16 as PrimInt>::lemma_swap_zero();
        assert(<u16 as PrimInt>::spec_swap(0i16 as u16) as i16 == 0i16);
    }

    fn swapped(self) -> (r: i16) {
        (self as u16).swapped() as i16
    }

    fn zero() -> (r: i16) {
        0i16
    }

    fn eq_value(self, other: i16) -> (r: bool) {
        self == other
    }
}

impl PrimInt for i32 {
    open spec fn spec_swap(x: i32) -> i32 {
        <u32 as PrimInt>::spec_swap(x as u32) as i32
    }

    open spec fn spec_zero() -> i32 {
        0i32
    }

    proof fn lemma_swap_involution(x: i32) {
        <u32 as PrimInt>::lemma_swap_involution(x as u32);
        assert((x as u32) as i32 == x) by (bit_vector);
        let y: u32 = <u32 as PrimInt>::spec_swap(x as u32);
        assert((y as i32) as u32 == y) by (bit_vector);
    }

    proof fn lemma_swap_zero() {
        <u32 as PrimInt>::lemma_swap_zero();
        assert(<u32 as PrimInt>::spec_swap(0i32 as u32) as i32 == 0i32);
    }

    fn swapped(self) -> (r: i32) {
        (self as u32).swapped() as i32
    }

    fn zero() -> (r: i32) {
        0i32
    }

    fn eq_value(self, other: i32) -> (r: bool) {
        self == other
    }
}

impl PrimInt for i64 {
    open spec fn spec_swap(x: i64) -> i64 {
        <u64 as PrimInt>::spec_swap(x as u64) as i64
    }

    open spec fn spec_zero() -> i64 {
        0i64
    }

    proof fn lemma_swap_involution(x: i64) {
        <u64 as PrimInt>::lemma_swap_involution(x as u64);
        assert((x as u64) as i64 == x) by (bit_vector);
        let y: u64 = <u64 as PrimInt>::spec_swap(x as u64);
        assert((y as i64) as u64 == y) by (bit_vector);
    }

    proof fn lemma_swap_zero() {
        <u64 as PrimInt>::lemma_swap_zero();
        assert(<u64 as PrimInt>::spec_swap(0i64 as u64) as i64 == 0i64);
    }

    fn swapped(self) -> (r: i64) {
        (self as u64).swapped() as i64
    }

    fn zero() -> (r: i64) {
        0i64
    }

    fn eq_value(self, other: i64) -> (r: bool) {
        self == other
    }
}

impl PrimInt for i128 {
    open spec fn spec_swap(x: i128) -> i128 {
        <u128 as PrimInt>::spec_swap(x as u128) as i128
    }

    open spec fn spec_zero() -> i128 {
        0i128
    }

    proof fn lemma_swap_involution(x: i128) {
        <u128 as PrimInt>::lemma_swap_involution(x as u128);
        assert((x as u128) as i128 == x) by (bit_vector);
        let y: u128 = <u128 as PrimInt>::spec_swap(x as u128);
        assert((y as i128) as u128 == y) by (bit_vector);
    }

    proof fn lemma_swap_zero() {
        <u128 as PrimInt>::lemma_swap_zero();
        assert(<u128 as PrimInt>::spec_swap(0i128 as u128) as i128 == 0i128);
    }

    fn swapped(self) -> (r: i128) {
        (self as u128).swapped() as i128
    }

    fn zero() -> (r: i128) {
        0i128
    }

    fn eq_value(self, other: i128) -> (r: bool) {
        self == other
    }
}

impl PrimInt for isize {
    open spec fn spec_swap(x: isize) -> isize {
        <usize as PrimInt>::spec_swap(x as usize) as isize
    }

    open spec fn spec_zero() -> isize {
        0isize
    }

    proof fn lemma_swap_involution(x: isize) {
        <usize as PrimInt>::lemma_swap_involution(x as usize);
        assert((x as usize) as isize == x) by (bit_vector);
        let y: usize = <usize as PrimInt>::spec_swap(x as usize);
        assert((y as isize) as usize == y) by (bit_vector);
    }

    proof fn lemma_swap_zero() {
        <usize as PrimInt>::lemma_swap_zero();
        assert(0isize as usize == 0usize) by (bit_vector);
        assert(0usize as isize == 0isize) by (bit_vector);
    }

    fn swapped(self) -> (r: isize) {
        (self as usize).swapped() as isize
    }

    fn zero() -> (r: isize) {
        0isize
    }

    fn eq_value(self, other: isize) -> (r: bool) {
        self == other
    }
}

} // verus!
