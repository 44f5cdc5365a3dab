//! Wrapper types tagging an integer with a fixed byte order.
//!
//! A value read out of a binary format keeps the byte order the format
//! prescribes, not the host's. [`BigEndian`] and [`LittleEndian`] hold such a
//! value verbatim and make the type system distinguish it from a host-order
//! integer, so that arithmetic on unconverted foreign bytes is impossible by
//! construction. Conversion happens only at the explicit boundary calls of
//! the [`ForeignEndian`] trait.

use vstd::prelude::*;

verus! {

use crate::prim::PrimInt;
use crate::prim::from_be;
use crate::prim::from_le;
use crate::prim::spec_be_convert;
use crate::prim::spec_le_convert;
use crate::prim::to_be;
use crate::prim::to_le;
use vstd::endian::Endian;
use vstd::endian::endianness;

/// Conversion contract between a foreign byte order and the host order.
///
/// An implementor stores exactly one value of the wrapped type `T`, visible
/// as [`ForeignEndian::spec_raw`]. The stored bytes pass through `from_raw`
/// and `to_raw` untouched; `from_native` and `to_native` apply the
/// implementor's conversion, [`ForeignEndian::spec_convert`], which is a
/// self-inverse bijection on `T`. The same type `T` carries both the raw and
/// the native representation.
pub trait ForeignEndian<T: Copy>: Sized + Copy {
    /// The raw, foreign-ordered value this wrapper stores.
    spec fn spec_raw(self) -> T;

    /// The conversion between foreign and host order. A conditional byte
    /// swap, hence its own inverse: it maps native values to raw values and
    /// raw values to native values alike.
    spec fn spec_convert(x: T) -> T;

    /// Converting twice restores the original value, so raw and native views
    /// determine each other uniquely.
    proof fn lemma_convert_involution(x: T)
        ensures
            Self::spec_convert(Self::spec_convert(x)) == x,
    ;

    /// Wraps `raw`, an already foreign-ordered value, without touching its
    /// bits.
    fn from_raw(raw: T) -> (r: Self)
        ensures
            r.spec_raw() == raw,
    ;

    /// Returns the stored foreign-ordered value without touching its bits.
    fn to_raw(self) -> (r: T)
        ensures
            r == self.spec_raw(),
    ;

    /// Converts a host-order value into the foreign order and wraps it. The
    /// wrapped value converts back to `native` exactly.
    fn from_native(native: T) -> (r: Self)
        ensures
            r.spec_raw() == Self::spec_convert(native),
            Self::spec_convert(r.spec_raw()) == native,
    ;

    /// Converts the stored foreign-ordered value into host order.
    fn to_native(self) -> (r: T)
        ensures
            r == Self::spec_convert(self.spec_raw()),
    ;
}

/// A value stored in big-endian byte order.
///
/// Same size and meaning as the wrapped primitive; only the byte order of
/// the stored bits differs from a host-order value where the host is not
/// big-endian itself.
#[derive(Clone, Copy, Debug)]
pub struct BigEndian<T: Copy> {
    raw: T,
}

impl<T: PrimInt> ForeignEndian<T> for BigEndian<T> {
    closed spec fn spec_raw(self) -> T {
        self.raw
    }

    open spec fn spec_convert(x: T) -> T {
        spec_be_convert(x)
    }

    proof fn lemma_convert_involution(x: T) {
        crate::prim::lemma_be_convert_involution(x);
    }

    fn from_raw(raw: T) -> (r: Self) {
        BigEndian { raw }
    }

    fn to_raw(self) -> (r: T) {
        self.raw
    }

    fn from_native(native: T) -> (r: Self) {
        proof {
            crate::prim::lemma_be_convert_involution(native);
        }
        BigEndian { raw: to_be(native) }
    }

    fn to_native(self) -> (r: T) {
        from_be(self.raw)
    }
}

impl<T: PrimInt> PartialEq for BigEndian<T> {
    fn eq(&self, other: &Self) -> (r: bool) {
        self.raw.eq_value(other.raw)
    }
}

impl<T: PrimInt> vstd::std_specs::cmp::PartialEqSpecImpl for BigEndian<T> {
    open spec fn obeys_eq_spec() -> bool {
        true
    }

    open spec fn eq_spec(&self, other: &Self) -> bool {
        self.spec_raw() == other.spec_raw()
    }
}

impl<T: PrimInt> Default for BigEndian<T> {
    /// The default wrapper holds zero: both its raw bits and its native view
    /// are the zero value of the wrapped type, whatever the host's order.
    fn default() -> (r: Self)
        ensures
            r.spec_raw() == T::spec_zero(),
            <Self as ForeignEndian<T>>::spec_convert(r.spec_raw()) == T::spec_zero(),
    {
        proof {
            T::lemma_swap_zero();
        }
        Self::from_native(T::zero())
    }
}

impl<T: PrimInt> From<T> for BigEndian<T> {
    fn from(v: T) -> (r: Self) {
        Self::from_native(v)
    }
}

impl<T: PrimInt> vstd::std_specs::convert::FromSpecImpl<T> for BigEndian<T> {
    open spec fn obeys_from_spec() -> bool {
        true
    }

    closed spec fn from_spec(v: T) -> Self {
        BigEndian { raw: spec_be_convert(v) }
    }
}

/// Construction through `From` is construction from a native value: the
/// wrapper `BigEndian::from(v)` stores the big-endian layout of `v`.
pub proof fn lemma_big_endian_from<T: PrimInt>(v: T)
    ensures
        <BigEndian<T> as vstd::std_specs::convert::FromSpec<T>>::from_spec(v).spec_raw()
            == <BigEndian<T> as ForeignEndian<T>>::spec_convert(v),
{
}

/// A value stored in little-endian byte order.
///
/// Same size and meaning as the wrapped primitive; only the byte order of
/// the stored bits differs from a host-order value where the host is not
/// little-endian itself.
#[derive(Clone, Copy, Debug)]
pub struct LittleEndian<T: Copy> {
    raw: T,
}

impl<T: PrimInt> ForeignEndian<T> for LittleEndian<T> {
    closed spec fn spec_raw(self) -> T {
        self.raw
    }

    open spec fn spec_convert(x: T) -> T {
        spec_le_convert(x)
    }

    proof fn lemma_convert_involution(x: T) {
        crate::prim::lemma_le_convert_involution(x);
    }

    fn from_raw(raw: T) -> (r: Self) {
        LittleEndian { raw }
    }

    fn to_raw(self) -> (r: T) {
        self.raw
    }

    fn from_native(native: T) -> (r: Self) {
        proof {
            crate::prim::lemma_le_convert_involution(native);
        }
        LittleEndian { raw: to_le(native) }
    }

    fn to_native(self) -> (r: T) {
        from_le(self.raw)
    }
}

impl<T: PrimInt> PartialEq for LittleEndian<T> {
    fn eq(&self, other: &Self) -> (r: bool) {
        self.raw.eq_value(other.raw)
    }
}

impl<T: PrimInt> vstd::std_specs::cmp::PartialEqSpecImpl for LittleEndian<T> {
    open spec fn obeys_eq_spec() -> bool {
        true
    }

    open spec fn eq_spec(&self, other: &Self) -> bool {
        self.spec_raw() == other.spec_raw()
    }
}

impl<T: PrimInt> Default for LittleEndian<T> {
    /// The default wrapper holds zero: both its raw bits and its native view
    /// are the zero value of the wrapped type, whatever the host's order.
    fn default() -> (r: Self)
        ensures
            r.spec_raw() == T::spec_zero(),
            <Self as ForeignEndian<T>>::spec_convert(r.spec_raw()) == T::spec_zero(),
    {
        proof {
            T::lemma_swap_zero();
        }
        Self::from_native(T::zero())
    }
}

impl<T: PrimInt> From<T> for LittleEndian<T> {
    fn from(v: T) -> (r: Self) {
        Self::from_native(v)
    }
}

impl<T: PrimInt> vstd::std_specs::convert::FromSpecImpl<T> for LittleEndian<T> {
    open spec fn obeys_from_spec() -> bool {
        true
    }

    closed spec fn from_spec(v: T) -> Self {
        LittleEndian { raw: spec_le_convert(v) }
    }
}

/// Construction through `From` is construction from a native value: the
/// wrapper `LittleEndian::from(v)` stores the little-endian layout of `v`.
pub proof fn lemma_little_endian_from<T: PrimInt>(v: T)
    ensures
        <LittleEndian<T> as vstd::std_specs::convert::FromSpec<T>>::from_spec(v).spec_raw()
            == <LittleEndian<T> as ForeignEndian<T>>::spec_convert(v),
{
}

/// Round trip through a wrapper: a native value written with `from_native`
/// and read back with `to_native` comes out unchanged, and a raw value read
/// with `to_native` and written back with `from_native` restores the raw
/// bits. Both directions are the involution of the wrapper's conversion.
pub proof fn lemma_round_trip<T: Copy, W: ForeignEndian<T>>(v: T)
    ensures
        W::spec_convert(W::spec_convert(v)) == v,
{
    W::lemma_convert_involution(v);
}

/// Wrappers built from native values are equal exactly when the native
/// values are equal: the conversion into foreign order is injective, so
/// comparing stored raw values compares the originals.
pub proof fn lemma_from_native_eq<T: Copy, W: ForeignEndian<T>>(a: T, b: T)
    ensures
        (W::spec_convert(a) == W::spec_convert(b)) == (a == b),
{
    if W::spec_convert(a) == W::spec_convert(b) {
        W::lemma_convert_involution(a);
        W::lemma_convert_involution(b);
    }
}

/// On a big-endian host the big-endian wrapper converts nothing: raw and
/// native views of any value coincide.
pub proof fn lemma_big_endian_matching_host<T: PrimInt>(x: T)
    requires
        endianness() == Endian::Big,
    ensures
        <BigEndian<T> as ForeignEndian<T>>::spec_convert(x) == x,
{
}

/// On a host that is not big-endian the big-endian wrapper's native view is
/// the exact byte reversal of its raw view.
pub proof fn lemma_big_endian_mismatched_host<T: PrimInt>(x: T)
    requires
        endianness() != Endian::Big,
    ensures
        <BigEndian<T> as ForeignEndian<T>>::spec_convert(x) == T::spec_swap(x),
{
}

/// On a little-endian host the little-endian wrapper converts nothing: raw
/// and native views of any value coincide.
pub proof fn lemma_little_endian_matching_host<T: PrimInt>(x: T)
    requires
        endianness() == Endian::Little,
    ensures
        <LittleEndian<T> as ForeignEndian<T>>::spec_convert(x) == x,
{
}

/// On a host that is not little-endian the little-endian wrapper's native
/// view is the exact byte reversal of its raw view.
pub proof fn lemma_little_endian_mismatched_host<T: PrimInt>(x: T)
    requires
        endianness() != Endian::Little,
    ensures
        <LittleEndian<T> as ForeignEndian<T>>::spec_convert(x) == T::spec_swap(x),
{
}

#[allow(non_camel_case_types)]
pub type u8be = BigEndian<u8>;

#[allow(non_camel_case_types)]
pub type u16be = BigEndian<u16>;

#[allow(non_camel_case_types)]
pub type u32be = BigEndian<u32>;

#[allow(non_camel_case_types)]
pub type u64be = BigEndian<u64>;

#[allow(non_camel_case_types)]
pub type u128be = BigEndian<u128>;

#[allow(non_camel_case_types)]
pub type i8be = BigEndian<i8>;

#[allow(non_camel_case_types)]
pub type i16be = BigEndian<i16>;

#[allow(non_camel_case_types)]
pub type i32be = BigEndian<i32>;

#[allow(non_camel_case_types)]
pub type i64be = BigEndian<i64>;

#[allow(non_camel_case_types)]
pub type i128be = BigEndian<i128>;

#[allow(non_camel_case_types)]
pub type u8le = LittleEndian<u8>;

#[allow(non_camel_case_types)]
pub type u16le = LittleEndian<u16>;

#[allow(non_camel_case_types)]
pub type u32le = LittleEndian<u32>;

#[allow(non_camel_case_types)]
pub type u64le = LittleEndian<u64>;

#[allow(non_camel_case_types)]
pub type u128le = LittleEndian<u128>;

#[allow(non_camel_case_types)]
pub type i8le = LittleEndian<i8>;

#[allow(non_camel_case_types)]
pub type i16le = LittleEndian<i16>;

#[allow(non_camel_case_types)]
pub type i32le = LittleEndian<i32>;

#[allow(non_camel_case_types)]
pub type i64le = LittleEndian<i64>;

#[allow(non_camel_case_types)]
pub type i128le = LittleEndian<i128>;

} // verus!
