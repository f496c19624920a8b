use vstd::layout::size_of;
use vstd::prelude::*;
use crate::filler::{filler_width, Filler, ZeroedBuffer};
use zerocopy::error::AllocError;
use zerocopy::FromZeros;

verus! {

#[verifier::external_type_specification]
#[verifier::external_body]
pub struct ExAllocError(AllocError);

/// `n` copies of `x`.
pub open spec fn filled<T>(x: T, n: nat) -> Seq<T> {
    Seq::new(n, |_i: int| x)
}

/// `s` with `mid` inserted before index `pos`.
pub open spec fn spliced<T>(s: Seq<T>, pos: int, mid: Seq<T>) -> Seq<T> {
    s.take(pos) + mid + s.skip(pos)
}

/// A sequence of `n` values whose bytes are all zero.
pub open spec fn zeros<T: ZeroBytes>(n: nat) -> Seq<T> {
    filled(T::zeroed(), n)
}

/// Element types whose all-zero bit pattern is a valid value, with the
/// allocation primitives that produce such values without writing them.
///
/// Only this library implements it, for the unsigned integer types that also
/// serve as alignment fillers.
pub trait ZeroBytes: Sized {
    /// The value of `Self` whose representation is all zero bytes.
    spec fn zeroed() -> Self;

    /// The filler type with the same layout as `Self`.
    spec fn filler_kind() -> Filler;

    /// The filler for `Self` is as wide as `Self`.
    proof fn lemma_filler_width()
        ensures
            filler_width(Self::filler_kind()) == size_of::<Self>(),
    ;

    /// The buffer retyped as elements of `Self`, when it was allocated as
    /// `Self`'s own filler.
    fn from_buffer(b: ZeroedBuffer) -> (r: Option<Vec<Self>>)
        ensures
            r is Some <==> b.filler_spec() == Self::filler_kind(),
            r matches Some(v) ==> v@.len() == b.len_spec() && (b.is_zeroed() ==> v@ == filled(
                Self::zeroed(),
                v@.len(),
            )),
    ;

    /// A new vector of `len` zero values, or the allocator's refusal.
    fn alloc_zeroed_vec(len: usize) -> (r: Result<Vec<Self>, AllocError>)
        ensures
            r matches Ok(v) ==> v@ == filled(Self::zeroed(), len as nat),
            len == 0 ==> r is Ok,
    ;

    /// Inserts `additional` zero values at `position`; on the allocator's
    /// refusal the vector is left as it was.
    fn insert_zeroed_at(v: &mut Vec<Self>, position: usize, additional: usize) -> (r: Result<
        (),
        AllocError,
    >)
        requires
            position <= old(v)@.len(),
        ensures
            r is Ok ==> final(v)@ == spliced(
                old(v)@,
                position as int,
                filled(Self::zeroed(), additional as nat),
            ),
            r is Err ==> final(v)@ == old(v)@,
            additional == 0 ==> r is Ok,
    ;
}

/// Relies on `FromZeros::new_vec_zeroed` for `u8`: `len` zeros, and no
/// allocation (so no failure) when `len == 0`.
#[verifier::external_body]
#[inline]
fn new_vec_zeroed_u8(len: usize) -> (r: Result<Vec<u8>, AllocError>)
    ensures
        r matches Ok(v) ==> v@ == filled(0u8, len as nat),
        len == 0 ==> r is Ok,
{
    <u8 as FromZeros>::new_vec_zeroed(len)
}

/// Relies on `FromZeros::insert_vec_zeroed` for `u8`: shifts the tail and
/// writes zeros, or returns the `try_reserve` failure before touching `v`.
#[verifier::external_body]
#[inline]
fn insert_vec_zeroed_u8(v: &mut Vec<u8>, position: usize, additional: usize) -> (r: Result<
    (),
    AllocError,
>)
    requires
        position <= old(v)@.len(),
    ensures
        r is Ok ==> final(v)@ == spliced(old(v)@, position as int, filled(0u8, additional as nat)),
        r is Err ==> final(v)@ == old(v)@,
        additional == 0 ==> r is Ok,
{
    <u8 as FromZeros>::insert_vec_zeroed(v, position, additional)
}

impl ZeroBytes for u8 {
    open spec fn zeroed() -> u8 {
        0
    }

    open spec fn filler_kind() -> Filler {
        Filler::U8
    }

    proof fn lemma_filler_width() {
        broadcast use vstd::layout::layout_of_primitives;

    }

    #[inline]
    fn from_buffer(b: ZeroedBuffer) -> (r: Option<Vec<u8>>) {
        match b {
            ZeroedBuffer::U8(v) => Some(v),
            _ => None,
        }
    }

    #[inline]
    fn alloc_zeroed_vec(len: usize) -> (r: Result<Vec<u8>, AllocError>) {
        new_vec_zeroed_u8(len)
    }

    #[inline]
    fn insert_zeroed_at(v: &mut Vec<u8>, position: usize, additional: usize) -> (r: Result<
        (),
        AllocError,
    >) {
        insert_vec_zeroed_u8(v, position, additional)
    }
}

/// Relies on `FromZeros::new_vec_zeroed` for `u16`: `len` zeros, and no
/// allocation (so no failure) when `len == 0`.
#[verifier::external_body]
#[inline]
fn new_vec_zeroed_u16(len: usize) -> (r: Result<Vec<u16>, AllocError>)
    ensures
        r matches Ok(v) ==> v@ == filled(0u16, len as nat),
        len == 0 ==> r is Ok,
{
    <u16 as FromZeros>::new_vec_zeroed(len)
}

/// Relies on `FromZeros::insert_vec_zeroed` for `u16`: shifts the tail and
/// writes zeros, or returns the `try_reserve` failure before touching `v`.
#[verifier::external_body]
#[inline]
fn insert_vec_zeroed_u16(v: &mut Vec<u16>, position: usize, additional: usize) -> (r: Result<
    (),
    AllocError,
>)
    requires
        position <= old(v)@.len(),
    ensures
        r is Ok ==> final(v)@ == spliced(old(v)@, position as int, filled(0u16, additional as nat)),
        r is Err ==> final(v)@ == old(v)@,
        additional == 0 ==> r is Ok,
{
    <u16 as FromZeros>::insert_vec_zeroed(v, position, additional)
}

impl ZeroBytes for u16 {
    open spec fn zeroed() -> u16 {
        0
    }

    open spec fn filler_kind() -> Filler {
        Filler::U16
    }

    proof fn lemma_filler_width() {
        broadcast use vstd::layout::layout_of_primitives;

    }

    #[inline]
    fn from_buffer(b: ZeroedBuffer) -> (r: Option<Vec<u16>>) {
        match b {
            ZeroedBuffer::U16(v) => Some(v),
            _ => None,
        }
    }

    #[inline]
    fn alloc_zeroed_vec(len: usize) -> (r: Result<Vec<u16>, AllocError>) {
        new_vec_zeroed_u16(len)
    }

    #[inline]
    fn insert_zeroed_at(v: &mut Vec<u16>, position: usize, additional: usize) -> (r: Result<
        (),
        AllocError,
    >) {
        insert_vec_zeroed_u16(v, position, additional)
    }
}

/// Relies on `FromZeros::new_vec_zeroed` for `u32`: `len` zeros, and no
/// allocation (so no failure) when `len == 0`.
#[verifier::external_body]
#[inline]
fn new_vec_zeroed_u32(len: usize) -> (r: Result<Vec<u32>, AllocError>)
    ensures
        r matches Ok(v) ==> v@ == filled(0u32, len as nat),
        len == 0 ==> r is Ok,
{
    <u32 as FromZeros>::new_vec_zeroed(len)
}

/// Relies on `FromZeros::insert_vec_zeroed` for `u32`: shifts the tail and
/// writes zeros, or returns the `try_reserve` failure before touching `v`.
#[verifier::external_body]
#[inline]
fn insert_vec_zeroed_u32(v: &mut Vec<u32>, position: usize, additional: usize) -> (r: Result<
    (),
    AllocError,
>)
    requires
        position <= old(v)@.len(),
    ensures
        r is Ok ==> final(v)@ == spliced(old(v)@, position as int, filled(0u32, additional as nat)),
        r is Err ==> final(v)@ == old(v)@,
        additional == 0 ==> r is Ok,
{
    <u32 as FromZeros>::insert_vec_zeroed(v, position, additional)
}

impl ZeroBytes for u32 {
    open spec fn zeroed() -> u32 {
        0
    }

    open spec fn filler_kind() -> Filler {
        Filler::U32
    }

    proof fn lemma_filler_width() {
        broadcast use vstd::layout::layout_of_primitives;

    }

    #[inline]
    fn from_buffer(b: ZeroedBuffer) -> (r: Option<Vec<u32>>) {
        match b {
            ZeroedBuffer::U32(v) => Some(v),
            _ => None,
        }
    }

    #[inline]
    fn alloc_zeroed_vec(len: usize) -> (r: Result<Vec<u32>, AllocError>) {
        new_vec_zeroed_u32(len)
    }

    #[inline]
    fn insert_zeroed_at(v: &mut Vec<u32>, position: usize, additional: usize) -> (r: Result<
        (),
        AllocError,
    >) {
        insert_vec_zeroed_u32(v, position, additional)
    }
}

/// Relies on `FromZeros::new_vec_zeroed` for `u64`: `len` zeros, and no
/// allocation (so no failure) when `len == 0`.
#[verifier::external_body]
#[inline]
fn new_vec_zeroed_u64(len: usize) -> (r: Result<Vec<u64>, AllocError>)
    ensures
        r matches Ok(v) ==> v@ == filled(0u64, len as nat),
        len == 0 ==> r is Ok,
{
    <u64 as FromZeros>::new_vec_zeroed(len)
}

/// Relies on `FromZeros::insert_vec_zeroed` for `u64`: shifts the tail and
/// writes zeros, or returns the `try_reserve` failure before touching `v`.
#[verifier::external_body]
#[inline]
fn insert_vec_zeroed_u64(v: &mut Vec<u64>, position: usize, additional: usize) -> (r: Result<
    (),
    AllocError,
>)
    requires
        position <= old(v)@.len(),
    ensures
        r is Ok ==> final(v)@ == spliced(old(v)@, position as int, filled(0u64, additional as nat)),
        r is Err ==> final(v)@ == old(v)@,
        additional == 0 ==> r is Ok,
{
    <u64 as FromZeros>::insert_vec_zeroed(v, position, additional)
}

impl ZeroBytes for u64 {
    open spec fn zeroed() -> u64 {
        0
    }

    open spec fn filler_kind() -> Filler {
        Filler::U64
    }

    proof fn lemma_filler_width() {
        broadcast use vstd::layout::layout_of_primitives;

    }

    #[inline]
    fn from_buffer(b: ZeroedBuffer) -> (r: Option<Vec<u64>>) {
        match b {
            ZeroedBuffer::U64(v) => Some(v),
            _ => None,
        }
    }

    #[inline]
    fn alloc_zeroed_vec(len: usize) -> (r: Result<Vec<u64>, AllocError>) {
        new_vec_zeroed_u64(len)
    }

    #[inline]
    fn insert_zeroed_at(v: &mut Vec<u64>, position: usize, additional: usize) -> (r: Result<
        (),
        AllocError,
    >) {
        insert_vec_zeroed_u64(v, position, additional)
    }
}

/// Relies on `FromZeros::new_vec_zeroed` for `u128`: `len` zeros, and no
/// allocation (so no failure) when `len == 0`.
#[verifier::external_body]
#[inline]
fn new_vec_zeroed_u128(len: usize) -> (r: Result<Vec<u128>, AllocError>)
    ensures
        r matches Ok(v) ==> v@ == filled(0u128, len as nat),
        len == 0 ==> r is Ok,
{
    <u128 as FromZeros>::new_vec_zeroed(len)
}

/// Relies on `FromZeros::insert_vec_zeroed` for `u128`: shifts the tail and
/// writes zeros, or returns the `try_reserve` failure before touching `v`.
#[verifier::external_body]
#[inline]
fn insert_vec_zeroed_u128(v: &mut Vec<u128>, position: usize, additional: usize) -> (r: Result<
    (),
    AllocError,
>)
    requires
        position <= old(v)@.len(),
    ensures
        r is Ok ==> final(v)@ == spliced(old(v)@, position as int, filled(0u128, additional as nat)),
        r is Err ==> final(v)@ == old(v)@,
        additional == 0 ==> r is Ok,
{
    <u128 as FromZeros>::insert_vec_zeroed(v, position, additional)
}

impl ZeroBytes for u128 {
    open spec fn zeroed() -> u128 {
        0
    }

    open spec fn filler_kind() -> Filler {
        Filler::U128
    }

    proof fn lemma_filler_width() {
        broadcast use vstd::layout::layout_of_primitives;

    }

    #[inline]
    fn from_buffer(b: ZeroedBuffer) -> (r: Option<Vec<u128>>) {
        match b {
            ZeroedBuffer::U128(v) => Some(v),
            _ => None,
        }
    }

    #[inline]
    fn alloc_zeroed_vec(len: usize) -> (r: Result<Vec<u128>, AllocError>) {
        new_vec_zeroed_u128(len)
    }

    #[inline]
    fn insert_zeroed_at(v: &mut Vec<u128>, position: usize, additional: usize) -> (r: Result<
        (),
        AllocError,
    >) {
        insert_vec_zeroed_u128(v, position, additional)
    }
}

} // verus!
