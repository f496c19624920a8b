use vstd::layout::{align_of, size_of};
use vstd::prelude::*;
use crate::vec_zeroed::ZeroedError;
use crate::zero_bytes::{filled, zeros, ZeroBytes};

verus! {

/// The primitive unsigned integer types that stand in for an element type of
/// the same alignment when a zeroed buffer is allocated.
#[derive(Debug, Clone, Copy, PartialEq, Eq, Structural)]
pub enum Filler {
    U8,
    U16,
    U32,
    U64,
    U128,
}

/// Size in bytes of one filler element, which is also the alignment the
/// filler is chosen for.
pub open spec fn filler_width(f: Filler) -> nat {
    match f {
        Filler::U8 => 1,
        Filler::U16 => 2,
        Filler::U32 => 4,
        Filler::U64 => 8,
        Filler::U128 => 16,
    }
}

/// The filler chosen for alignment `align`, if that alignment is supported.
pub open spec fn filler_of(align: nat) -> Option<Filler> {
    if align == 1 {
        Some(Filler::U8)
    } else if align == 2 {
        Some(Filler::U16)
    } else if align == 4 {
        Some(Filler::U32)
    } else if align == 8 {
        Some(Filler::U64)
    } else if align == 16 {
        Some(Filler::U128)
    } else {
        None
    }
}

/// Alignments for which a filler exists: 1, 2, 4, 8 and 16.
pub open spec fn supported_alignment(align: nat) -> bool {
    filler_of(align) is Some
}

/// Picks the filler whose width equals `align`, or `None` for any other
/// alignment.
#[inline]
pub fn filler_for(align: usize) -> (r: Option<Filler>)
    ensures
        r == filler_of(align as nat),
        r matches Some(f) ==> filler_width(f) == align,
{
    match align {
        1 => Some(Filler::U8),
        2 => Some(Filler::U16),
        4 => Some(Filler::U32),
        8 => Some(Filler::U64),
        16 => Some(Filler::U128),
        _ => None,
    }
}

/// Number of filler elements of width `align` that cover `len` elements of
/// `elem_size` bytes each, exactly.
#[inline]
pub fn filler_count(elem_size: usize, align: usize, len: usize) -> (r: usize)
    requires
        align > 0,
        elem_size % align == 0,
        elem_size * len <= usize::MAX,
    ensures
        r * align == elem_size * len,
        r == elem_size * len / align as int,
{
    let bytes = elem_size * len;
    proof {
        let q = elem_size as int / align as int;
        assert(elem_size == q * align) by (nonlinear_arith)
            requires
                elem_size % align == 0,
                align > 0,
                q == elem_size as int / align as int,
        ;
        assert(bytes == (q * len) * align) by (nonlinear_arith)
            requires
                elem_size == q * align,
                bytes == elem_size * len,
        ;
        vstd::arithmetic::div_mod::lemma_div_multiples_vanish(q * len, align as int);
        assert((q * len) * align == align * (q * len)) by (nonlinear_arith);
    }
    bytes / align
}

/// A zero-filled buffer allocated as filler elements, ready to be retyped as
/// a buffer of an element type with the filler's alignment.
pub enum ZeroedBuffer {
    U8(Vec<u8>),
    U16(Vec<u16>),
    U32(Vec<u32>),
    U64(Vec<u64>),
    U128(Vec<u128>),
}

impl ZeroedBuffer {
    /// The filler type the buffer was allocated as.
    pub open spec fn filler_spec(&self) -> Filler {
        match self {
            ZeroedBuffer::U8(_) => Filler::U8,
            ZeroedBuffer::U16(_) => Filler::U16,
            ZeroedBuffer::U32(_) => Filler::U32,
            ZeroedBuffer::U64(_) => Filler::U64,
            ZeroedBuffer::U128(_) => Filler::U128,
        }
    }

    /// Number of filler elements.
    pub open spec fn len_spec(&self) -> nat {
        match self {
            ZeroedBuffer::U8(v) => v@.len(),
            ZeroedBuffer::U16(v) => v@.len(),
            ZeroedBuffer::U32(v) => v@.len(),
            ZeroedBuffer::U64(v) => v@.len(),
            ZeroedBuffer::U128(v) => v@.len(),
        }
    }

    /// Size of the buffer in bytes.
    pub open spec fn byte_len(&self) -> nat {
        self.len_spec() * filler_width(self.filler_spec())
    }

    /// Every filler element is zero, so every byte of the buffer is zero.
    pub open spec fn is_zeroed(&self) -> bool {
        match self {
            ZeroedBuffer::U8(v) => v@ == filled(0u8, v@.len()),
            ZeroedBuffer::U16(v) => v@ == filled(0u16, v@.len()),
            ZeroedBuffer::U32(v) => v@ == filled(0u32, v@.len()),
            ZeroedBuffer::U64(v) => v@ == filled(0u64, v@.len()),
            ZeroedBuffer::U128(v) => v@ == filled(0u128, v@.len()),
        }
    }

    /// The filler type the buffer was allocated as.
    pub fn filler(&self) -> (r: Filler)
        ensures
            r == self.filler_spec(),
    {
        match self {
            ZeroedBuffer::U8(_) => Filler::U8,
            ZeroedBuffer::U16(_) => Filler::U16,
            ZeroedBuffer::U32(_) => Filler::U32,
            ZeroedBuffer::U64(_) => Filler::U64,
            ZeroedBuffer::U128(_) => Filler::U128,
        }
    }

    /// Number of filler elements.
    pub fn len(&self) -> (r: usize)
        ensures
            r == self.len_spec(),
    {
        match self {
            ZeroedBuffer::U8(v) => v.len(),
            ZeroedBuffer::U16(v) => v.len(),
            ZeroedBuffer::U32(v) => v.len(),
            ZeroedBuffer::U64(v) => v.len(),
            ZeroedBuffer::U128(v) => v.len(),
        }
    }
}

/// Allocates `count` zeroed elements of filler `f`, or reports that the
/// allocator refused.
#[inline]
pub fn zeroed_filler(f: Filler, count: usize) -> (r: Result<ZeroedBuffer, ZeroedError>)
    ensures
        r matches Ok(b) ==> b.filler_spec() == f && b.len_spec() == count && b.is_zeroed(),
        r is Err ==> r == Err::<ZeroedBuffer, ZeroedError>(ZeroedError::AllocationFailure),
        count == 0 ==> r is Ok,
{
    match f {
        Filler::U8 => match u8::alloc_zeroed_vec(count) {
            Ok(v) => Ok(ZeroedBuffer::U8(v)),
            Err(_) => Err(ZeroedError::AllocationFailure),
        },
        Filler::U16 => match u16::alloc_zeroed_vec(count) {
            Ok(v) => Ok(ZeroedBuffer::U16(v)),
            Err(_) => Err(ZeroedError::AllocationFailure),
        },
        Filler::U32 => match u32::alloc_zeroed_vec(count) {
            Ok(v) => Ok(ZeroedBuffer::U32(v)),
            Err(_) => Err(ZeroedError::AllocationFailure),
        },
        Filler::U64 => match u64::alloc_zeroed_vec(count) {
            Ok(v) => Ok(ZeroedBuffer::U64(v)),
            Err(_) => Err(ZeroedError::AllocationFailure),
        },
        Filler::U128 => match u128::alloc_zeroed_vec(count) {
            Ok(v) => Ok(ZeroedBuffer::U128(v)),
            Err(_) => Err(ZeroedError::AllocationFailure),
        },
    }
}

/// Allocates a zeroed buffer that covers `len` elements of `T` exactly, as
/// filler elements of `T`'s alignment, or reports that the allocator refused.
#[inline]
pub fn zeroed_buffer<T>(len: usize) -> (r: Result<ZeroedBuffer, ZeroedError>)
    requires
        supported_alignment(align_of::<T>()),
        size_of::<T>() * len <= usize::MAX,
    ensures
        r matches Ok(b) ==> Some(b.filler_spec()) == filler_of(align_of::<T>()) && b.byte_len()
            == size_of::<T>() * len && b.is_zeroed(),
        r is Err ==> r == Err::<ZeroedBuffer, ZeroedError>(ZeroedError::AllocationFailure),
        size_of::<T>() * len == 0 ==> r is Ok,
{
    vstd::layout::layout_for_type_is_valid::<T>();
    let align = core::mem::align_of::<T>();
    let size = core::mem::size_of::<T>();
    let f = filler_for(align).unwrap();
    let count = filler_count(size, align, len);
    let r = zeroed_filler(f, count);
    if let Ok(b) = &r {
        assert(b.byte_len() == count * align);
    }
    r
}

/// A vector of `len` zeroed elements of `T`, obtained by allocating a zeroed
/// buffer of the filler for `T`'s alignment and retyping it, or the
/// allocator's refusal.
#[inline]
pub fn vec_zeroed<T: ZeroBytes>(len: usize) -> (r: Result<Vec<T>, ZeroedError>)
    requires
        align_of::<T>() == size_of::<T>(),
        size_of::<T>() * len <= usize::MAX,
    ensures
        r matches Ok(v) ==> v@ == zeros::<T>(len as nat),
        r is Err ==> r == Err::<Vec<T>, ZeroedError>(ZeroedError::AllocationFailure),
        len == 0 ==> r is Ok,
{
    proof {
        T::lemma_filler_width();
        lemma_filler_of_width(T::filler_kind());
    }
    let b = match zeroed_buffer::<T>(len) {
        Ok(b) => b,
        Err(e) => return Err(e),
    };
    let v = T::from_buffer(b).unwrap();
    proof {
        let w = filler_width(T::filler_kind()) as int;
        assert(v@.len() * w == w * len) by (nonlinear_arith)
            requires
                v@.len() * w == size_of::<T>() * len,
                w == size_of::<T>(),
        ;
        assert(v@.len() == len) by (nonlinear_arith)
            requires
                v@.len() * w == w * len,
                w > 0,
        ;
        assert(v@ =~= zeros::<T>(len as nat));
    }
    Ok(v)
}

/// Each filler is the one chosen for its own width.
proof fn lemma_filler_of_width(f: Filler)
    ensures
        filler_of(filler_width(f)) == Some(f),
        filler_width(f) > 0,
{
}

/// A vector obtained through the filler allocation holds exactly the elements
/// that direct zeroed construction of the same length gives: every one is the
/// all-zero value.
pub proof fn lemma_dispatch_matches_direct<T: ZeroBytes>(
    len: nat,
    dispatched: Seq<T>,
    direct: Seq<T>,
)
    requires
        dispatched == zeros::<T>(len),
        direct == zeros::<T>(len),
    ensures
        dispatched == direct,
        dispatched.len() == len,
        forall|i: int| 0 <= i < len ==> #[trigger] dispatched[i] == T::zeroed(),
{
}

} // verus!
