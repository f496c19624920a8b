//! Zero-initialised growable arrays: construction, extension and insertion of
//! elements whose bytes are all zero, and the choice of a primitive filler type
//! by alignment for buffers that are allocated zeroed and retyped afterwards.
mod filler;
mod vec_zeroed;
mod zero_bytes;

pub use zero_bytes::{filled, spliced, zeros, ZeroBytes};
pub use vec_zeroed::{
    lemma_insert_at_end_is_extend, lemma_insert_zeroed_layout, Seal, VecZeroed, ZeroedError,
};
pub use filler::{
    filler_count, filler_for, filler_of, filler_width, lemma_dispatch_matches_direct,
    supported_alignment, vec_zeroed, zeroed_buffer, zeroed_filler, Filler, ZeroedBuffer,
};
