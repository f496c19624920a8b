use zeroed_vec::{
    filler_count, filler_for, vec_zeroed, zeroed_buffer, zeroed_filler, Filler, VecZeroed,
    ZeroedBuffer, ZeroedError,
};

#[test]
fn new_zeroed_three_bytes() {
    let v = Vec::<u8>::new_zeroed(3).unwrap();
    assert_eq!(v, vec![0u8, 0, 0]);
}

#[test]
fn new_then_extend_by_two() {
    let mut v = Vec::<u8>::new_zeroed(3).unwrap();
    v.extend_zeroed(2).unwrap();
    assert_eq!(v, vec![0u8, 0, 0, 0, 0]);
    assert_eq!(v.len(), 5);
}

#[test]
fn new_zeroed_empty() {
    let v = Vec::<u64>::new_zeroed(0).unwrap();
    assert!(v.is_empty());
}

#[test]
fn new_zeroed_wide_elements() {
    let v = Vec::<u128>::new_zeroed(4).unwrap();
    assert_eq!(v, vec![0u128; 4]);
}

#[test]
fn extend_keeps_prefix() {
    let mut v: Vec<u32> = vec![7, 8, 9];
    v.extend_zeroed(3).unwrap();
    assert_eq!(v, vec![7u32, 8, 9, 0, 0, 0]);
}

#[test]
fn extend_by_nothing() {
    let mut v: Vec<u16> = vec![5, 6];
    assert_eq!(v.extend_zeroed(0), Ok(()));
    assert_eq!(v, vec![5u16, 6]);
}

#[test]
fn insert_at_end() {
    let mut v: Vec<u8> = vec![0, 1, 2];
    v.insert_zeroed(3, 2).unwrap();
    assert_eq!(v, vec![0u8, 1, 2, 0, 0]);
}

#[test]
fn insert_into_empty() {
    let mut v: Vec<u8> = Vec::new();
    v.insert_zeroed(0, 3).unwrap();
    assert_eq!(v, vec![0u8, 0, 0]);
}

#[test]
fn insert_in_middle_shifts_tail() {
    let mut v: Vec<u64> = vec![1, 2, 3, 4];
    v.insert_zeroed(1, 2).unwrap();
    assert_eq!(v, vec![1u64, 0, 0, 2, 3, 4]);
}

#[test]
fn insert_at_front() {
    let mut v: Vec<u8> = vec![9, 8];
    v.insert_zeroed(0, 1).unwrap();
    assert_eq!(v, vec![0u8, 9, 8]);
}

#[test]
fn insert_past_end_is_out_of_bounds() {
    let mut v: Vec<u8> = vec![0, 1, 2];
    assert_eq!(v.insert_zeroed(5, 1), Err(ZeroedError::OutOfBounds));
    assert_eq!(v, vec![0u8, 1, 2]);
}

#[test]
fn insert_one_past_end_is_out_of_bounds() {
    let mut v: Vec<u32> = vec![3];
    assert_eq!(v.insert_zeroed(2, 0), Err(ZeroedError::OutOfBounds));
    assert_eq!(v, vec![3u32]);
}

#[test]
fn extend_overflowing_length_fails_to_allocate() {
    let mut v: Vec<u64> = vec![1, 2];
    assert_eq!(v.extend_zeroed(usize::MAX), Err(ZeroedError::AllocationFailure));
    assert_eq!(v, vec![1u64, 2]);
}

#[test]
fn insert_overflowing_length_fails_to_allocate() {
    let mut v: Vec<u16> = vec![1, 2];
    assert_eq!(v.insert_zeroed(1, usize::MAX), Err(ZeroedError::AllocationFailure));
    assert_eq!(v, vec![1u16, 2]);
}

#[test]
fn new_beyond_address_space_fails_to_allocate() {
    assert_eq!(Vec::<u32>::new_zeroed(usize::MAX), Err(ZeroedError::AllocationFailure));
}

#[test]
fn insert_at_end_equals_extend() {
    let mut a: Vec<u8> = vec![4, 5];
    let mut b: Vec<u8> = vec![4, 5];
    a.insert_zeroed(2, 3).unwrap();
    b.extend_zeroed(3).unwrap();
    assert_eq!(a, b);
}

#[test]
fn filler_for_each_alignment() {
    assert_eq!(filler_for(1), Some(Filler::U8));
    assert_eq!(filler_for(2), Some(Filler::U16));
    assert_eq!(filler_for(4), Some(Filler::U32));
    assert_eq!(filler_for(8), Some(Filler::U64));
    assert_eq!(filler_for(16), Some(Filler::U128));
}

#[test]
fn filler_for_unsupported_alignment() {
    assert_eq!(filler_for(0), None);
    assert_eq!(filler_for(3), None);
    assert_eq!(filler_for(32), None);
}

#[test]
fn filler_count_exact() {
    assert_eq!(filler_count(6, 2, 5), 15);
    assert_eq!(filler_count(16, 8, 3), 6);
    assert_eq!(filler_count(0, 4, 10), 0);
    assert_eq!(filler_count(4, 4, 0), 0);
}

#[test]
fn zeroed_filler_allocates_requested_kind() {
    match zeroed_filler(Filler::U32, 3).unwrap() {
        ZeroedBuffer::U32(v) => assert_eq!(v, vec![0u32; 3]),
        _ => panic!("wrong filler"),
    }
}

#[test]
fn zeroed_buffer_for_pair_of_bytes() {
    let b = zeroed_buffer::<[u8; 2]>(5).unwrap();
    assert_eq!(b.filler(), Filler::U8);
    assert_eq!(b.len(), 10);
}

#[test]
fn zeroed_buffer_for_wide_struct() {
    let b = zeroed_buffer::<[u16; 3]>(4).unwrap();
    assert_eq!(b.filler(), Filler::U16);
    assert_eq!(b.len(), 12);
    match b {
        ZeroedBuffer::U16(v) => assert!(v.iter().all(|x| *x == 0)),
        _ => panic!("wrong filler"),
    }
}

#[test]
fn zeroed_buffer_empty() {
    let b = zeroed_buffer::<u64>(0).unwrap();
    assert_eq!(b.len(), 0);
}

#[test]
fn dispatch_matches_direct_u8() {
    let a = vec_zeroed::<u8>(7).unwrap();
    let b = Vec::<u8>::new_zeroed(7).unwrap();
    assert_eq!(a, b);
    assert_eq!(a, vec![0u8; 7]);
}

#[test]
fn dispatch_matches_direct_u32() {
    let a = vec_zeroed::<u32>(9).unwrap();
    let b = Vec::<u32>::new_zeroed(9).unwrap();
    assert_eq!(a, b);
}

#[test]
fn dispatch_empty() {
    let a = vec_zeroed::<u16>(0).unwrap();
    assert!(a.is_empty());
}

#[test]
fn zeroed_filler_beyond_address_space_fails_to_allocate() {
    assert!(matches!(
        zeroed_filler(Filler::U64, usize::MAX),
        Err(ZeroedError::AllocationFailure)
    ));
}

#[test]
fn dispatch_beyond_address_space_fails_to_allocate() {
    assert_eq!(vec_zeroed::<u8>(usize::MAX), Err(ZeroedError::AllocationFailure));
}
