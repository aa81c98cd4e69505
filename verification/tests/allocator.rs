use kernel::allocators::{AllocError, StaticAllocator};

#[test]
fn fresh_arena_starts_at_zero() {
    let arena: StaticAllocator<64> = StaticAllocator::new();
    assert_eq!(arena.cursor, 0);
}

#[test]
fn request_beyond_remaining_capacity_fails_and_keeps_the_cursor() {
    let mut arena: StaticAllocator<200> = StaticAllocator::new();
    assert_eq!(arena.allocate(100, 1), Ok(0));
    assert_eq!(arena.cursor, 100);
    assert_eq!(arena.allocate(150, 1), Err(AllocError));
    assert_eq!(arena.cursor, 100);
    assert_eq!(arena.allocate(100, 1), Ok(100));
    assert_eq!(arena.cursor, 200);
}

#[test]
fn requests_within_capacity_return_consecutive_disjoint_ranges() {
    let mut arena: StaticAllocator<100> = StaticAllocator::new();
    let a = arena.allocate(30, 1).unwrap();
    let b = arena.allocate(30, 1).unwrap();
    let c = arena.allocate(40, 1).unwrap();
    assert_eq!((a, b, c), (0, 30, 60));
    assert_eq!(arena.cursor, 100);
    assert_eq!(arena.allocate(1, 1), Err(AllocError));
}

#[test]
fn allocation_is_aligned_up_from_the_cursor() {
    let mut arena: StaticAllocator<100> = StaticAllocator::new();
    assert_eq!(arena.allocate(3, 1), Ok(0));
    assert_eq!(arena.allocate(8, 8), Ok(8));
    assert_eq!(arena.cursor, 16);
    assert_eq!(arena.allocate(1, 16), Ok(16));
    assert_eq!(arena.cursor, 17);
}

#[test]
fn alignment_padding_counts_against_capacity() {
    let mut arena: StaticAllocator<16> = StaticAllocator::new();
    assert_eq!(arena.allocate(1, 1), Ok(0));
    assert_eq!(arena.allocate(16, 16), Err(AllocError));
    assert_eq!(arena.cursor, 1);
}

#[test]
fn zero_sized_requests_succeed_without_moving_the_cursor() {
    let mut arena: StaticAllocator<8> = StaticAllocator::new();
    assert_eq!(arena.allocate(0, 1), Ok(0));
    assert_eq!(arena.cursor, 0);
}

#[test]
fn deallocate_reclaims_nothing() {
    let mut arena: StaticAllocator<100> = StaticAllocator::new();
    let first = arena.allocate(50, 1).unwrap();
    arena.deallocate(first, 50, 1);
    assert_eq!(arena.cursor, 50);
    assert_eq!(arena.allocate(50, 1), Ok(50));
    assert_eq!(arena.allocate(50, 1), Err(AllocError));
}

#[test]
fn exhausted_arena_fails_every_further_request() {
    let mut arena: StaticAllocator<10> = StaticAllocator::new();
    assert_eq!(arena.allocate(10, 1), Ok(0));
    assert_eq!(arena.allocate(1, 1), Err(AllocError));
    arena.deallocate(0, 10, 1);
    assert_eq!(arena.allocate(1, 1), Err(AllocError));
}
