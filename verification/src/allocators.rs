//! Static bump allocator: a fixed-capacity byte arena with a
//! monotonically advancing cursor, the process-wide source of dynamic
//! memory in a heap-less kernel.
//!
//! An allocation advances the cursor to the next aligned offset and
//! carves out the requested range; a request that would exceed
//! capacity fails and leaves the cursor unchanged. Deallocation is
//! accepted for interface compatibility and reclaims nothing: zero
//! fragmentation and no allocation-time locking risk, at the cost of
//! never shrinking usage.

use vstd::prelude::*;
use vstd::arithmetic::div_mod::lemma_fundamental_div_mod;
use vstd::arithmetic::div_mod::lemma_mod_bound;
use vstd::arithmetic::div_mod::lemma_mod_multiples_basic;

verus! {

/// The request does not fit in the remaining capacity. Exhaustion of
/// the process-wide arena is fatal for the kernel; the embedder
/// aborts on it.
#[derive(Debug, Clone, Copy, PartialEq, Eq, Structural)]
pub struct AllocError;

/// `cursor` rounded up to the next multiple of `align` (`align >= 1`).
pub open spec fn spec_align_up(cursor: int, align: int) -> int {
    if cursor % align == 0 {
        cursor
    } else {
        cursor + align - cursor % align
    }
}

/// Rounding up lands on a multiple of `align`, at or after `cursor`
/// and less than one whole `align` further.
pub proof fn lemma_align_up(cursor: int, align: int)
    requires
        0 <= cursor,
        1 <= align,
    ensures
        cursor <= spec_align_up(cursor, align) < cursor + align,
        spec_align_up(cursor, align) % align == 0,
{
    lemma_mod_bound(cursor, align);
    if cursor % align != 0 {
        lemma_fundamental_div_mod(cursor, align);
        assert(cursor + align - cursor % align == align * (cursor / align + 1)) by (nonlinear_arith)
            requires
                cursor == align * (cursor / align) + cursor % align,
        ;
        lemma_mod_multiples_basic(cursor / align + 1, align);
        assert((cursor / align + 1) * align == align * (cursor / align + 1)) by (nonlinear_arith);
    }
}

/// One allocation step on the model: the aligned offset and the new
/// cursor on success, nothing if the request exceeds capacity.
pub open spec fn spec_allocate(capacity: int, cursor: int, size: int, align: int) -> Option<
    (int, int),
> {
    let offset = spec_align_up(cursor, align);
    if offset + size <= capacity {
        Some((offset, offset + size))
    } else {
        None
    }
}

/// The fixed-capacity arena: `SIZE` bytes of backing store and the
/// cursor past the last carved-out byte. The cursor never decreases.
#[derive(Debug)]
pub struct StaticAllocator<const SIZE: usize> {
    pub cursor: usize,
}

impl<const SIZE: usize> StaticAllocator<SIZE> {
    /// The cursor stays within the backing store.
    pub open spec fn wf(self) -> bool {
        self.cursor <= SIZE
    }

    /// A fresh arena: nothing carved out yet.
    pub fn new() -> (a: StaticAllocator<SIZE>)
        ensures
            a.wf(),
            a.cursor == 0,
    {
        StaticAllocator { cursor: 0 }
    }

    /// Carve out `size` bytes at the next offset aligned to `align`:
    /// the returned offset is the start of the range, and the cursor
    /// advances past its end. Fails, leaving the cursor unchanged,
    /// exactly when the aligned request would exceed capacity.
    pub fn allocate(&mut self, size: usize, align: usize) -> (r: Result<usize, AllocError>)
        requires
            old(self).wf(),
            1 <= align,
        ensures
            final(self).wf(),
            r is Ok <==> spec_align_up(old(self).cursor as int, align as int) + size <= SIZE,
            match r {
                Ok(offset) => {
                    &&& offset == spec_align_up(old(self).cursor as int, align as int)
                    &&& old(self).cursor <= offset
                    &&& final(self).cursor == offset + size
                },
                Err(_) => *final(self) == *old(self),
            },
    {
        proof {
            lemma_align_up(self.cursor as int, align as int);
        }
        let rem = self.cursor % align;
        let pad = if rem == 0 {
            0
        } else {
            align - rem
        };
        if pad > SIZE - self.cursor {
            return Err(AllocError);
        }
        let offset = self.cursor + pad;
        if size > SIZE - offset {
            return Err(AllocError);
        }
        self.cursor = offset + size;
        Ok(offset)
    }

    /// Release a previously allocated range: a no-op. Freed ranges are
    /// never reclaimed, so releasing changes no later allocation
    /// outcome.
    pub fn deallocate(&mut self, offset: usize, size: usize, align: usize)
        ensures
            *final(self) == *old(self),
    {
        let _ = offset;
        let _ = size;
        let _ = align;
    }
}

/// Sum of a sequence of request sizes.
pub open spec fn spec_sum(sizes: Seq<int>) -> int
    decreases sizes.len(),
{
    if sizes.len() == 0 {
        0
    } else {
        sizes[0] + spec_sum(sizes.subrange(1, sizes.len() as int))
    }
}

/// The cursor after serving a run of unaligned requests in order.
pub open spec fn run_bump(cursor: int, sizes: Seq<int>) -> int
    decreases sizes.len(),
{
    if sizes.len() == 0 {
        cursor
    } else {
        run_bump(cursor + sizes[0], sizes.subrange(1, sizes.len() as int))
    }
}

proof fn lemma_run_bump_sum(cursor: int, sizes: Seq<int>)
    ensures
        run_bump(cursor, sizes) == cursor + spec_sum(sizes),
    decreases sizes.len(),
{
    if sizes.len() > 0 {
        lemma_run_bump_sum(cursor + sizes[0], sizes.subrange(1, sizes.len() as int));
    }
}

proof fn lemma_sum_snoc(sizes: Seq<int>, last: int)
    ensures
        spec_sum(sizes.push(last)) == spec_sum(sizes) + last,
    decreases sizes.len(),
{
    let p = sizes.push(last);
    if sizes.len() == 0 {
        assert(p[0] == last);
        assert(p.subrange(1, p.len() as int) =~= Seq::<int>::empty());
        assert(spec_sum(p) == p[0] + spec_sum(p.subrange(1, p.len() as int)));
        assert(spec_sum(Seq::<int>::empty()) == 0);
        assert(spec_sum(sizes) == 0);
    } else {
        let t = sizes.subrange(1, sizes.len() as int);
        lemma_sum_snoc(t, last);
        assert(p[0] == sizes[0]);
        assert(p.subrange(1, p.len() as int) =~= t.push(last));
        assert(spec_sum(p) == p[0] + spec_sum(p.subrange(1, p.len() as int)));
        assert(spec_sum(p.subrange(1, p.len() as int)) == spec_sum(t) + last);
        assert(spec_sum(sizes) == sizes[0] + spec_sum(t));
    }
}

proof fn lemma_sum_nonneg(sizes: Seq<int>)
    requires
        forall|i: int| 0 <= i < sizes.len() ==> sizes[i] >= 0,
    ensures
        spec_sum(sizes) >= 0,
    decreases sizes.len(),
{
    if sizes.len() > 0 {
        let t = sizes.subrange(1, sizes.len() as int);
        lemma_sum_nonneg(t);
    }
}

proof fn lemma_sum_prefix(sizes: Seq<int>, i: int)
    requires
        0 <= i <= sizes.len(),
        forall|j: int| 0 <= j < sizes.len() ==> sizes[j] >= 0,
    ensures
        spec_sum(sizes.subrange(0, i)) <= spec_sum(sizes),
    decreases sizes.len() - i,
{
    if i == sizes.len() {
        assert(sizes.subrange(0, i) =~= sizes);
    } else {
        lemma_sum_prefix_step(sizes, i);
        lemma_sum_prefix(sizes, i + 1);
    }
}

proof fn lemma_sum_prefix_step(sizes: Seq<int>, i: int)
    requires
        0 <= i < sizes.len(),
    ensures
        spec_sum(sizes.subrange(0, i + 1)) == spec_sum(sizes.subrange(0, i)) + sizes[i],
{
    lemma_sum_snoc(sizes.subrange(0, i), sizes[i]);
    assert(sizes.subrange(0, i).push(sizes[i]) =~= sizes.subrange(0, i + 1));
}

/// Law: a run of unaligned requests whose sizes sum to at most the
/// remaining capacity is served in full — every step succeeds, each
/// allocation starts exactly at the previous cursor, and the carved
/// ranges are pairwise disjoint, each ending at or before the start
/// of every later one.
pub proof fn lemma_allocate_run(capacity: int, cursor: int, sizes: Seq<int>)
    requires
        0 <= cursor,
        forall|i: int| 0 <= i < sizes.len() ==> sizes[i] >= 0,
        cursor + spec_sum(sizes) <= capacity,
    ensures
        forall|i: int|
            0 <= i < sizes.len() ==> #[trigger] spec_allocate(
                capacity,
                run_bump(cursor, sizes.subrange(0, i)),
                sizes[i],
                1,
            ) == Some(
                (
                    run_bump(cursor, sizes.subrange(0, i)),
                    run_bump(cursor, sizes.subrange(0, i)) + sizes[i],
                ),
            ),
        run_bump(cursor, sizes) == cursor + spec_sum(sizes),
        forall|i: int, j: int|
            0 <= i < j < sizes.len() ==> #[trigger] run_bump(cursor, sizes.subrange(0, i))
                + sizes[i] <= #[trigger] run_bump(cursor, sizes.subrange(0, j)),
{
    lemma_run_bump_sum(cursor, sizes);
    assert forall|i: int| 0 <= i < sizes.len() implies #[trigger] spec_allocate(
        capacity,
        run_bump(cursor, sizes.subrange(0, i)),
        sizes[i],
        1,
    ) == Some(
        (
            run_bump(cursor, sizes.subrange(0, i)),
            run_bump(cursor, sizes.subrange(0, i)) + sizes[i],
        ),
    ) by {
        lemma_run_bump_sum(cursor, sizes.subrange(0, i));
        lemma_sum_prefix_step(sizes, i);
        lemma_sum_prefix(sizes, i + 1);
        lemma_sum_nonneg(sizes.subrange(0, i));
        assert(spec_align_up(run_bump(cursor, sizes.subrange(0, i)), 1) == run_bump(
            cursor,
            sizes.subrange(0, i),
        ));
    }
    assert forall|i: int, j: int| 0 <= i < j < sizes.len() implies #[trigger] run_bump(
        cursor,
        sizes.subrange(0, i),
    ) + sizes[i] <= #[trigger] run_bump(cursor, sizes.subrange(0, j)) by {
        lemma_run_bump_sum(cursor, sizes.subrange(0, i));
        lemma_run_bump_sum(cursor, sizes.subrange(0, j));
        lemma_sum_prefix_step(sizes, i);
        lemma_sum_between(sizes, i + 1, j);
    }
}

proof fn lemma_sum_between(sizes: Seq<int>, i: int, j: int)
    requires
        0 <= i <= j <= sizes.len(),
        forall|k: int| 0 <= k < sizes.len() ==> sizes[k] >= 0,
    ensures
        spec_sum(sizes.subrange(0, i)) <= spec_sum(sizes.subrange(0, j)),
    decreases j - i,
{
    if i < j {
        lemma_sum_prefix_step(sizes, i);
        lemma_sum_between(sizes, i + 1, j);
    }
}

/// Law: the ranges of two successive successful allocations never
/// overlap, whatever the alignments: the second offset lies at or
/// past the end of the first range, because the cursor never moves
/// backwards.
pub proof fn lemma_allocate_disjoint(cursor: int, size1: int, align1: int, align2: int)
    requires
        0 <= cursor,
        0 <= size1,
        1 <= align1,
        1 <= align2,
    ensures
        spec_align_up(cursor, align1) + size1 <= spec_align_up(
            spec_align_up(cursor, align1) + size1,
            align2,
        ),
{
    lemma_align_up(cursor, align1);
    lemma_align_up(spec_align_up(cursor, align1) + size1, align2);
}

/// Law: deallocation reclaims nothing. From a fresh arena, one
/// request of `n` bytes succeeds exactly when `n` fits the capacity;
/// releasing it moves no cursor, so a second request of `n` succeeds
/// exactly when `2 * n` fits — allocate, deallocate, allocate needs
/// twice the capacity, not once.
pub proof fn lemma_dealloc_no_reclaim(capacity: int, n: int)
    requires
        0 <= n,
    ensures
        spec_allocate(capacity, 0, n, 1) is Some <==> n <= capacity,
        spec_allocate(capacity, n, n, 1) is Some <==> 2 * n <= capacity,
{
}

} // verus!
