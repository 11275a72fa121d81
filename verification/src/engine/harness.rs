//! What the duration-bounded, multi-threaded workload harness decides before
//! it starts its workers: how many there are, which kind of work each does,
//! and which part of a shared buffer each owns.
//!
//! Starting, timing and joining the threads is the caller's part. A worker
//! checks the shared running flag only between two chunks of work, so a worker
//! that blocks inside a chunk is not stopped by the harness.

use vstd::prelude::*;

verus! {

/// The number of workers: as configured, or in automatic mode (0) one for
/// each logical core that was detected, and at least one.
pub open spec fn spec_worker_count(configured: u32, detected_cores: u32) -> int {
    if configured != 0 {
        configured as int
    } else if detected_cores == 0 {
        1
    } else {
        detected_cores as int
    }
}

/// The number of workers for a run.
pub fn worker_count(configured: u32, detected_cores: u32) -> (workers: u32)
    ensures
        workers == spec_worker_count(configured, detected_cores),
        workers >= 1,
{
    if configured != 0 {
        configured
    } else if detected_cores == 0 {
        1
    } else {
        detected_cores
    }
}

/// The micro-benchmarks that the compute workers rotate through.
#[derive(Debug, Clone, Copy, PartialEq, Eq, Structural)]
pub enum ComputeKind {
    /// Search for primes.
    Primes,
    /// Multiply matrices, to thrash the caches.
    Matrix,
    /// A chain of floating-point operations.
    FloatingPoint,
    /// A chain of integer operations.
    Integer,
    /// A loop of branches that are hard to predict.
    Branches,
    /// A mix of the others.
    Mixed,
}

/// The kind of work of the compute worker with the given number: the kinds
/// in their order, again and again.
pub open spec fn spec_compute_kind(worker: u32) -> ComputeKind {
    if worker % 6 == 0 {
        ComputeKind::Primes
    } else if worker % 6 == 1 {
        ComputeKind::Matrix
    } else if worker % 6 == 2 {
        ComputeKind::FloatingPoint
    } else if worker % 6 == 3 {
        ComputeKind::Integer
    } else if worker % 6 == 4 {
        ComputeKind::Branches
    } else {
        ComputeKind::Mixed
    }
}

/// The kind of work of the compute worker with the given number.
pub fn compute_kind(worker: u32) -> (kind: ComputeKind)
    ensures
        kind == spec_compute_kind(worker),
{
    let turn = worker % 6;
    if turn == 0 {
        ComputeKind::Primes
    } else if turn == 1 {
        ComputeKind::Matrix
    } else if turn == 2 {
        ComputeKind::FloatingPoint
    } else if turn == 3 {
        ComputeKind::Integer
    } else if turn == 4 {
        ComputeKind::Branches
    } else {
        ComputeKind::Mixed
    }
}

/// Where the slice of a worker starts in a buffer of `size` items shared by
/// `workers` workers: every worker gets `size / workers` items, one after
/// the other.
pub open spec fn slice_start(worker: int, workers: int, size: int) -> int {
    worker * (size / workers)
}

/// Where the slice of a worker ends: where the next one starts, and for the
/// last worker at the end of the buffer, so that it also takes what is left
/// over.
pub open spec fn slice_end(worker: int, workers: int, size: int) -> int {
    if worker == workers - 1 {
        size
    } else {
        (worker + 1) * (size / workers)
    }
}

/// The slices of the workers lie in the buffer, one behind the other: each
/// starts where the one before it ends, the first at the start of the buffer
/// and the last up to its end. So no two workers share an item, and every
/// item has a worker.
pub proof fn lemma_slices_tile_the_buffer(worker: int, workers: int, size: int)
    requires
        0 <= worker < workers,
        0 <= size,
    ensures
        0 <= slice_start(worker, workers, size) <= slice_end(worker, workers, size) <= size,
        worker == 0 ==> slice_start(worker, workers, size) == 0,
        worker + 1 < workers ==> slice_end(worker, workers, size) == slice_start(
            worker + 1,
            workers,
            size,
        ),
        worker == workers - 1 ==> slice_end(worker, workers, size) == size,
{
    let each = size / workers;
    assert(0 <= each && each * workers <= size) by (nonlinear_arith)
        requires
            each == size / workers,
            workers > 0,
            size >= 0,
    ;
    assert(0 <= worker * each <= (worker + 1) * each <= workers * each) by (nonlinear_arith)
        requires
            0 <= worker < workers,
            0 <= each,
    ;
    assert(workers * each == each * workers) by (nonlinear_arith);
}

/// Two different workers never own the same item.
pub proof fn lemma_slices_are_disjoint(first: int, second: int, workers: int, size: int)
    requires
        0 <= first < second < workers,
        0 <= size,
    ensures
        slice_end(first, workers, size) <= slice_start(second, workers, size),
{
    let each = size / workers;
    assert(0 <= each) by (nonlinear_arith)
        requires
            each == size / workers,
            workers > 0,
            size >= 0,
    ;
    assert((first + 1) * each <= second * each) by (nonlinear_arith)
        requires
            first + 1 <= second,
            0 <= each,
    ;
}

/// The part of a shared buffer that a worker owns: from `start` up to, not
/// including, `end`.
pub fn worker_slice(worker: u32, workers: u32, size: usize) -> (bounds: (usize, usize))
    requires
        worker < workers,
    ensures
        bounds.0 == slice_start(worker as int, workers as int, size as int),
        bounds.1 == slice_end(worker as int, workers as int, size as int),
        bounds.0 <= bounds.1 <= size,
{
    proof {
        lemma_slices_tile_the_buffer(worker as int, workers as int, size as int);
        if worker + 1 < workers {
            lemma_slices_tile_the_buffer(worker as int + 1, workers as int, size as int);
        }
    }
    let each: u64 = size as u64 / workers as u64;
    let start: u64 = worker as u64 * each;
    let end: u64 = if worker == workers - 1 {
        size as u64
    } else {
        (worker as u64 + 1) * each
    };
    (start as usize, end as usize)
}

} // verus!
