//! The destination file as a sequence of bytes, and what the streams' positional
//! writes make of it.

use crate::segment::{covered, in_segment, lemma_plan_partitions, segment_end, segment_start};
use vstd::prelude::*;

verus! {

/// `dest` after the bytes of `src` at offsets `[lo, hi)` were written at the
/// same offsets.
pub open spec fn place(dest: Seq<u8>, src: Seq<u8>, lo: int, hi: int) -> Seq<u8> {
    Seq::new(dest.len(), |x: int| if lo <= x < hi { src[x] } else { dest[x] })
}

/// `dest` after the streams listed in `order` completed, in that order, each
/// writing its segment of the plan of `n` over `src`.
pub open spec fn assemble(dest: Seq<u8>, src: Seq<u8>, n: nat, order: Seq<int>) -> Seq<u8>
    decreases order.len(),
{
    if order.len() == 0 {
        dest
    } else {
        let i = order.last() as nat;
        place(
            assemble(dest, src, n, order.drop_last()),
            src,
            segment_start(src.len(), n, i) as int,
            segment_end(src.len(), n, i) as int,
        )
    }
}

/// Whether `order` lists each of the streams `0..n` once.
pub open spec fn is_completion_order(order: Seq<int>, n: nat) -> bool {
    &&& order.len() == n
    &&& forall|k: int| 0 <= k < order.len() ==> 0 <= #[trigger] order[k] < n
    &&& forall|i: int| 0 <= i < n ==> #[trigger] order.contains(i)
}

/// `dest` after attempts of one stream that failed part way, the `j`-th having
/// written the first `partial[j]` bytes of the segment that starts at `lo`.
pub open spec fn failed_attempts(dest: Seq<u8>, src: Seq<u8>, lo: int, partial: Seq<nat>) -> Seq<
    u8,
>
    decreases partial.len(),
{
    if partial.len() == 0 {
        dest
    } else {
        place(
            failed_attempts(dest, src, lo, partial.drop_last()),
            src,
            lo,
            lo + partial.last(),
        )
    }
}

/// After the streams in `order` completed, whether or not the others did, a
/// byte holds the source's value where the segment of a completed stream
/// covers it, and its earlier value elsewhere; the length never changes.
pub proof fn lemma_assembled_bytes(dest: Seq<u8>, src: Seq<u8>, n: nat, order: Seq<int>)
    ensures
        assemble(dest, src, n, order).len() == dest.len(),
        forall|x: int|
            0 <= x < dest.len() ==> #[trigger] assemble(dest, src, n, order)[x] == if exists|
                k: int,
            | 0 <= k < order.len() && #[trigger] in_segment(src.len(), n, order[k] as nat, x) {
                src[x]
            } else {
                dest[x]
            },
    decreases order.len(),
{
    if order.len() > 0 {
        let prev = order.drop_last();
        lemma_assembled_bytes(dest, src, n, prev);
        assert forall|x: int| 0 <= x < dest.len() implies #[trigger] assemble(
            dest,
            src,
            n,
            order,
        )[x] == if exists|k: int|
            0 <= k < order.len() && #[trigger] in_segment(src.len(), n, order[k] as nat, x) {
            src[x]
        } else {
            dest[x]
        } by {
            if exists|k: int|
                0 <= k < order.len() && #[trigger] in_segment(src.len(), n, order[k] as nat, x) {
                let k = choose|k: int|
                    0 <= k < order.len() && #[trigger] in_segment(
                        src.len(),
                        n,
                        order[k] as nat,
                        x,
                    );
                if k < prev.len() {
                    assert(prev[k] == order[k]);
                }
            } else {
                assert forall|k: int| 0 <= k < prev.len() implies !#[trigger] in_segment(
                    src.len(),
                    n,
                    prev[k] as nat,
                    x,
                ) by {
                    assert(prev[k] == order[k]);
                }
                assert(!in_segment(src.len(), n, order[order.len() - 1] as nat, x));
            }
        }
    }
}

/// Once every stream has written its segment, in whatever order they
/// completed, the destination (pre-extended to the source's length) holds the
/// source byte for byte.
pub proof fn lemma_assembly_reproduces_source(
    dest: Seq<u8>,
    src: Seq<u8>,
    n: nat,
    order: Seq<int>,
)
    requires
        n > 0,
        dest.len() == src.len(),
        is_completion_order(order, n),
    ensures
        assemble(dest, src, n, order) == src,
{
    lemma_assembled_bytes(dest, src, n, order);
    lemma_plan_partitions(src.len(), n);
    let r = assemble(dest, src, n, order);
    assert forall|x: int| 0 <= x < src.len() implies #[trigger] r[x] == src[x] by {
        assert(covered(src.len(), n, x));
        let i = choose|i: nat| i < n && #[trigger] in_segment(src.len(), n, i, x);
        assert(order.contains(i as int));
        let k = choose|k: int| 0 <= k < order.len() && order[k] == i as int;
        assert(in_segment(src.len(), n, order[k] as nat, x));
    }
    assert(r =~= src);
}

/// The order in which the streams complete does not change the destination.
pub proof fn lemma_completion_order_irrelevant(
    dest: Seq<u8>,
    src: Seq<u8>,
    n: nat,
    first: Seq<int>,
    second: Seq<int>,
)
    requires
        n > 0,
        dest.len() == src.len(),
        is_completion_order(first, n),
        is_completion_order(second, n),
    ensures
        assemble(dest, src, n, first) == assemble(dest, src, n, second),
{
    lemma_assembly_reproduces_source(dest, src, n, first);
    lemma_assembly_reproduces_source(dest, src, n, second);
}

/// Writing a segment as consecutive chunks, each at the offset where the
/// previous one ended (as a stream's copy loop does), leaves the same bytes as
/// writing it whole.
pub proof fn lemma_chunks_compose(dest: Seq<u8>, src: Seq<u8>, lo: int, mid: int, hi: int)
    requires
        lo <= mid <= hi,
    ensures
        place(place(dest, src, lo, mid), src, mid, hi) == place(dest, src, lo, hi),
{
    assert(place(place(dest, src, lo, mid), src, mid, hi) =~= place(dest, src, lo, hi));
}

/// A stream that failed part way any number of times and then succeeded leaves
/// the same bytes as one attempt that succeeded at once: a retry restarts at the
/// segment's start and rewrites every byte the failed attempts wrote.
pub proof fn lemma_retry_rewrites_segment(
    dest: Seq<u8>,
    src: Seq<u8>,
    lo: int,
    hi: int,
    partial: Seq<nat>,
)
    requires
        lo <= hi,
        forall|j: int| 0 <= j < partial.len() ==> #[trigger] partial[j] <= hi - lo,
    ensures
        place(failed_attempts(dest, src, lo, partial), src, lo, hi) == place(dest, src, lo, hi),
    decreases partial.len(),
{
    if partial.len() > 0 {
        let prev = partial.drop_last();
        assert forall|j: int| 0 <= j < prev.len() implies #[trigger] prev[j] <= hi - lo by {
            assert(prev[j] == partial[j]);
        }
        lemma_retry_rewrites_segment(dest, src, lo, hi, prev);
        let before = failed_attempts(dest, src, lo, prev);
        assert(place(place(before, src, lo, lo + partial.last()), src, lo, hi) =~= place(
            before,
            src,
            lo,
            hi,
        ));
    }
}

} // verus!
