//! Partition of a file's byte range into one contiguous segment per stream.

use vstd::arithmetic::div_mod::{
    lemma_basic_div, lemma_div_is_ordered, lemma_div_by_self, lemma_fundamental_div_mod, lemma_mod_pos_bound,
};
use vstd::arithmetic::mul::{lemma_mul_inequality, lemma_mul_is_distributive_add_other_way};
use vstd::prelude::*;

verus! {

/// The half-open byte range `[start, end)` that stream `stream_num` transfers.
#[derive(Clone, Copy, Debug, PartialEq, Eq, Structural)]
pub struct Segment {
    pub stream_num: usize,
    pub start: u64,
    pub end: u64,
}

impl Segment {
    /// Number of bytes in the segment.
    pub fn len(&self) -> (r: u64)
        requires
            self.start <= self.end,
        ensures
            r == self.end - self.start,
    {
        self.end - self.start
    }

    /// Whether the segment holds no byte, so that its stream has nothing to move.
    pub fn is_empty(&self) -> (r: bool)
        ensures
            r == (self.start == self.end),
    {
        self.start == self.end
    }
}

/// Where segment `i` of `n` over a file of `size` bytes starts.
pub open spec fn segment_start(size: nat, n: nat, i: nat) -> nat {
    i * (size / n)
}

/// Where segment `i` of `n` over a file of `size` bytes ends: the next one's
/// start, and the file's end for the last one, which takes the remainder.
pub open spec fn segment_end(size: nat, n: nat, i: nat) -> nat {
    if i + 1 == n {
        size
    } else {
        (i + 1) * (size / n)
    }
}

/// Whether byte offset `x` lies in segment `i` of `n` over `size` bytes.
pub open spec fn in_segment(size: nat, n: nat, i: nat, x: int) -> bool {
    segment_start(size, n, i) <= x < segment_end(size, n, i)
}

/// Whether byte offset `x` lies in some segment of the `n` over `size` bytes.
pub open spec fn covered(size: nat, n: nat, x: int) -> bool {
    exists|i: nat| i < n && #[trigger] in_segment(size, n, i, x)
}

/// Whether `segs` is the plan of `n` segments over `size` bytes.
pub open spec fn is_plan(segs: Seq<Segment>, size: nat, n: nat) -> bool {
    &&& segs.len() == n
    &&& forall|i: int|
        #![trigger segs[i]]
        0 <= i < n ==> {
            &&& segs[i].stream_num == i
            &&& segs[i].start == segment_start(size, n, i as nat)
            &&& segs[i].end == segment_end(size, n, i as nat)
        }
}

proof fn lemma_start_bound(size: nat, n: nat, i: nat)
    requires
        n > 0,
        i <= n,
    ensures
        segment_start(size, n, i) <= size,
        i < n ==> segment_start(size, n, i) <= segment_end(size, n, i) <= size,
        n * (size / n) + size % n == size,
{
    lemma_fundamental_div_mod(size as int, n as int);
    lemma_mod_pos_bound(size as int, n as int);
    lemma_mul_inequality(i as int, n as int, (size / n) as int);
    if i + 1 < n {
        lemma_mul_inequality((i + 1) as int, n as int, (size / n) as int);
        lemma_mul_is_distributive_add_other_way((size / n) as int, i as int, 1);
    }
}

proof fn lemma_starts_ordered(size: nat, n: nat, i: nat, j: nat)
    requires
        n > 0,
        i < j < n,
    ensures
        segment_end(size, n, i) <= segment_start(size, n, j),
{
    lemma_mul_inequality((i + 1) as int, j as int, (size / n) as int);
}

proof fn lemma_offset_covered(size: nat, n: nat, x: nat) -> (i: nat)
    requires
        n > 0,
        x < size,
    ensures
        i < n,
        in_segment(size, n, i, x as int),
{
    let q = size / n;
    lemma_start_bound(size, n, (n - 1) as nat);
    if q == 0 {
        assert((n - 1) * q == 0) by (nonlinear_arith)
            requires
                q == 0,
        ;
        (n - 1) as nat
    } else {
        lemma_fundamental_div_mod(x as int, q as int);
        lemma_mod_pos_bound(x as int, q as int);
        let k = x / q;
        if k + 1 >= n {
            lemma_mul_inequality((n - 1) as int, k as int, q as int);
            assert((n - 1) * q <= k * q);
            assert(k * q == q * k) by (nonlinear_arith);
            (n - 1) as nat
        } else {
            lemma_mul_is_distributive_add_other_way(q as int, k as int, 1);
            assert(k * q == q * k) by (nonlinear_arith);
            k
        }
    }
}

/// A plan covers the file: the segments are contiguous, pairwise disjoint, and
/// together hold exactly the offsets `[0, size)`; the first starts at 0 and the
/// last ends at `size`. When there are at least as many bytes as streams, no
/// segment is empty; when there are fewer, all but the last are empty.
pub proof fn lemma_plan_partitions(size: nat, n: nat)
    requires
        n > 0,
    ensures
        segment_start(size, n, 0) == 0,
        segment_end(size, n, (n - 1) as nat) == size,
        forall|i: nat| #![trigger segment_end(size, n, i)]
            i + 1 < n ==> segment_end(size, n, i) == segment_start(size, n, i + 1),
        forall|x: int| #[trigger] covered(size, n, x) <==> 0 <= x < size,
        forall|i: nat, j: nat, x: int|
            i < n && j < n && #[trigger] in_segment(size, n, i, x) && #[trigger] in_segment(
                size,
                n,
                j,
                x,
            ) ==> i == j,
        size >= n ==> forall|i: nat| i < n ==> segment_start(size, n, i) < #[trigger] segment_end(
            size,
            n,
            i,
        ),
        size < n ==> forall|i: nat|
            i + 1 < n ==> segment_start(size, n, i) == #[trigger] segment_end(size, n, i) == 0,
{
    lemma_start_bound(size, n, (n - 1) as nat);
    assert forall|x: int| #[trigger] covered(size, n, x) <==> 0 <= x < size by {
        if 0 <= x < size {
            let i = lemma_offset_covered(size, n, x as nat);
        }
        if covered(size, n, x) {
            let i = choose|i: nat| i < n && #[trigger] in_segment(size, n, i, x);
            lemma_start_bound(size, n, i);
        }
    }
    assert forall|i: nat, j: nat, x: int|
        i < n && j < n && #[trigger] in_segment(size, n, i, x) && #[trigger] in_segment(
            size,
            n,
            j,
            x,
        ) implies i == j by {
        if i < j {
            lemma_starts_ordered(size, n, i, j);
        } else if j < i {
            lemma_starts_ordered(size, n, j, i);
        }
    }
    if size >= n {
        lemma_div_is_ordered(n as int, size as int, n as int);
        lemma_div_by_self(n as int);
        assert forall|i: nat| i < n implies segment_start(size, n, i) < #[trigger] segment_end(
            size,
            n,
            i,
        ) by {
            lemma_start_bound(size, n, i);
            let q = size / n;
            if i + 1 < n {
                lemma_mul_is_distributive_add_other_way(q as int, i as int, 1);
            } else {
                assert(i * q < n * q) by (nonlinear_arith)
                    requires
                        i + 1 == n,
                        q >= 1,
                ;
            }
        }
    }
    if size < n {
        lemma_basic_div(size as int, n as int);
    }
}

/// Splits `[0, file_size)` into `num_streams` contiguous segments: each of
/// `file_size / num_streams` bytes, the last one also taking the remainder.
pub fn plan_segments(file_size: u64, num_streams: usize) -> (segs: Vec<Segment>)
    requires
        num_streams > 0,
    ensures
        is_plan(segs@, file_size as nat, num_streams as nat),
        segs@.last().end == file_size,
        forall|i: int|
            #![trigger segs@[i]]
            0 <= i < num_streams - 1 ==> segs@[i].end - segs@[i].start == (file_size as nat)
                / (num_streams as nat),
        segs@.last().end - segs@.last().start == (file_size as nat) / (num_streams as nat) + (
        file_size as nat) % (num_streams as nat),
{
    let n = num_streams as u64;
    let stream_size = file_size / n;
    let mut segs: Vec<Segment> = Vec::new();
    let mut i: usize = 0;
    while i < num_streams
        invariant
            0 <= i <= num_streams,
            n == num_streams,
            stream_size == file_size / n,
            segs@.len() == i,
            forall|k: int|
                #![trigger segs@[k]]
                0 <= k < i ==> {
                    &&& segs@[k].stream_num == k
                    &&& segs@[k].start == segment_start(file_size as nat, n as nat, k as nat)
                    &&& segs@[k].end == segment_end(file_size as nat, n as nat, k as nat)
                },
        decreases num_streams - i,
    {
        proof {
            lemma_start_bound(file_size as nat, n as nat, i as nat);
        }
        let start = i as u64 * stream_size;
        let end = if i + 1 == num_streams {
            file_size
        } else {
            proof {
                lemma_start_bound(file_size as nat, n as nat, (i + 1) as nat);
            }
            (i as u64 + 1) * stream_size
        };
        segs.push(Segment { stream_num: i, start, end });
        i = i + 1;
    }
    proof {
        let size = file_size as nat;
        let nn = n as nat;
        lemma_start_bound(size, nn, (nn - 1) as nat);
        assert forall|k: int| 0 <= k < num_streams - 1 implies #[trigger] segs@[k].end
            - segs@[k].start == size / nn by {
            lemma_mul_is_distributive_add_other_way((size / nn) as int, k, 1);
        }
        lemma_mul_is_distributive_add_other_way((size / nn) as int, nn - 1, 1);
    }
    segs
}

} // verus!
