//! Capacities of the renderer's buffers. A capacity grows to the next power
//! of two when a frame needs more room than there is, and never shrinks.

use vstd::arithmetic::power2::is_pow2;
use vstd::prelude::*;

verus! {

/// The smallest power of two that is at least `n`; one for `n` below one.
pub open spec fn next_power_of_two(n: int) -> int
    decreases n,
{
    if n <= 1 {
        1
    } else {
        2 * next_power_of_two((n + 1) / 2)
    }
}

/// The capacity after a frame that needs `required` elements.
pub open spec fn grown(capacity: int, required: int) -> int {
    if required <= capacity {
        capacity
    } else {
        next_power_of_two(required)
    }
}

/// The capacity after a run of frames, from the first to the last.
pub open spec fn capacity_after(initial: int, frames: Seq<int>) -> int
    decreases frames.len(),
{
    if frames.len() == 0 {
        initial
    } else {
        grown(capacity_after(initial, frames.drop_last()), frames.last())
    }
}

/// No capacity exceeds this: the smallest power of two that no count in
/// `usize` exceeds on any machine.
pub const CAPACITY_LIMIT: u128 = 0x1_0000_0000_0000_0000;

/// What a frame asks of a buffer.
#[derive(Debug, Clone, Copy, PartialEq, Eq, Structural)]
pub enum Upload {
    /// The frame has no element for this buffer: nothing is written, and
    /// nothing of it is drawn.
    Nothing,
    /// The elements fit: write `bytes` bytes from the start of the buffer.
    Write { bytes: u128 },
    /// The capacity grew: allocate a buffer of `capacity_bytes` bytes, then
    /// write `bytes` bytes from its start.
    Reallocate { capacity_bytes: u128, bytes: u128 },
}

/// What a frame of `count` elements of `stride` bytes each asks of a buffer
/// of the given capacity. No more is written than the frame has produced.
pub open spec fn upload_of(capacity: int, count: int, stride: int) -> Upload {
    if count == 0 {
        Upload::Nothing
    } else if count <= capacity {
        Upload::Write { bytes: (count * stride) as u128 }
    } else {
        Upload::Reallocate {
            capacity_bytes: (next_power_of_two(count) * stride) as u128,
            bytes: (count * stride) as u128,
        }
    }
}

/// The capacity of one buffer, in elements. It is counted in 128 bits, so
/// that the next power of two is there for every count that a machine can
/// ask for.
pub struct BufferCapacity {
    capacity: u128,
}

impl View for BufferCapacity {
    type V = nat;

    closed spec fn view(&self) -> nat {
        self.capacity as nat
    }
}

impl BufferCapacity {
    /// A capacity of `initial` elements.
    pub fn new(initial: usize) -> (buffer: BufferCapacity)
        ensures
            buffer@ == initial,
    {
        BufferCapacity { capacity: initial as u128 }
    }

    /// The number of elements that fit.
    pub fn capacity(&self) -> (capacity: u128)
        ensures
            capacity == self@,
    {
        self.capacity
    }

    /// Makes room for `required` elements and says whether the capacity
    /// grew, in which case the buffer has to be allocated anew. The
    /// capacity never shrinks: where the elements fit it stays as it is,
    /// and where they do not it becomes the next power of two.
    pub fn ensure(&mut self, required: usize) -> (grew: bool)
        ensures
            final(self)@ == grown(old(self)@ as int, required as int),
            grew == (required > old(self)@),
            final(self)@ >= old(self)@,
            final(self)@ >= required,
            grew ==> is_pow2(final(self)@ as int) && final(self)@ <= CAPACITY_LIMIT,
            !grew ==> final(self)@ == old(self)@,
    {
        proof {
            lemma_next_power_of_two(required as int);
        }
        if required as u128 <= self.capacity {
            return false;
        }
        self.capacity = smallest_power_of_two(required);
        true
    }

    /// Plans the upload of a frame's `count` elements of `stride` bytes
    /// each: makes room for them, and says what to allocate and how much to
    /// write. A frame without elements asks for nothing and leaves the
    /// capacity as it is; any other frame has all of its bytes written, and
    /// no more.
    pub fn plan(&mut self, count: usize, stride: usize) -> (upload: Upload)
        ensures
            final(self)@ == grown(old(self)@ as int, count as int),
            final(self)@ >= old(self)@,
            final(self)@ >= count,
            upload == upload_of(old(self)@ as int, count as int, stride as int),
            count == 0 ==> upload is Nothing && final(self)@ == old(self)@,
            count > 0 && count <= old(self)@ ==> upload == (Upload::Write {
                bytes: (count * stride) as u128,
            }) && final(self)@ == old(self)@,
            count > old(self)@ ==> upload == (Upload::Reallocate {
                capacity_bytes: (final(self)@ * stride) as u128,
                bytes: (count * stride) as u128,
            }),
            count * stride <= final(self)@ * stride,
    {
        proof {
            lemma_next_power_of_two(count as int);
            lemma_bytes_fit(count as int, stride as int);
            lemma_bytes_fit(CAPACITY_LIMIT as int, stride as int);
            assert(count * stride <= grown(self@ as int, count as int) * stride)
                by (nonlinear_arith)
                requires
                    count <= grown(self@ as int, count as int),
                    stride >= 0,
            ;
        }
        if count == 0 {
            return Upload::Nothing;
        }
        let bytes: u128 = (count as u128) * (stride as u128);
        if self.ensure(count) {
            proof {
                lemma_scaled_order(self@ as int, CAPACITY_LIMIT as int, stride as int);
            }
            Upload::Reallocate { capacity_bytes: self.capacity * (stride as u128), bytes }
        } else {
            Upload::Write { bytes }
        }
    }
}

/// The smallest power of two that is at least `n`.
pub fn smallest_power_of_two(n: usize) -> (p: u128)
    ensures
        p == next_power_of_two(n as int),
        p <= CAPACITY_LIMIT,
{
    let mut p: u128 = 1;
    proof {
        reveal(is_pow2);
        lemma_limit_is_pow2();
    }
    while p < n as u128
        invariant
            is_pow2(p as int),
            is_pow2(CAPACITY_LIMIT as int),
            1 <= p <= CAPACITY_LIMIT,
            p == 1 || p < 2 * n,
        decreases 2 * n - p,
    {
        proof {
            lemma_double_is_pow2(p as int);
            lemma_pow2_gap(p as int, CAPACITY_LIMIT as int);
        }
        p = p * 2;
    }
    proof {
        lemma_next_power_of_two(n as int);
        lemma_pow2_between(p as int, next_power_of_two(n as int), n as int);
    }
    p
}

/// The limit of capacities is a power of two.
proof fn lemma_limit_is_pow2()
    ensures
        is_pow2(CAPACITY_LIMIT as int),
{
    vstd::arithmetic::power2::lemma2_to64();
    vstd::arithmetic::power::lemma_pow_positive(2, 64);
    assert(vstd::arithmetic::power::pow(2, 64) == CAPACITY_LIMIT as int);
    assert(vstd::arithmetic::power2::is_pow2_exists(CAPACITY_LIMIT as int));
    vstd::arithmetic::power2::is_pow2_equiv(CAPACITY_LIMIT as int);
}

/// A count of elements, in bytes, fits into 128 bits.
proof fn lemma_bytes_fit(count: int, stride: int)
    requires
        0 <= count <= 0x1_0000_0000_0000_0000,
        0 <= stride < 0x1_0000_0000_0000_0000,
    ensures
        0 <= count * stride < 0x1_0000_0000_0000_0000 * 0x1_0000_0000_0000_0000,
{
    assert(0 <= count * stride < 0x1_0000_0000_0000_0000 * 0x1_0000_0000_0000_0000)
        by (nonlinear_arith)
        requires
            0 <= count <= 0x1_0000_0000_0000_0000,
            0 <= stride < 0x1_0000_0000_0000_0000,
    ;
}

/// Of two counts, the smaller takes no more bytes.
proof fn lemma_scaled_order(a: int, b: int, stride: int)
    requires
        0 <= a <= b,
        0 <= stride,
    ensures
        0 <= a * stride <= b * stride,
{
    assert(0 <= a * stride <= b * stride) by (nonlinear_arith)
        requires
            0 <= a <= b,
            0 <= stride,
    ;
}

/// Twice a power of two is a power of two.
pub proof fn lemma_double_is_pow2(p: int)
    requires
        is_pow2(p),
    ensures
        is_pow2(2 * p),
{
    reveal(is_pow2);
}

/// Of two powers of two, the larger is at least twice the smaller.
pub proof fn lemma_pow2_gap(p: int, q: int)
    requires
        is_pow2(p),
        is_pow2(q),
        p < q,
    ensures
        2 * p <= q,
    decreases q,
{
    reveal(is_pow2);
    if p == 1 {
    } else {
        lemma_pow2_gap(p / 2, q / 2);
    }
}

/// Two powers of two that are both at least `n` and both less than twice
/// `n`, or one where `n` is less than one, are the same.
proof fn lemma_pow2_between(p: int, q: int, n: int)
    requires
        is_pow2(p),
        is_pow2(q),
        p >= n,
        q >= n,
        p == 1 || p < 2 * n,
        q == 1 || q < 2 * n,
    ensures
        p == q,
{
    reveal(is_pow2);
    if p < q {
        lemma_pow2_gap(p, q);
    } else if q < p {
        lemma_pow2_gap(q, p);
    }
}

/// `next_power_of_two(n)` is a power of two, at least `n`, and less than
/// twice `n` unless it is one; no power of two between `n` and it is
/// smaller.
pub proof fn lemma_next_power_of_two(n: int)
    ensures
        is_pow2(next_power_of_two(n)),
        next_power_of_two(n) >= n,
        next_power_of_two(n) >= 1,
        next_power_of_two(n) == 1 || next_power_of_two(n) < 2 * n,
        forall|q: int| is_pow2(q) && q >= n ==> next_power_of_two(n) <= q,
    decreases n,
{
    reveal(is_pow2);
    if n <= 1 {
        assert forall|q: int| is_pow2(q) && q >= n implies next_power_of_two(n) <= q by {}
    } else {
        lemma_next_power_of_two((n + 1) / 2);
        lemma_double_is_pow2(next_power_of_two((n + 1) / 2));
        let p = next_power_of_two(n);
        assert forall|q: int| is_pow2(q) && q >= n implies p <= q by {
            if q < p {
                lemma_pow2_gap(q, p);
            }
        }
    }
}

/// Over any run of frames the capacity only grows: it is never less than
/// after a shorter run of the same frames, never less than the initial
/// capacity, and never less than what any frame so far has needed. It is
/// the initial capacity for as long as no frame has needed more, and a
/// power of two from then on; with a power of two to start from, it is
/// always one.
pub proof fn lemma_capacity_history(initial: int, frames: Seq<int>, shorter: int)
    requires
        0 <= shorter <= frames.len(),
    ensures
        capacity_after(initial, frames.take(shorter)) <= capacity_after(initial, frames),
        initial <= capacity_after(initial, frames),
        forall|i: int| 0 <= i < frames.len() ==> frames[i] <= capacity_after(initial, frames),
        capacity_after(initial, frames) == initial || is_pow2(capacity_after(initial, frames)),
        capacity_after(initial, frames) == initial <==> forall|i: int|
            0 <= i < frames.len() ==> frames[i] <= initial,
        is_pow2(initial) ==> is_pow2(capacity_after(initial, frames)),
    decreases frames.len(),
{
    if frames.len() > 0 {
        let before = frames.drop_last();
        let last = frames.last();
        lemma_next_power_of_two(last);
        if shorter == frames.len() {
            assert(frames.take(shorter) == frames);
            lemma_capacity_history(initial, before, 0);
        } else {
            assert(frames.take(shorter) == before.take(shorter));
            lemma_capacity_history(initial, before, shorter);
        }
        assert forall|i: int| 0 <= i < frames.len() implies frames[i] <= capacity_after(
            initial,
            frames,
        ) by {
            if i < before.len() {
                assert(before[i] == frames[i]);
            }
        }
        if forall|i: int| 0 <= i < frames.len() ==> frames[i] <= initial {
            assert forall|i: int| 0 <= i < before.len() implies before[i] <= initial by {
                assert(before[i] == frames[i]);
            }
        }
    }
}

} // verus!
