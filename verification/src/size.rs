use std::borrow::{Cow, ToOwned};
use std::collections::VecDeque;
use std::convert::Infallible;
use std::marker::{PhantomData, PhantomPinned};
use std::rc::Rc;
use std::sync::Arc;
use vstd::layout::size_of;
use vstd::prelude::*;

verus! {

/// Determines the size in bytes an object occupies inside RAM. It may be an
/// approximation.
///
/// The byte counts are modelled by two numbers: the stack size,
/// `size_of::<Self>()`, and `heap_bytes`. An implementation that keeps to
/// this model says so by `obeys_size_spec`; the contracts speak of the
/// results only for such implementations (an implementation written without
/// these spec functions keeps the defaults, `false` and `0`, and its results
/// are left open).
pub trait Size: Sized {
    /// Whether the implementation's results are the modelled byte counts.
    open spec fn obeys_size_spec() -> bool {
        false
    }

    /// The number of bytes the value is accounted with on the heap.
    open spec fn heap_bytes(&self) -> nat {
        0
    }

    /// Determines how many bytes this object occupies inside the stack.
    ///
    /// The default implementation uses `std::mem::size_of`.
    fn get_stack_size() -> (r: usize)
        ensures
            Self::obeys_size_spec() ==> r as nat == size_of::<Self>(),
    {
        std::mem::size_of::<Self>()
    }

    /// Determines how many bytes this object occupies inside the heap. It
    /// must be adjusted as appropriate for objects which hold data inside the
    /// heap.
    fn get_heap_size(&self) -> (r: usize)
        ensures
            Self::obeys_size_spec() && self.heap_bytes() <= usize::MAX ==> r as nat
                == self.heap_bytes(),
    ;

    /// Determines the total size of the object: the stack size plus the heap
    /// size (wrapping where the sum does not fit in a `usize`).
    fn get_size(&self) -> (r: usize)
        ensures
            Self::obeys_size_spec() && size_of::<Self>() + self.heap_bytes() <= usize::MAX ==> r as nat
                == size_of::<Self>() + self.heap_bytes(),
    {
        let stack = Self::get_stack_size();
        let heap = self.get_heap_size();
        stack.wrapping_add(heap)
    }
}

/// The total size of a value: its stack size plus its heap size.
pub open spec fn total_bytes<T: Size>(t: &T) -> nat {
    size_of::<T>() + t.heap_bytes()
}

/// The sum of the total sizes of the elements of `s`.
pub open spec fn sum_total_bytes<T: Size>(s: Seq<T>) -> nat
    decreases s.len(),
{
    if s.len() == 0 {
        0
    } else {
        sum_total_bytes(s.drop_last()) + total_bytes(&s.last())
    }
}

/// The sum of the heap sizes of the elements of `s`.
pub open spec fn sum_heap_bytes<T: Size>(s: Seq<T>) -> nat
    decreases s.len(),
{
    if s.len() == 0 {
        0
    } else {
        sum_heap_bytes(s.drop_last()) + s.last().heap_bytes()
    }
}

/// A prefix of a sequence sums to no more than the whole sequence.
pub proof fn lemma_sum_total_bytes_prefix<T: Size>(s: Seq<T>, i: int)
    requires
        0 <= i <= s.len(),
    ensures
        sum_total_bytes(s.take(i)) <= sum_total_bytes(s),
        i < s.len() ==> sum_total_bytes(s.take(i + 1)) == sum_total_bytes(s.take(i))
            + total_bytes(&s[i]),
    decreases s.len() - i,
{
    if i < s.len() {
        assert(s.take(i + 1).drop_last() =~= s.take(i));
        lemma_sum_total_bytes_prefix(s, i + 1);
    } else {
        assert(s.take(i) =~= s);
    }
}

/// A prefix of a sequence sums to no more than the whole sequence.
pub proof fn lemma_sum_heap_bytes_prefix<T: Size>(s: Seq<T>, i: int)
    requires
        0 <= i <= s.len(),
    ensures
        sum_heap_bytes(s.take(i)) <= sum_heap_bytes(s),
        i < s.len() ==> sum_heap_bytes(s.take(i + 1)) == sum_heap_bytes(s.take(i))
            + s[i].heap_bytes(),
    decreases s.len() - i,
{
    if i < s.len() {
        assert(s.take(i + 1).drop_last() =~= s.take(i));
        lemma_sum_heap_bytes_prefix(s, i + 1);
    } else {
        assert(s.take(i) =~= s);
    }
}

/// Values of the primitive types keep the size model and have no heap bytes.
pub proof fn lemma_primitive_sizes(unit: (), b: bool, c: char, u8v: u8, u16v: u16, u32v: u32, u64v: u64, u128v: u128, usizev: usize, i8v: i8, i16v: i16, i32v: i32, i64v: i64, i128v: i128, isizev: isize)
    ensures
        <() as Size>::obeys_size_spec() && unit.heap_bytes() == 0,
        <bool as Size>::obeys_size_spec() && b.heap_bytes() == 0,
        <char as Size>::obeys_size_spec() && c.heap_bytes() == 0,
        <u8 as Size>::obeys_size_spec() && u8v.heap_bytes() == 0,
        <u16 as Size>::obeys_size_spec() && u16v.heap_bytes() == 0,
        <u32 as Size>::obeys_size_spec() && u32v.heap_bytes() == 0,
        <u64 as Size>::obeys_size_spec() && u64v.heap_bytes() == 0,
        <u128 as Size>::obeys_size_spec() && u128v.heap_bytes() == 0,
        <usize as Size>::obeys_size_spec() && usizev.heap_bytes() == 0,
        <i8 as Size>::obeys_size_spec() && i8v.heap_bytes() == 0,
        <i16 as Size>::obeys_size_spec() && i16v.heap_bytes() == 0,
        <i32 as Size>::obeys_size_spec() && i32v.heap_bytes() == 0,
        <i64 as Size>::obeys_size_spec() && i64v.heap_bytes() == 0,
        <i128 as Size>::obeys_size_spec() && i128v.heap_bytes() == 0,
        <isize as Size>::obeys_size_spec() && isizev.heap_bytes() == 0,
{
}

/// Markers keep the size model and have no heap bytes.
pub proof fn lemma_marker_sizes<T>(p: PhantomData<T>, q: PhantomPinned)
    ensures
        <PhantomData<T> as Size>::obeys_size_spec() && p.heap_bytes() == 0,
        <PhantomPinned as Size>::obeys_size_spec() && q.heap_bytes() == 0,
        <Infallible as Size>::obeys_size_spec(),
{
}

/// A reference, box, `Rc` or `Arc` counts what it points to, stack and heap,
/// as its heap bytes; it keeps the size model where the pointee does.
pub proof fn lemma_pointer_sizes<T: Size>(r: &T, b: Box<T>, rc: Rc<T>, a: Arc<T>)
    ensures
        <&T as Size>::heap_bytes(&r) == size_of::<T>() + r.heap_bytes(),
        <&T as Size>::obeys_size_spec() == T::obeys_size_spec(),
        <&mut T as Size>::obeys_size_spec() == T::obeys_size_spec(),
        b.heap_bytes() == size_of::<T>() + (*b).heap_bytes(),
        <Box<T> as Size>::obeys_size_spec() == T::obeys_size_spec(),
        rc.heap_bytes() == size_of::<T>() + (*rc).heap_bytes(),
        <Rc<T> as Size>::obeys_size_spec() == T::obeys_size_spec(),
        a.heap_bytes() == size_of::<T>() + (*a).heap_bytes(),
        <Arc<T> as Size>::obeys_size_spec() == T::obeys_size_spec(),
{
}

/// An option counts the heap bytes of its value (its stack size already
/// holds the value's), a result those of its value or error, a borrowed
/// `Cow` the pointee's stack and heap sizes and an owned one its heap bytes.
pub proof fn lemma_sum_type_sizes<T: Size, E: Size>(t: T, e: E)
    ensures
        Some(t).heap_bytes() == t.heap_bytes(),
        None::<T>.heap_bytes() == 0,
        <Option<T> as Size>::obeys_size_spec() == T::obeys_size_spec(),
        Ok::<T, E>(t).heap_bytes() == t.heap_bytes(),
        Err::<T, E>(e).heap_bytes() == e.heap_bytes(),
        <Result<T, E> as Size>::obeys_size_spec() == (T::obeys_size_spec() && E::obeys_size_spec()),
{
}

/// A borrowed `Cow` counts the pointee's stack and heap sizes as its heap
/// bytes, an owned one the heap bytes of what it owns.
pub proof fn lemma_cow_sizes<'a, T>(c: Cow<'a, T>)
    where
        T: ToOwned + Size,
        <T as ToOwned>::Owned: Size,
    ensures
        c matches Cow::Borrowed(b) ==> c.heap_bytes() == size_of::<T>() + b.heap_bytes(),
        c matches Cow::Owned(o) ==> c.heap_bytes() == o.heap_bytes(),
{
}

/// A mutable reference counts what it points to, stack and heap, as its heap
/// bytes.
pub proof fn lemma_mut_reference_sizes<'a, T: Size>(m: &'a mut T)
    ensures
        <&'a mut T as Size>::heap_bytes(&m) == size_of::<T>() + (*old(m)).heap_bytes(),
{
}

/// Every element of a sequence adds its total size to the sum.
pub proof fn lemma_sum_total_bytes_element<T: Size>(s: Seq<T>, i: int)
    requires
        0 <= i < s.len(),
    ensures
        sum_total_bytes(s) >= size_of::<T>() + s[i].heap_bytes(),
{
    lemma_sum_total_bytes_prefix(s, i);
    lemma_sum_total_bytes_prefix(s, i + 1);
}

/// Every element of a sequence adds its heap size to the sum.
pub proof fn lemma_sum_heap_bytes_element<T: Size>(s: Seq<T>, i: int)
    requires
        0 <= i < s.len(),
    ensures
        sum_heap_bytes(s) >= s[i].heap_bytes(),
{
    lemma_sum_heap_bytes_prefix(s, i);
    lemma_sum_heap_bytes_prefix(s, i + 1);
}

/// A vector or a deque counts, as its heap bytes, the stack and heap sizes of
/// all its elements: nothing when empty, each element's at least, exactly
/// the one element's or the two elements' where it has one or two; it keeps
/// the size model where the elements do.
pub proof fn lemma_sequence_sizes<T: Size>(v: Vec<T>, d: VecDeque<T>, i: int)
    ensures
        v@.len() == 0 ==> v.heap_bytes() == 0,
        0 <= i < v@.len() ==> v.heap_bytes() >= size_of::<T>() + v@[i].heap_bytes(),
        v@.len() == 1 ==> v.heap_bytes() == size_of::<T>() + v@[0].heap_bytes(),
        v@.len() == 2 ==> v.heap_bytes() == size_of::<T>() + v@[0].heap_bytes() + size_of::<T>()
            + v@[1].heap_bytes(),
        <Vec<T> as Size>::obeys_size_spec() == T::obeys_size_spec(),
        d@.len() == 0 ==> d.heap_bytes() == 0,
        0 <= i < d@.len() ==> d.heap_bytes() >= size_of::<T>() + d@[i].heap_bytes(),
        d@.len() == 1 ==> d.heap_bytes() == size_of::<T>() + d@[0].heap_bytes(),
        d@.len() == 2 ==> d.heap_bytes() == size_of::<T>() + d@[0].heap_bytes() + size_of::<T>()
            + d@[1].heap_bytes(),
        <VecDeque<T> as Size>::obeys_size_spec() == T::obeys_size_spec(),
{
    if 0 <= i < v@.len() {
        lemma_sum_total_bytes_element(v@, i);
    }
    if 0 <= i < d@.len() {
        lemma_sum_total_bytes_element(d@, i);
    }
    reveal_with_fuel(sum_total_bytes, 3);
}

/// An array counts, as its heap bytes, the heap sizes of its elements (its
/// stack size already holds theirs): nothing when empty, each element's at
/// least, exactly the one element's or the two elements' where it has one or
/// two; it keeps the size model where the elements do.
pub proof fn lemma_array_sizes<T: Size, const N: usize>(a: [T; N], i: int)
    ensures
        a@.len() == 0 ==> a.heap_bytes() == 0,
        0 <= i < a@.len() ==> a.heap_bytes() >= a@[i].heap_bytes(),
        a@.len() == 1 ==> a.heap_bytes() == a@[0].heap_bytes(),
        a@.len() == 2 ==> a.heap_bytes() == a@[0].heap_bytes() + a@[1].heap_bytes(),
        <[T; N] as Size>::obeys_size_spec() == T::obeys_size_spec(),
{
    if 0 <= i < a@.len() {
        lemma_sum_heap_bytes_element(a@, i);
    }
    reveal_with_fuel(sum_heap_bytes, 3);
}

/// A tuple counts the heap bytes of its components (its stack size already
/// holds theirs); it keeps the size model where all its components do.
pub proof fn lemma_tuple1_sizes<A: Size>(t: (A,))
    ensures
        t.heap_bytes() == t.0.heap_bytes(),
        <(A,) as Size>::obeys_size_spec() == (A::obeys_size_spec()),
{
}

/// A tuple counts the heap bytes of its components (its stack size already
/// holds theirs); it keeps the size model where all its components do.
pub proof fn lemma_tuple2_sizes<A: Size, B: Size>(t: (A, B))
    ensures
        t.heap_bytes() == t.0.heap_bytes() + t.1.heap_bytes(),
        <(A, B) as Size>::obeys_size_spec() == (A::obeys_size_spec() && B::obeys_size_spec()),
{
}

/// A tuple counts the heap bytes of its components (its stack size already
/// holds theirs); it keeps the size model where all its components do.
pub proof fn lemma_tuple3_sizes<A: Size, B: Size, C: Size>(t: (A, B, C))
    ensures
        t.heap_bytes() == t.0.heap_bytes() + t.1.heap_bytes() + t.2.heap_bytes(),
        <(A, B, C) as Size>::obeys_size_spec() == (A::obeys_size_spec() && B::obeys_size_spec() && C::obeys_size_spec()),
{
}

/// A tuple counts the heap bytes of its components (its stack size already
/// holds theirs); it keeps the size model where all its components do.
pub proof fn lemma_tuple4_sizes<A: Size, B: Size, C: Size, D: Size>(t: (A, B, C, D))
    ensures
        t.heap_bytes() == t.0.heap_bytes() + t.1.heap_bytes() + t.2.heap_bytes() + t.3.heap_bytes(),
        <(A, B, C, D) as Size>::obeys_size_spec() == (A::obeys_size_spec() && B::obeys_size_spec() && C::obeys_size_spec() && D::obeys_size_spec()),
{
}

/// A tuple counts the heap bytes of its components (its stack size already
/// holds theirs); it keeps the size model where all its components do.
pub proof fn lemma_tuple5_sizes<A: Size, B: Size, C: Size, D: Size, E: Size>(t: (A, B, C, D, E))
    ensures
        t.heap_bytes() == t.0.heap_bytes() + t.1.heap_bytes() + t.2.heap_bytes() + t.3.heap_bytes() + t.4.heap_bytes(),
        <(A, B, C, D, E) as Size>::obeys_size_spec() == (A::obeys_size_spec() && B::obeys_size_spec() && C::obeys_size_spec() && D::obeys_size_spec() && E::obeys_size_spec()),
{
}

/// A tuple counts the heap bytes of its components (its stack size already
/// holds theirs); it keeps the size model where all its components do.
pub proof fn lemma_tuple6_sizes<A: Size, B: Size, C: Size, D: Size, E: Size, F: Size>(t: (A, B, C, D, E, F))
    ensures
        t.heap_bytes() == t.0.heap_bytes() + t.1.heap_bytes() + t.2.heap_bytes() + t.3.heap_bytes() + t.4.heap_bytes() + t.5.heap_bytes(),
        <(A, B, C, D, E, F) as Size>::obeys_size_spec() == (A::obeys_size_spec() && B::obeys_size_spec() && C::obeys_size_spec() && D::obeys_size_spec() && E::obeys_size_spec() && F::obeys_size_spec()),
{
}

/// A tuple counts the heap bytes of its components (its stack size already
/// holds theirs); it keeps the size model where all its components do.
pub proof fn lemma_tuple7_sizes<A: Size, B: Size, C: Size, D: Size, E: Size, F: Size, G: Size>(t: (A, B, C, D, E, F, G))
    ensures
        t.heap_bytes() == t.0.heap_bytes() + t.1.heap_bytes() + t.2.heap_bytes() + t.3.heap_bytes() + t.4.heap_bytes() + t.5.heap_bytes() + t.6.heap_bytes(),
        <(A, B, C, D, E, F, G) as Size>::obeys_size_spec() == (A::obeys_size_spec() && B::obeys_size_spec() && C::obeys_size_spec() && D::obeys_size_spec() && E::obeys_size_spec() && F::obeys_size_spec() && G::obeys_size_spec()),
{
}

/// A tuple counts the heap bytes of its components (its stack size already
/// holds theirs); it keeps the size model where all its components do.
pub proof fn lemma_tuple8_sizes<A: Size, B: Size, C: Size, D: Size, E: Size, F: Size, G: Size, H: Size>(t: (A, B, C, D, E, F, G, H))
    ensures
        t.heap_bytes() == t.0.heap_bytes() + t.1.heap_bytes() + t.2.heap_bytes() + t.3.heap_bytes() + t.4.heap_bytes() + t.5.heap_bytes() + t.6.heap_bytes() + t.7.heap_bytes(),
        <(A, B, C, D, E, F, G, H) as Size>::obeys_size_spec() == (A::obeys_size_spec() && B::obeys_size_spec() && C::obeys_size_spec() && D::obeys_size_spec() && E::obeys_size_spec() && F::obeys_size_spec() && G::obeys_size_spec() && H::obeys_size_spec()),
{
}

/// A tuple counts the heap bytes of its components (its stack size already
/// holds theirs); it keeps the size model where all its components do.
pub proof fn lemma_tuple9_sizes<A: Size, B: Size, C: Size, D: Size, E: Size, F: Size, G: Size, H: Size, I: Size>(t: (A, B, C, D, E, F, G, H, I))
    ensures
        t.heap_bytes() == t.0.heap_bytes() + t.1.heap_bytes() + t.2.heap_bytes() + t.3.heap_bytes() + t.4.heap_bytes() + t.5.heap_bytes() + t.6.heap_bytes() + t.7.heap_bytes() + t.8.heap_bytes(),
        <(A, B, C, D, E, F, G, H, I) as Size>::obeys_size_spec() == (A::obeys_size_spec() && B::obeys_size_spec() && C::obeys_size_spec() && D::obeys_size_spec() && E::obeys_size_spec() && F::obeys_size_spec() && G::obeys_size_spec() && H::obeys_size_spec() && I::obeys_size_spec()),
{
}

/// A tuple counts the heap bytes of its components (its stack size already
/// holds theirs); it keeps the size model where all its components do.
pub proof fn lemma_tuple10_sizes<A: Size, B: Size, C: Size, D: Size, E: Size, F: Size, G: Size, H: Size, I: Size, J: Size>(t: (A, B, C, D, E, F, G, H, I, J))
    ensures
        t.heap_bytes() == t.0.heap_bytes() + t.1.heap_bytes() + t.2.heap_bytes() + t.3.heap_bytes() + t.4.heap_bytes() + t.5.heap_bytes() + t.6.heap_bytes() + t.7.heap_bytes() + t.8.heap_bytes() + t.9.heap_bytes(),
        <(A, B, C, D, E, F, G, H, I, J) as Size>::obeys_size_spec() == (A::obeys_size_spec() && B::obeys_size_spec() && C::obeys_size_spec() && D::obeys_size_spec() && E::obeys_size_spec() && F::obeys_size_spec() && G::obeys_size_spec() && H::obeys_size_spec() && I::obeys_size_spec() && J::obeys_size_spec()),
{
}

/// A tuple counts the heap bytes of its components (its stack size already
/// holds theirs); it keeps the size model where all its components do.
pub proof fn lemma_tuple11_sizes<A: Size, B: Size, C: Size, D: Size, E: Size, F: Size, G: Size, H: Size, I: Size, J: Size, K: Size>(t: (A, B, C, D, E, F, G, H, I, J, K))
    ensures
        t.heap_bytes() == t.0.heap_bytes() + t.1.heap_bytes() + t.2.heap_bytes() + t.3.heap_bytes() + t.4.heap_bytes() + t.5.heap_bytes() + t.6.heap_bytes() + t.7.heap_bytes() + t.8.heap_bytes() + t.9.heap_bytes() + t.10.heap_bytes(),
        <(A, B, C, D, E, F, G, H, I, J, K) as Size>::obeys_size_spec() == (A::obeys_size_spec() && B::obeys_size_spec() && C::obeys_size_spec() && D::obeys_size_spec() && E::obeys_size_spec() && F::obeys_size_spec() && G::obeys_size_spec() && H::obeys_size_spec() && I::obeys_size_spec() && J::obeys_size_spec() && K::obeys_size_spec()),
{
}

/// A tuple counts the heap bytes of its components (its stack size already
/// holds theirs); it keeps the size model where all its components do.
pub proof fn lemma_tuple12_sizes<A: Size, B: Size, C: Size, D: Size, E: Size, F: Size, G: Size, H: Size, I: Size, J: Size, K: Size, L: Size>(t: (A, B, C, D, E, F, G, H, I, J, K, L))
    ensures
        t.heap_bytes() == t.0.heap_bytes() + t.1.heap_bytes() + t.2.heap_bytes() + t.3.heap_bytes() + t.4.heap_bytes() + t.5.heap_bytes() + t.6.heap_bytes() + t.7.heap_bytes() + t.8.heap_bytes() + t.9.heap_bytes() + t.10.heap_bytes() + t.11.heap_bytes(),
        <(A, B, C, D, E, F, G, H, I, J, K, L) as Size>::obeys_size_spec() == (A::obeys_size_spec() && B::obeys_size_spec() && C::obeys_size_spec() && D::obeys_size_spec() && E::obeys_size_spec() && F::obeys_size_spec() && G::obeys_size_spec() && H::obeys_size_spec() && I::obeys_size_spec() && J::obeys_size_spec() && K::obeys_size_spec() && L::obeys_size_spec()),
{
}

/// A tuple counts the heap bytes of its components (its stack size already
/// holds theirs); it keeps the size model where all its components do.
pub proof fn lemma_tuple13_sizes<A: Size, B: Size, C: Size, D: Size, E: Size, F: Size, G: Size, H: Size, I: Size, J: Size, K: Size, L: Size, M: Size>(t: (A, B, C, D, E, F, G, H, I, J, K, L, M))
    ensures
        t.heap_bytes() == t.0.heap_bytes() + t.1.heap_bytes() + t.2.heap_bytes() + t.3.heap_bytes() + t.4.heap_bytes() + t.5.heap_bytes() + t.6.heap_bytes() + t.7.heap_bytes() + t.8.heap_bytes() + t.9.heap_bytes() + t.10.heap_bytes() + t.11.heap_bytes() + t.12.heap_bytes(),
        <(A, B, C, D, E, F, G, H, I, J, K, L, M) as Size>::obeys_size_spec() == (A::obeys_size_spec() && B::obeys_size_spec() && C::obeys_size_spec() && D::obeys_size_spec() && E::obeys_size_spec() && F::obeys_size_spec() && G::obeys_size_spec() && H::obeys_size_spec() && I::obeys_size_spec() && J::obeys_size_spec() && K::obeys_size_spec() && L::obeys_size_spec() && M::obeys_size_spec()),
{
}

/// A tuple counts the heap bytes of its components (its stack size already
/// holds theirs); it keeps the size model where all its components do.
pub proof fn lemma_tuple14_sizes<A: Size, B: Size, C: Size, D: Size, E: Size, F: Size, G: Size, H: Size, I: Size, J: Size, K: Size, L: Size, M: Size, N: Size>(t: (A, B, C, D, E, F, G, H, I, J, K, L, M, N))
    ensures
        t.heap_bytes() == t.0.heap_bytes() + t.1.heap_bytes() + t.2.heap_bytes() + t.3.heap_bytes() + t.4.heap_bytes() + t.5.heap_bytes() + t.6.heap_bytes() + t.7.heap_bytes() + t.8.heap_bytes() + t.9.heap_bytes() + t.10.heap_bytes() + t.11.heap_bytes() + t.12.heap_bytes() + t.13.heap_bytes(),
        <(A, B, C, D, E, F, G, H, I, J, K, L, M, N) as Size>::obeys_size_spec() == (A::obeys_size_spec() && B::obeys_size_spec() && C::obeys_size_spec() && D::obeys_size_spec() && E::obeys_size_spec() && F::obeys_size_spec() && G::obeys_size_spec() && H::obeys_size_spec() && I::obeys_size_spec() && J::obeys_size_spec() && K::obeys_size_spec() && L::obeys_size_spec() && M::obeys_size_spec() && N::obeys_size_spec()),
{
}

/// A tuple counts the heap bytes of its components (its stack size already
/// holds theirs); it keeps the size model where all its components do.
pub proof fn lemma_tuple15_sizes<A: Size, B: Size, C: Size, D: Size, E: Size, F: Size, G: Size, H: Size, I: Size, J: Size, K: Size, L: Size, M: Size, N: Size, O: Size>(t: (A, B, C, D, E, F, G, H, I, J, K, L, M, N, O))
    ensures
        t.heap_bytes() == t.0.heap_bytes() + t.1.heap_bytes() + t.2.heap_bytes() + t.3.heap_bytes() + t.4.heap_bytes() + t.5.heap_bytes() + t.6.heap_bytes() + t.7.heap_bytes() + t.8.heap_bytes() + t.9.heap_bytes() + t.10.heap_bytes() + t.11.heap_bytes() + t.12.heap_bytes() + t.13.heap_bytes() + t.14.heap_bytes(),
        <(A, B, C, D, E, F, G, H, I, J, K, L, M, N, O) as Size>::obeys_size_spec() == (A::obeys_size_spec() && B::obeys_size_spec() && C::obeys_size_spec() && D::obeys_size_spec() && E::obeys_size_spec() && F::obeys_size_spec() && G::obeys_size_spec() && H::obeys_size_spec() && I::obeys_size_spec() && J::obeys_size_spec() && K::obeys_size_spec() && L::obeys_size_spec() && M::obeys_size_spec() && N::obeys_size_spec() && O::obeys_size_spec()),
{
}

/// A tuple counts the heap bytes of its components (its stack size already
/// holds theirs); it keeps the size model where all its components do.
pub proof fn lemma_tuple16_sizes<A: Size, B: Size, C: Size, D: Size, E: Size, F: Size, G: Size, H: Size, I: Size, J: Size, K: Size, L: Size, M: Size, N: Size, O: Size, P: Size>(t: (A, B, C, D, E, F, G, H, I, J, K, L, M, N, O, P))
    ensures
        t.heap_bytes() == t.0.heap_bytes() + t.1.heap_bytes() + t.2.heap_bytes() + t.3.heap_bytes() + t.4.heap_bytes() + t.5.heap_bytes() + t.6.heap_bytes() + t.7.heap_bytes() + t.8.heap_bytes() + t.9.heap_bytes() + t.10.heap_bytes() + t.11.heap_bytes() + t.12.heap_bytes() + t.13.heap_bytes() + t.14.heap_bytes() + t.15.heap_bytes(),
        <(A, B, C, D, E, F, G, H, I, J, K, L, M, N, O, P) as Size>::obeys_size_spec() == (A::obeys_size_spec() && B::obeys_size_spec() && C::obeys_size_spec() && D::obeys_size_spec() && E::obeys_size_spec() && F::obeys_size_spec() && G::obeys_size_spec() && H::obeys_size_spec() && I::obeys_size_spec() && J::obeys_size_spec() && K::obeys_size_spec() && L::obeys_size_spec() && M::obeys_size_spec() && N::obeys_size_spec() && O::obeys_size_spec() && P::obeys_size_spec()),
{
}

/// The std type `PhantomPinned`, carried as an opaque value.
#[verifier::external_type_specification]
#[verifier::external_body]
pub struct ExPhantomPinned(PhantomPinned);

impl Size for () {
    open spec fn obeys_size_spec() -> bool {
        true
    }

    open spec fn heap_bytes(&self) -> nat {
        0
    }

    fn get_heap_size(&self) -> (r: usize) {
        0
    }
}

impl Size for bool {
    open spec fn obeys_size_spec() -> bool {
        true
    }

    open spec fn heap_bytes(&self) -> nat {
        0
    }

    fn get_heap_size(&self) -> (r: usize) {
        0
    }
}

impl Size for char {
    open spec fn obeys_size_spec() -> bool {
        true
    }

    open spec fn heap_bytes(&self) -> nat {
        0
    }

    fn get_heap_size(&self) -> (r: usize) {
        0
    }
}

impl Size for u8 {
    open spec fn obeys_size_spec() -> bool {
        true
    }

    open spec fn heap_bytes(&self) -> nat {
        0
    }

    fn get_heap_size(&self) -> (r: usize) {
        0
    }
}

impl Size for u16 {
    open spec fn obeys_size_spec() -> bool {
        true
    }

    open spec fn heap_bytes(&self) -> nat {
        0
    }

    fn get_heap_size(&self) -> (r: usize) {
        0
    }
}

impl Size for u32 {
    open spec fn obeys_size_spec() -> bool {
        true
    }

    open spec fn heap_bytes(&self) -> nat {
        0
    }

    fn get_heap_size(&self) -> (r: usize) {
        0
    }
}

impl Size for u64 {
    open spec fn obeys_size_spec() -> bool {
        true
    }

    open spec fn heap_bytes(&self) -> nat {
        0
    }

    fn get_heap_size(&self) -> (r: usize) {
        0
    }
}

impl Size for u128 {
    open spec fn obeys_size_spec() -> bool {
        true
    }

    open spec fn heap_bytes(&self) -> nat {
        0
    }

    fn get_heap_size(&self) -> (r: usize) {
        0
    }
}

impl Size for usize {
    open spec fn obeys_size_spec() -> bool {
        true
    }

    open spec fn heap_bytes(&self) -> nat {
        0
    }

    fn get_heap_size(&self) -> (r: usize) {
        0
    }
}

impl Size for i8 {
    open spec fn obeys_size_spec() -> bool {
        true
    }

    open spec fn heap_bytes(&self) -> nat {
        0
    }

    fn get_heap_size(&self) -> (r: usize) {
        0
    }
}

impl Size for i16 {
    open spec fn obeys_size_spec() -> bool {
        true
    }

    open spec fn heap_bytes(&self) -> nat {
        0
    }

    fn get_heap_size(&self) -> (r: usize) {
        0
    }
}

impl Size for i32 {
    open spec fn obeys_size_spec() -> bool {
        true
    }

    open spec fn heap_bytes(&self) -> nat {
        0
    }

    fn get_heap_size(&self) -> (r: usize) {
        0
    }
}

impl Size for i64 {
    open spec fn obeys_size_spec() -> bool {
        true
    }

    open spec fn heap_bytes(&self) -> nat {
        0
    }

    fn get_heap_size(&self) -> (r: usize) {
        0
    }
}

impl Size for i128 {
    open spec fn obeys_size_spec() -> bool {
        true
    }

    open spec fn heap_bytes(&self) -> nat {
        0
    }

    fn get_heap_size(&self) -> (r: usize) {
        0
    }
}

impl Size for isize {
    open spec fn obeys_size_spec() -> bool {
        true
    }

    open spec fn heap_bytes(&self) -> nat {
        0
    }

    fn get_heap_size(&self) -> (r: usize) {
        0
    }
}

impl Size for Infallible {
    open spec fn obeys_size_spec() -> bool {
        true
    }

    open spec fn heap_bytes(&self) -> nat {
        0
    }

    fn get_heap_size(&self) -> (r: usize) {
        0
    }
}

impl Size for PhantomPinned {
    open spec fn obeys_size_spec() -> bool {
        true
    }

    open spec fn heap_bytes(&self) -> nat {
        0
    }

    fn get_heap_size(&self) -> (r: usize) {
        0
    }
}

impl<T> Size for PhantomData<T> {
    open spec fn obeys_size_spec() -> bool {
        true
    }

    open spec fn heap_bytes(&self) -> nat {
        0
    }

    fn get_heap_size(&self) -> (r: usize) {
        0
    }
}

/// The elements are assumed to be held inside the heap.
impl<T: Size> Size for Vec<T> {
    open spec fn obeys_size_spec() -> bool {
        T::obeys_size_spec()
    }

    open spec fn heap_bytes(&self) -> nat {
        sum_total_bytes(self@)
    }

    fn get_heap_size(&self) -> (r: usize) {
        let mut total: usize = 0;
        let mut i: usize = 0;
        while i < self.len()
            invariant
                i <= self@.len(),
                T::obeys_size_spec() && sum_total_bytes(self@) <= usize::MAX ==> total as nat
                    == sum_total_bytes(self@.take(i as int)),
            decreases self@.len() - i,
        {
            proof {
                lemma_sum_total_bytes_prefix(self@, i as int);
                lemma_sum_total_bytes_prefix(self@, i as int + 1);
            }
            total = total.wrapping_add(self[i].get_size());
            i = i + 1;
        }
        proof {
            assert(self@.take(i as int) =~= self@);
        }
        total
    }
}

/// The elements are assumed to be held inside the heap.
impl<T: Size> Size for VecDeque<T> {
    open spec fn obeys_size_spec() -> bool {
        T::obeys_size_spec()
    }

    open spec fn heap_bytes(&self) -> nat {
        sum_total_bytes(self@)
    }

    fn get_heap_size(&self) -> (r: usize) {
        let mut total: usize = 0;
        let mut i: usize = 0;
        while i < self.len()
            invariant
                i <= self@.len(),
                T::obeys_size_spec() && sum_total_bytes(self@) <= usize::MAX ==> total as nat
                    == sum_total_bytes(self@.take(i as int)),
            decreases self@.len() - i,
        {
            proof {
                lemma_sum_total_bytes_prefix(self@, i as int);
                lemma_sum_total_bytes_prefix(self@, i as int + 1);
            }
            total = total.wrapping_add(self[i].get_size());
            i = i + 1;
        }
        proof {
            assert(self@.take(i as int) =~= self@);
        }
        total
    }
}

/// The stack size of an array already accounts for the stack size of its
/// elements, so only their heap sizes are added.
impl<T: Size, const N: usize> Size for [T; N] {
    open spec fn obeys_size_spec() -> bool {
        T::obeys_size_spec()
    }

    open spec fn heap_bytes(&self) -> nat {
        sum_heap_bytes(self@)
    }

    fn get_heap_size(&self) -> (r: usize) {
        let mut total: usize = 0;
        let mut i: usize = 0;
        while i < N
            invariant
                i <= N,
                self@.len() == N,
                T::obeys_size_spec() && sum_heap_bytes(self@) <= usize::MAX ==> total as nat
                    == sum_heap_bytes(self@.take(i as int)),
            decreases N - i,
        {
            proof {
                lemma_sum_heap_bytes_prefix(self@, i as int);
                lemma_sum_heap_bytes_prefix(self@, i as int + 1);
            }
            total = total.wrapping_add(self[i].get_heap_size());
            i = i + 1;
        }
        proof {
            assert(self@.take(i as int) =~= self@);
        }
        total
    }
}

/// Treats the pointed to data as being allocated on the heap.
impl<'a, T: Size> Size for &'a T {
    open spec fn obeys_size_spec() -> bool {
        T::obeys_size_spec()
    }

    open spec fn heap_bytes(&self) -> nat {
        total_bytes(*self)
    }

    fn get_heap_size(&self) -> (r: usize) {
        (**self).get_size()
    }
}

/// Treats the pointed to data as being allocated on the heap.
impl<'a, T: Size> Size for &'a mut T {
    open spec fn obeys_size_spec() -> bool {
        T::obeys_size_spec()
    }

    open spec fn heap_bytes(&self) -> nat {
        total_bytes(&**self)
    }

    fn get_heap_size(&self) -> (r: usize) {
        (**self).get_size()
    }
}

/// Treats the pointed to data as being allocated on the heap.
impl<T: Size> Size for Box<T> {
    open spec fn obeys_size_spec() -> bool {
        T::obeys_size_spec()
    }

    open spec fn heap_bytes(&self) -> nat {
        total_bytes(&**self)
    }

    fn get_heap_size(&self) -> (r: usize) {
        (**self).get_size()
    }
}

/// Treats the pointed to data as being allocated on the heap.
impl<T: Size> Size for Rc<T> {
    open spec fn obeys_size_spec() -> bool {
        T::obeys_size_spec()
    }

    open spec fn heap_bytes(&self) -> nat {
        total_bytes(&**self)
    }

    fn get_heap_size(&self) -> (r: usize) {
        (**self).get_size()
    }
}

/// Treats the pointed to data as being allocated on the heap.
impl<T: Size> Size for Arc<T> {
    open spec fn obeys_size_spec() -> bool {
        T::obeys_size_spec()
    }

    open spec fn heap_bytes(&self) -> nat {
        total_bytes(&**self)
    }

    fn get_heap_size(&self) -> (r: usize) {
        (**self).get_size()
    }
}

/// The stack size of the option already accounts for the stack size of the
/// value.
impl<T: Size> Size for Option<T> {
    open spec fn obeys_size_spec() -> bool {
        T::obeys_size_spec()
    }

    open spec fn heap_bytes(&self) -> nat {
        match self {
            Some(t) => t.heap_bytes(),
            None => 0,
        }
    }

    fn get_heap_size(&self) -> (r: usize) {
        match self {
            Some(t) => t.get_heap_size(),
            None => 0,
        }
    }
}

/// The stack size of the result already accounts for the stack size of the
/// value.
impl<T: Size, E: Size> Size for Result<T, E> {
    open spec fn obeys_size_spec() -> bool {
        T::obeys_size_spec() && E::obeys_size_spec()
    }

    open spec fn heap_bytes(&self) -> nat {
        match self {
            Ok(t) => t.heap_bytes(),
            Err(e) => e.heap_bytes(),
        }
    }

    fn get_heap_size(&self) -> (r: usize) {
        match self {
            Ok(t) => t.get_heap_size(),
            Err(e) => e.get_heap_size(),
        }
    }
}

/// A borrowed value counts as a reference to it (its stack and heap sizes),
/// an owned one by its heap size.
impl<'a, T> Size for Cow<'a, T> where T: ToOwned + Size, <T as ToOwned>::Owned: Size {
    open spec fn obeys_size_spec() -> bool {
        T::obeys_size_spec() && <T as ToOwned>::Owned::obeys_size_spec()
    }

    open spec fn heap_bytes(&self) -> nat {
        match self {
            Cow::Borrowed(borrowed) => total_bytes(*borrowed),
            Cow::Owned(owned) => owned.heap_bytes(),
        }
    }

    fn get_heap_size(&self) -> (r: usize) {
        match self {
            Cow::Borrowed(borrowed) => (**borrowed).get_size(),
            Cow::Owned(owned) => owned.get_heap_size(),
        }
    }
}

impl<A: Size> Size for (A,) {
    open spec fn obeys_size_spec() -> bool {
        A::obeys_size_spec()
    }

    open spec fn heap_bytes(&self) -> nat {
        self.0.heap_bytes()
    }

    fn get_heap_size(&self) -> (r: usize) {
        let h0 = self.0.get_heap_size();
        h0
    }
}

impl<A: Size, B: Size> Size for (A, B) {
    open spec fn obeys_size_spec() -> bool {
        A::obeys_size_spec() && B::obeys_size_spec()
    }

    open spec fn heap_bytes(&self) -> nat {
        self.0.heap_bytes() + self.1.heap_bytes()
    }

    fn get_heap_size(&self) -> (r: usize) {
        let mut total = self.0.get_heap_size();
        total = total.wrapping_add(self.1.get_heap_size());
        assert(Self::obeys_size_spec() && self.heap_bytes() <= usize::MAX ==> total as nat
            == self.0.heap_bytes() + self.1.heap_bytes());
        total
    }
}

impl<A: Size, B: Size, C: Size> Size for (A, B, C) {
    open spec fn obeys_size_spec() -> bool {
        A::obeys_size_spec() && B::obeys_size_spec() && C::obeys_size_spec()
    }

    open spec fn heap_bytes(&self) -> nat {
        self.0.heap_bytes() + self.1.heap_bytes() + self.2.heap_bytes()
    }

    fn get_heap_size(&self) -> (r: usize) {
        let mut total = self.0.get_heap_size();
        total = total.wrapping_add(self.1.get_heap_size());
        assert(Self::obeys_size_spec() && self.heap_bytes() <= usize::MAX ==> total as nat
            == self.0.heap_bytes() + self.1.heap_bytes());
        total = total.wrapping_add(self.2.get_heap_size());
        assert(Self::obeys_size_spec() && self.heap_bytes() <= usize::MAX ==> total as nat
            == self.0.heap_bytes() + self.1.heap_bytes() + self.2.heap_bytes());
        total
    }
}

impl<A: Size, B: Size, C: Size, D: Size> Size for (A, B, C, D) {
    open spec fn obeys_size_spec() -> bool {
        A::obeys_size_spec() && B::obeys_size_spec() && C::obeys_size_spec() && D::obeys_size_spec()
    }

    open spec fn heap_bytes(&self) -> nat {
        self.0.heap_bytes() + self.1.heap_bytes() + self.2.heap_bytes() + self.3.heap_bytes()
    }

    fn get_heap_size(&self) -> (r: usize) {
        let mut total = self.0.get_heap_size();
        total = total.wrapping_add(self.1.get_heap_size());
        assert(Self::obeys_size_spec() && self.heap_bytes() <= usize::MAX ==> total as nat
            == self.0.heap_bytes() + self.1.heap_bytes());
        total = total.wrapping_add(self.2.get_heap_size());
        assert(Self::obeys_size_spec() && self.heap_bytes() <= usize::MAX ==> total as nat
            == self.0.heap_bytes() + self.1.heap_bytes() + self.2.heap_bytes());
        total = total.wrapping_add(self.3.get_heap_size());
        assert(Self::obeys_size_spec() && self.heap_bytes() <= usize::MAX ==> total as nat
            == self.0.heap_bytes() + self.1.heap_bytes() + self.2.heap_bytes() + self.3.heap_bytes());
        total
    }
}

impl<A: Size, B: Size, C: Size, D: Size, E: Size> Size for (A, B, C, D, E) {
    open spec fn obeys_size_spec() -> bool {
        A::obeys_size_spec() && B::obeys_size_spec() && C::obeys_size_spec() && D::obeys_size_spec() && E::obeys_size_spec()
    }

    open spec fn heap_bytes(&self) -> nat {
        self.0.heap_bytes() + self.1.heap_bytes() + self.2.heap_bytes() + self.3.heap_bytes() + self.4.heap_bytes()
    }

    fn get_heap_size(&self) -> (r: usize) {
        let mut total = self.0.get_heap_size();
        total = total.wrapping_add(self.1.get_heap_size());
        assert(Self::obeys_size_spec() && self.heap_bytes() <= usize::MAX ==> total as nat
            == self.0.heap_bytes() + self.1.heap_bytes());
        total = total.wrapping_add(self.2.get_heap_size());
        assert(Self::obeys_size_spec() && self.heap_bytes() <= usize::MAX ==> total as nat
            == self.0.heap_bytes() + self.1.heap_bytes() + self.2.heap_bytes());
        total = total.wrapping_add(self.3.get_heap_size());
        assert(Self::obeys_size_spec() && self.heap_bytes() <= usize::MAX ==> total as nat
            == self.0.heap_bytes() + self.1.heap_bytes() + self.2.heap_bytes() + self.3.heap_bytes());
        total = total.wrapping_add(self.4.get_heap_size());
        assert(Self::obeys_size_spec() && self.heap_bytes() <= usize::MAX ==> total as nat
            == self.0.heap_bytes() + self.1.heap_bytes() + self.2.heap_bytes() + self.3.heap_bytes() + self.4.heap_bytes());
        total
    }
}

impl<A: Size, B: Size, C: Size, D: Size, E: Size, F: Size> Size for (A, B, C, D, E, F) {
    open spec fn obeys_size_spec() -> bool {
        A::obeys_size_spec() && B::obeys_size_spec() && C::obeys_size_spec() && D::obeys_size_spec() && E::obeys_size_spec() && F::obeys_size_spec()
    }

    open spec fn heap_bytes(&self) -> nat {
        self.0.heap_bytes() + self.1.heap_bytes() + self.2.heap_bytes() + self.3.heap_bytes() + self.4.heap_bytes() + self.5.heap_bytes()
    }

    fn get_heap_size(&self) -> (r: usize) {
        let mut total = self.0.get_heap_size();
        total = total.wrapping_add(self.1.get_heap_size());
        assert(Self::obeys_size_spec() && self.heap_bytes() <= usize::MAX ==> total as nat
            == self.0.heap_bytes() + self.1.heap_bytes());
        total = total.wrapping_add(self.2.get_heap_size());
        assert(Self::obeys_size_spec() && self.heap_bytes() <= usize::MAX ==> total as nat
            == self.0.heap_bytes() + self.1.heap_bytes() + self.2.heap_bytes());
        total = total.wrapping_add(self.3.get_heap_size());
        assert(Self::obeys_size_spec() && self.heap_bytes() <= usize::MAX ==> total as nat
            == self.0.heap_bytes() + self.1.heap_bytes() + self.2.heap_bytes() + self.3.heap_bytes());
        total = total.wrapping_add(self.4.get_heap_size());
        assert(Self::obeys_size_spec() && self.heap_bytes() <= usize::MAX ==> total as nat
            == self.0.heap_bytes() + self.1.heap_bytes() + self.2.heap_bytes() + self.3.heap_bytes() + self.4.heap_bytes());
        total = total.wrapping_add(self.5.get_heap_size());
        assert(Self::obeys_size_spec() && self.heap_bytes() <= usize::MAX ==> total as nat
            == self.0.heap_bytes() + self.1.heap_bytes() + self.2.heap_bytes() + self.3.heap_bytes() + self.4.heap_bytes() + self.5.heap_bytes());
        total
    }
}

impl<A: Size, B: Size, C: Size, D: Size, E: Size, F: Size, G: Size> Size for (A, B, C, D, E, F, G) {
    open spec fn obeys_size_spec() -> bool {
        A::obeys_size_spec() && B::obeys_size_spec() && C::obeys_size_spec() && D::obeys_size_spec() && E::obeys_size_spec() && F::obeys_size_spec() && G::obeys_size_spec()
    }

    open spec fn heap_bytes(&self) -> nat {
        self.0.heap_bytes() + self.1.heap_bytes() + self.2.heap_bytes() + self.3.heap_bytes() + self.4.heap_bytes() + self.5.heap_bytes() + self.6.heap_bytes()
    }

    fn get_heap_size(&self) -> (r: usize) {
        let mut total = self.0.get_heap_size();
        total = total.wrapping_add(self.1.get_heap_size());
        assert(Self::obeys_size_spec() && self.heap_bytes() <= usize::MAX ==> total as nat
            == self.0.heap_bytes() + self.1.heap_bytes());
        total = total.wrapping_add(self.2.get_heap_size());
        assert(Self::obeys_size_spec() && self.heap_bytes() <= usize::MAX ==> total as nat
            == self.0.heap_bytes() + self.1.heap_bytes() + self.2.heap_bytes());
        total = total.wrapping_add(self.3.get_heap_size());
        assert(Self::obeys_size_spec() && self.heap_bytes() <= usize::MAX ==> total as nat
            == self.0.heap_bytes() + self.1.heap_bytes() + self.2.heap_bytes() + self.3.heap_bytes());
        total = total.wrapping_add(self.4.get_heap_size());
        assert(Self::obeys_size_spec() && self.heap_bytes() <= usize::MAX ==> total as nat
            == self.0.heap_bytes() + self.1.heap_bytes() + self.2.heap_bytes() + self.3.heap_bytes() + self.4.heap_bytes());
        total = total.wrapping_add(self.5.get_heap_size());
        assert(Self::obeys_size_spec() && self.heap_bytes() <= usize::MAX ==> total as nat
            == self.0.heap_bytes() + self.1.heap_bytes() + self.2.heap_bytes() + self.3.heap_bytes() + self.4.heap_bytes() + self.5.heap_bytes());
        total = total.wrapping_add(self.6.get_heap_size());
        assert(Self::obeys_size_spec() && self.heap_bytes() <= usize::MAX ==> total as nat
            == self.0.heap_bytes() + self.1.heap_bytes() + self.2.heap_bytes() + self.3.heap_bytes() + self.4.heap_bytes() + self.5.heap_bytes() + self.6.heap_bytes());
        total
    }
}

impl<A: Size, B: Size, C: Size, D: Size, E: Size, F: Size, G: Size, H: Size> Size for (A, B, C, D, E, F, G, H) {
    open spec fn obeys_size_spec() -> bool {
        A::obeys_size_spec() && B::obeys_size_spec() && C::obeys_size_spec() && D::obeys_size_spec() && E::obeys_size_spec() && F::obeys_size_spec() && G::obeys_size_spec() && H::obeys_size_spec()
    }

    open spec fn heap_bytes(&self) -> nat {
        self.0.heap_bytes() + self.1.heap_bytes() + self.2.heap_bytes() + self.3.heap_bytes() + self.4.heap_bytes() + self.5.heap_bytes() + self.6.heap_bytes() + self.7.heap_bytes()
    }

    fn get_heap_size(&self) -> (r: usize) {
        let mut total = self.0.get_heap_size();
        total = total.wrapping_add(self.1.get_heap_size());
        assert(Self::obeys_size_spec() && self.heap_bytes() <= usize::MAX ==> total as nat
            == self.0.heap_bytes() + self.1.heap_bytes());
        total = total.wrapping_add(self.2.get_heap_size());
        assert(Self::obeys_size_spec() && self.heap_bytes() <= usize::MAX ==> total as nat
            == self.0.heap_bytes() + self.1.heap_bytes() + self.2.heap_bytes());
        total = total.wrapping_add(self.3.get_heap_size());
        assert(Self::obeys_size_spec() && self.heap_bytes() <= usize::MAX ==> total as nat
            == self.0.heap_bytes() + self.1.heap_bytes() + self.2.heap_bytes() + self.3.heap_bytes());
        total = total.wrapping_add(self.4.get_heap_size());
        assert(Self::obeys_size_spec() && self.heap_bytes() <= usize::MAX ==> total as nat
            == self.0.heap_bytes() + self.1.heap_bytes() + self.2.heap_bytes() + self.3.heap_bytes() + self.4.heap_bytes());
        total = total.wrapping_add(self.5.get_heap_size());
        assert(Self::obeys_size_spec() && self.heap_bytes() <= usize::MAX ==> total as nat
            == self.0.heap_bytes() + self.1.heap_bytes() + self.2.heap_bytes() + self.3.heap_bytes() + self.4.heap_bytes() + self.5.heap_bytes());
        total = total.wrapping_add(self.6.get_heap_size());
        assert(Self::obeys_size_spec() && self.heap_bytes() <= usize::MAX ==> total as nat
            == self.0.heap_bytes() + self.1.heap_bytes() + self.2.heap_bytes() + self.3.heap_bytes() + self.4.heap_bytes() + self.5.heap_bytes() + self.6.heap_bytes());
        total = total.wrapping_add(self.7.get_heap_size());
        assert(Self::obeys_size_spec() && self.heap_bytes() <= usize::MAX ==> total as nat
            == self.0.heap_bytes() + self.1.heap_bytes() + self.2.heap_bytes() + self.3.heap_bytes() + self.4.heap_bytes() + self.5.heap_bytes() + self.6.heap_bytes() + self.7.heap_bytes());
        total
    }
}

impl<A: Size, B: Size, C: Size, D: Size, E: Size, F: Size, G: Size, H: Size, I: Size> Size for (A, B, C, D, E, F, G, H, I) {
    open spec fn obeys_size_spec() -> bool {
        A::obeys_size_spec() && B::obeys_size_spec() && C::obeys_size_spec() && D::obeys_size_spec() && E::obeys_size_spec() && F::obeys_size_spec() && G::obeys_size_spec() && H::obeys_size_spec() && I::obeys_size_spec()
    }

    open spec fn heap_bytes(&self) -> nat {
        self.0.heap_bytes() + self.1.heap_bytes() + self.2.heap_bytes() + self.3.heap_bytes() + self.4.heap_bytes() + self.5.heap_bytes() + self.6.heap_bytes() + self.7.heap_bytes() + self.8.heap_bytes()
    }

    fn get_heap_size(&self) -> (r: usize) {
        let mut total = self.0.get_heap_size();
        total = total.wrapping_add(self.1.get_heap_size());
        assert(Self::obeys_size_spec() && self.heap_bytes() <= usize::MAX ==> total as nat
            == self.0.heap_bytes() + self.1.heap_bytes());
        total = total.wrapping_add(self.2.get_heap_size());
        assert(Self::obeys_size_spec() && self.heap_bytes() <= usize::MAX ==> total as nat
            == self.0.heap_bytes() + self.1.heap_bytes() + self.2.heap_bytes());
        total = total.wrapping_add(self.3.get_heap_size());
        assert(Self::obeys_size_spec() && self.heap_bytes() <= usize::MAX ==> total as nat
            == self.0.heap_bytes() + self.1.heap_bytes() + self.2.heap_bytes() + self.3.heap_bytes());
        total = total.wrapping_add(self.4.get_heap_size());
        assert(Self::obeys_size_spec() && self.heap_bytes() <= usize::MAX ==> total as nat
            == self.0.heap_bytes() + self.1.heap_bytes() + self.2.heap_bytes() + self.3.heap_bytes() + self.4.heap_bytes());
        total = total.wrapping_add(self.5.get_heap_size());
        assert(Self::obeys_size_spec() && self.heap_bytes() <= usize::MAX ==> total as nat
            == self.0.heap_bytes() + self.1.heap_bytes() + self.2.heap_bytes() + self.3.heap_bytes() + self.4.heap_bytes() + self.5.heap_bytes());
        total = total.wrapping_add(self.6.get_heap_size());
        assert(Self::obeys_size_spec() && self.heap_bytes() <= usize::MAX ==> total as nat
            == self.0.heap_bytes() + self.1.heap_bytes() + self.2.heap_bytes() + self.3.heap_bytes() + self.4.heap_bytes() + self.5.heap_bytes() + self.6.heap_bytes());
        total = total.wrapping_add(self.7.get_heap_size());
        assert(Self::obeys_size_spec() && self.heap_bytes() <= usize::MAX ==> total as nat
            == self.0.heap_bytes() + self.1.heap_bytes() + self.2.heap_bytes() + self.3.heap_bytes() + self.4.heap_bytes() + self.5.heap_bytes() + self.6.heap_bytes() + self.7.heap_bytes());
        total = total.wrapping_add(self.8.get_heap_size());
        assert(Self::obeys_size_spec() && self.heap_bytes() <= usize::MAX ==> total as nat
            == self.0.heap_bytes() + self.1.heap_bytes() + self.2.heap_bytes() + self.3.heap_bytes() + self.4.heap_bytes() + self.5.heap_bytes() + self.6.heap_bytes() + self.7.heap_bytes() + self.8.heap_bytes());
        total
    }
}

impl<A: Size, B: Size, C: Size, D: Size, E: Size, F: Size, G: Size, H: Size, I: Size, J: Size> Size for (A, B, C, D, E, F, G, H, I, J) {
    open spec fn obeys_size_spec() -> bool {
        A::obeys_size_spec() && B::obeys_size_spec() && C::obeys_size_spec() && D::obeys_size_spec() && E::obeys_size_spec() && F::obeys_size_spec() && G::obeys_size_spec() && H::obeys_size_spec() && I::obeys_size_spec() && J::obeys_size_spec()
    }

    open spec fn heap_bytes(&self) -> nat {
        self.0.heap_bytes() + self.1.heap_bytes() + self.2.heap_bytes() + self.3.heap_bytes() + self.4.heap_bytes() + self.5.heap_bytes() + self.6.heap_bytes() + self.7.heap_bytes() + self.8.heap_bytes() + self.9.heap_bytes()
    }

    fn get_heap_size(&self) -> (r: usize) {
        let mut total = self.0.get_heap_size();
        total = total.wrapping_add(self.1.get_heap_size());
        assert(Self::obeys_size_spec() && self.heap_bytes() <= usize::MAX ==> total as nat
            == self.0.heap_bytes() + self.1.heap_bytes());
        total = total.wrapping_add(self.2.get_heap_size());
        assert(Self::obeys_size_spec() && self.heap_bytes() <= usize::MAX ==> total as nat
            == self.0.heap_bytes() + self.1.heap_bytes() + self.2.heap_bytes());
        total = total.wrapping_add(self.3.get_heap_size());
        assert(Self::obeys_size_spec() && self.heap_bytes() <= usize::MAX ==> total as nat
            == self.0.heap_bytes() + self.1.heap_bytes() + self.2.heap_bytes() + self.3.heap_bytes());
        total = total.wrapping_add(self.4.get_heap_size());
        assert(Self::obeys_size_spec() && self.heap_bytes() <= usize::MAX ==> total as nat
            == self.0.heap_bytes() + self.1.heap_bytes() + self.2.heap_bytes() + self.3.heap_bytes() + self.4.heap_bytes());
        total = total.wrapping_add(self.5.get_heap_size());
        assert(Self::obeys_size_spec() && self.heap_bytes() <= usize::MAX ==> total as nat
            == self.0.heap_bytes() + self.1.heap_bytes() + self.2.heap_bytes() + self.3.heap_bytes() + self.4.heap_bytes() + self.5.heap_bytes());
        total = total.wrapping_add(self.6.get_heap_size());
        assert(Self::obeys_size_spec() && self.heap_bytes() <= usize::MAX ==> total as nat
            == self.0.heap_bytes() + self.1.heap_bytes() + self.2.heap_bytes() + self.3.heap_bytes() + self.4.heap_bytes() + self.5.heap_bytes() + self.6.heap_bytes());
        total = total.wrapping_add(self.7.get_heap_size());
        assert(Self::obeys_size_spec() && self.heap_bytes() <= usize::MAX ==> total as nat
            == self.0.heap_bytes() + self.1.heap_bytes() + self.2.heap_bytes() + self.3.heap_bytes() + self.4.heap_bytes() + self.5.heap_bytes() + self.6.heap_bytes() + self.7.heap_bytes());
        total = total.wrapping_add(self.8.get_heap_size());
        assert(Self::obeys_size_spec() && self.heap_bytes() <= usize::MAX ==> total as nat
            == self.0.heap_bytes() + self.1.heap_bytes() + self.2.heap_bytes() + self.3.heap_bytes() + self.4.heap_bytes() + self.5.heap_bytes() + self.6.heap_bytes() + self.7.heap_bytes() + self.8.heap_bytes());
        total = total.wrapping_add(self.9.get_heap_size());
        assert(Self::obeys_size_spec() && self.heap_bytes() <= usize::MAX ==> total as nat
            == self.0.heap_bytes() + self.1.heap_bytes() + self.2.heap_bytes() + self.3.heap_bytes() + self.4.heap_bytes() + self.5.heap_bytes() + self.6.heap_bytes() + self.7.heap_bytes() + self.8.heap_bytes() + self.9.heap_bytes());
        total
    }
}

impl<A: Size, B: Size, C: Size, D: Size, E: Size, F: Size, G: Size, H: Size, I: Size, J: Size, K: Size> Size for (A, B, C, D, E, F, G, H, I, J, K) {
    open spec fn obeys_size_spec() -> bool {
        A::obeys_size_spec() && B::obeys_size_spec() && C::obeys_size_spec() && D::obeys_size_spec() && E::obeys_size_spec() && F::obeys_size_spec() && G::obeys_size_spec() && H::obeys_size_spec() && I::obeys_size_spec() && J::obeys_size_spec() && K::obeys_size_spec()
    }

    open spec fn heap_bytes(&self) -> nat {
        self.0.heap_bytes() + self.1.heap_bytes() + self.2.heap_bytes() + self.3.heap_bytes() + self.4.heap_bytes() + self.5.heap_bytes() + self.6.heap_bytes() + self.7.heap_bytes() + self.8.heap_bytes() + self.9.heap_bytes() + self.10.heap_bytes()
    }

    fn get_heap_size(&self) -> (r: usize) {
        let mut total = self.0.get_heap_size();
        total = total.wrapping_add(self.1.get_heap_size());
        assert(Self::obeys_size_spec() && self.heap_bytes() <= usize::MAX ==> total as nat
            == self.0.heap_bytes() + self.1.heap_bytes());
        total = total.wrapping_add(self.2.get_heap_size());
        assert(Self::obeys_size_spec() && self.heap_bytes() <= usize::MAX ==> total as nat
            == self.0.heap_bytes() + self.1.heap_bytes() + self.2.heap_bytes());
        total = total.wrapping_add(self.3.get_heap_size());
        assert(Self::obeys_size_spec() && self.heap_bytes() <= usize::MAX ==> total as nat
            == self.0.heap_bytes() + self.1.heap_bytes() + self.2.heap_bytes() + self.3.heap_bytes());
        total = total.wrapping_add(self.4.get_heap_size());
        assert(Self::obeys_size_spec() && self.heap_bytes() <= usize::MAX ==> total as nat
            == self.0.heap_bytes() + self.1.heap_bytes() + self.2.heap_bytes() + self.3.heap_bytes() + self.4.heap_bytes());
        total = total.wrapping_add(self.5.get_heap_size());
        assert(Self::obeys_size_spec() && self.heap_bytes() <= usize::MAX ==> total as nat
            == self.0.heap_bytes() + self.1.heap_bytes() + self.2.heap_bytes() + self.3.heap_bytes() + self.4.heap_bytes() + self.5.heap_bytes());
        total = total.wrapping_add(self.6.get_heap_size());
        assert(Self::obeys_size_spec() && self.heap_bytes() <= usize::MAX ==> total as nat
            == self.0.heap_bytes() + self.1.heap_bytes() + self.2.heap_bytes() + self.3.heap_bytes() + self.4.heap_bytes() + self.5.heap_bytes() + self.6.heap_bytes());
        total = total.wrapping_add(self.7.get_heap_size());
        assert(Self::obeys_size_spec() && self.heap_bytes() <= usize::MAX ==> total as nat
            == self.0.heap_bytes() + self.1.heap_bytes() + self.2.heap_bytes() + self.3.heap_bytes() + self.4.heap_bytes() + self.5.heap_bytes() + self.6.heap_bytes() + self.7.heap_bytes());
        total = total.wrapping_add(self.8.get_heap_size());
        assert(Self::obeys_size_spec() && self.heap_bytes() <= usize::MAX ==> total as nat
            == self.0.heap_bytes() + self.1.heap_bytes() + self.2.heap_bytes() + self.3.heap_bytes() + self.4.heap_bytes() + self.5.heap_bytes() + self.6.heap_bytes() + self.7.heap_bytes() + self.8.heap_bytes());
        total = total.wrapping_add(self.9.get_heap_size());
        assert(Self::obeys_size_spec() && self.heap_bytes() <= usize::MAX ==> total as nat
            == self.0.heap_bytes() + self.1.heap_bytes() + self.2.heap_bytes() + self.3.heap_bytes() + self.4.heap_bytes() + self.5.heap_bytes() + self.6.heap_bytes() + self.7.heap_bytes() + self.8.heap_bytes() + self.9.heap_bytes());
        total = total.wrapping_add(self.10.get_heap_size());
        assert(Self::obeys_size_spec() && self.heap_bytes() <= usize::MAX ==> total as nat
            == self.0.heap_bytes() + self.1.heap_bytes() + self.2.heap_bytes() + self.3.heap_bytes() + self.4.heap_bytes() + self.5.heap_bytes() + self.6.heap_bytes() + self.7.heap_bytes() + self.8.heap_bytes() + self.9.heap_bytes() + self.10.heap_bytes());
        total
    }
}

impl<A: Size, B: Size, C: Size, D: Size, E: Size, F: Size, G: Size, H: Size, I: Size, J: Size, K: Size, L: Size> Size for (A, B, C, D, E, F, G, H, I, J, K, L) {
    open spec fn obeys_size_spec() -> bool {
        A::obeys_size_spec() && B::obeys_size_spec() && C::obeys_size_spec() && D::obeys_size_spec() && E::obeys_size_spec() && F::obeys_size_spec() && G::obeys_size_spec() && H::obeys_size_spec() && I::obeys_size_spec() && J::obeys_size_spec() && K::obeys_size_spec() && L::obeys_size_spec()
    }

    open spec fn heap_bytes(&self) -> nat {
        self.0.heap_bytes() + self.1.heap_bytes() + self.2.heap_bytes() + self.3.heap_bytes() + self.4.heap_bytes() + self.5.heap_bytes() + self.6.heap_bytes() + self.7.heap_bytes() + self.8.heap_bytes() + self.9.heap_bytes() + self.10.heap_bytes() + self.11.heap_bytes()
    }

    fn get_heap_size(&self) -> (r: usize) {
        let mut total = self.0.get_heap_size();
        total = total.wrapping_add(self.1.get_heap_size());
        assert(Self::obeys_size_spec() && self.heap_bytes() <= usize::MAX ==> total as nat
            == self.0.heap_bytes() + self.1.heap_bytes());
        total = total.wrapping_add(self.2.get_heap_size());
        assert(Self::obeys_size_spec() && self.heap_bytes() <= usize::MAX ==> total as nat
            == self.0.heap_bytes() + self.1.heap_bytes() + self.2.heap_bytes());
        total = total.wrapping_add(self.3.get_heap_size());
        assert(Self::obeys_size_spec() && self.heap_bytes() <= usize::MAX ==> total as nat
            == self.0.heap_bytes() + self.1.heap_bytes() + self.2.heap_bytes() + self.3.heap_bytes());
        total = total.wrapping_add(self.4.get_heap_size());
        assert(Self::obeys_size_spec() && self.heap_bytes() <= usize::MAX ==> total as nat
            == self.0.heap_bytes() + self.1.heap_bytes() + self.2.heap_bytes() + self.3.heap_bytes() + self.4.heap_bytes());
        total = total.wrapping_add(self.5.get_heap_size());
        assert(Self::obeys_size_spec() && self.heap_bytes() <= usize::MAX ==> total as nat
            == self.0.heap_bytes() + self.1.heap_bytes() + self.2.heap_bytes() + self.3.heap_bytes() + self.4.heap_bytes() + self.5.heap_bytes());
        total = total.wrapping_add(self.6.get_heap_size());
        assert(Self::obeys_size_spec() && self.heap_bytes() <= usize::MAX ==> total as nat
            == self.0.heap_bytes() + self.1.heap_bytes() + self.2.heap_bytes() + self.3.heap_bytes() + self.4.heap_bytes() + self.5.heap_bytes() + self.6.heap_bytes());
        total = total.wrapping_add(self.7.get_heap_size());
        assert(Self::obeys_size_spec() && self.heap_bytes() <= usize::MAX ==> total as nat
            == self.0.heap_bytes() + self.1.heap_bytes() + self.2.heap_bytes() + self.3.heap_bytes() + self.4.heap_bytes() + self.5.heap_bytes() + self.6.heap_bytes() + self.7.heap_bytes());
        total = total.wrapping_add(self.8.get_heap_size());
        assert(Self::obeys_size_spec() && self.heap_bytes() <= usize::MAX ==> total as nat
            == self.0.heap_bytes() + self.1.heap_bytes() + self.2.heap_bytes() + self.3.heap_bytes() + self.4.heap_bytes() + self.5.heap_bytes() + self.6.heap_bytes() + self.7.heap_bytes() + self.8.heap_bytes());
        total = total.wrapping_add(self.9.get_heap_size());
        assert(Self::obeys_size_spec() && self.heap_bytes() <= usize::MAX ==> total as nat
            == self.0.heap_bytes() + self.1.heap_bytes() + self.2.heap_bytes() + self.3.heap_bytes() + self.4.heap_bytes() + self.5.heap_bytes() + self.6.heap_bytes() + self.7.heap_bytes() + self.8.heap_bytes() + self.9.heap_bytes());
        total = total.wrapping_add(self.10.get_heap_size());
        assert(Self::obeys_size_spec() && self.heap_bytes() <= usize::MAX ==> total as nat
            == self.0.heap_bytes() + self.1.heap_bytes() + self.2.heap_bytes() + self.3.heap_bytes() + self.4.heap_bytes() + self.5.heap_bytes() + self.6.heap_bytes() + self.7.heap_bytes() + self.8.heap_bytes() + self.9.heap_bytes() + self.10.heap_bytes());
        total = total.wrapping_add(self.11.get_heap_size());
        assert(Self::obeys_size_spec() && self.heap_bytes() <= usize::MAX ==> total as nat
            == self.0.heap_bytes() + self.1.heap_bytes() + self.2.heap_bytes() + self.3.heap_bytes() + self.4.heap_bytes() + self.5.heap_bytes() + self.6.heap_bytes() + self.7.heap_bytes() + self.8.heap_bytes() + self.9.heap_bytes() + self.10.heap_bytes() + self.11.heap_bytes());
        total
    }
}

impl<A: Size, B: Size, C: Size, D: Size, E: Size, F: Size, G: Size, H: Size, I: Size, J: Size, K: Size, L: Size, M: Size> Size for (A, B, C, D, E, F, G, H, I, J, K, L, M) {
    open spec fn obeys_size_spec() -> bool {
        A::obeys_size_spec() && B::obeys_size_spec() && C::obeys_size_spec() && D::obeys_size_spec() && E::obeys_size_spec() && F::obeys_size_spec() && G::obeys_size_spec() && H::obeys_size_spec() && I::obeys_size_spec() && J::obeys_size_spec() && K::obeys_size_spec() && L::obeys_size_spec() && M::obeys_size_spec()
    }

    open spec fn heap_bytes(&self) -> nat {
        self.0.heap_bytes() + self.1.heap_bytes() + self.2.heap_bytes() + self.3.heap_bytes() + self.4.heap_bytes() + self.5.heap_bytes() + self.6.heap_bytes() + self.7.heap_bytes() + self.8.heap_bytes() + self.9.heap_bytes() + self.10.heap_bytes() + self.11.heap_bytes() + self.12.heap_bytes()
    }

    fn get_heap_size(&self) -> (r: usize) {
        let mut total = self.0.get_heap_size();
        total = total.wrapping_add(self.1.get_heap_size());
        assert(Self::obeys_size_spec() && self.heap_bytes() <= usize::MAX ==> total as nat
            == self.0.heap_bytes() + self.1.heap_bytes());
        total = total.wrapping_add(self.2.get_heap_size());
        assert(Self::obeys_size_spec() && self.heap_bytes() <= usize::MAX ==> total as nat
            == self.0.heap_bytes() + self.1.heap_bytes() + self.2.heap_bytes());
        total = total.wrapping_add(self.3.get_heap_size());
        assert(Self::obeys_size_spec() && self.heap_bytes() <= usize::MAX ==> total as nat
            == self.0.heap_bytes() + self.1.heap_bytes() + self.2.heap_bytes() + self.3.heap_bytes());
        total = total.wrapping_add(self.4.get_heap_size());
        assert(Self::obeys_size_spec() && self.heap_bytes() <= usize::MAX ==> total as nat
            == self.0.heap_bytes() + self.1.heap_bytes() + self.2.heap_bytes() + self.3.heap_bytes() + self.4.heap_bytes());
        total = total.wrapping_add(self.5.get_heap_size());
        assert(Self::obeys_size_spec() && self.heap_bytes() <= usize::MAX ==> total as nat
            == self.0.heap_bytes() + self.1.heap_bytes() + self.2.heap_bytes() + self.3.heap_bytes() + self.4.heap_bytes() + self.5.heap_bytes());
        total = total.wrapping_add(self.6.get_heap_size());
        assert(Self::obeys_size_spec() && self.heap_bytes() <= usize::MAX ==> total as nat
            == self.0.heap_bytes() + self.1.heap_bytes() + self.2.heap_bytes() + self.3.heap_bytes() + self.4.heap_bytes() + self.5.heap_bytes() + self.6.heap_bytes());
        total = total.wrapping_add(self.7.get_heap_size());
        assert(Self::obeys_size_spec() && self.heap_bytes() <= usize::MAX ==> total as nat
            == self.0.heap_bytes() + self.1.heap_bytes() + self.2.heap_bytes() + self.3.heap_bytes() + self.4.heap_bytes() + self.5.heap_bytes() + self.6.heap_bytes() + self.7.heap_bytes());
        total = total.wrapping_add(self.8.get_heap_size());
        assert(Self::obeys_size_spec() && self.heap_bytes() <= usize::MAX ==> total as nat
            == self.0.heap_bytes() + self.1.heap_bytes() + self.2.heap_bytes() + self.3.heap_bytes() + self.4.heap_bytes() + self.5.heap_bytes() + self.6.heap_bytes() + self.7.heap_bytes() + self.8.heap_bytes());
        total = total.wrapping_add(self.9.get_heap_size());
        assert(Self::obeys_size_spec() && self.heap_bytes() <= usize::MAX ==> total as nat
            == self.0.heap_bytes() + self.1.heap_bytes() + self.2.heap_bytes() + self.3.heap_bytes() + self.4.heap_bytes() + self.5.heap_bytes() + self.6.heap_bytes() + self.7.heap_bytes() + self.8.heap_bytes() + self.9.heap_bytes());
        total = total.wrapping_add(self.10.get_heap_size());
        assert(Self::obeys_size_spec() && self.heap_bytes() <= usize::MAX ==> total as nat
            == self.0.heap_bytes() + self.1.heap_bytes() + self.2.heap_bytes() + self.3.heap_bytes() + self.4.heap_bytes() + self.5.heap_bytes() + self.6.heap_bytes() + self.7.heap_bytes() + self.8.heap_bytes() + self.9.heap_bytes() + self.10.heap_bytes());
        total = total.wrapping_add(self.11.get_heap_size());
        assert(Self::obeys_size_spec() && self.heap_bytes() <= usize::MAX ==> total as nat
            == self.0.heap_bytes() + self.1.heap_bytes() + self.2.heap_bytes() + self.3.heap_bytes() + self.4.heap_bytes() + self.5.heap_bytes() + self.6.heap_bytes() + self.7.heap_bytes() + self.8.heap_bytes() + self.9.heap_bytes() + self.10.heap_bytes() + self.11.heap_bytes());
        total = total.wrapping_add(self.12.get_heap_size());
        assert(Self::obeys_size_spec() && self.heap_bytes() <= usize::MAX ==> total as nat
            == self.0.heap_bytes() + self.1.heap_bytes() + self.2.heap_bytes() + self.3.heap_bytes() + self.4.heap_bytes() + self.5.heap_bytes() + self.6.heap_bytes() + self.7.heap_bytes() + self.8.heap_bytes() + self.9.heap_bytes() + self.10.heap_bytes() + self.11.heap_bytes() + self.12.heap_bytes());
        total
    }
}

impl<A: Size, B: Size, C: Size, D: Size, E: Size, F: Size, G: Size, H: Size, I: Size, J: Size, K: Size, L: Size, M: Size, N: Size> Size for (A, B, C, D, E, F, G, H, I, J, K, L, M, N) {
    open spec fn obeys_size_spec() -> bool {
        A::obeys_size_spec() && B::obeys_size_spec() && C::obeys_size_spec() && D::obeys_size_spec() && E::obeys_size_spec() && F::obeys_size_spec() && G::obeys_size_spec() && H::obeys_size_spec() && I::obeys_size_spec() && J::obeys_size_spec() && K::obeys_size_spec() && L::obeys_size_spec() && M::obeys_size_spec() && N::obeys_size_spec()
    }

    open spec fn heap_bytes(&self) -> nat {
        self.0.heap_bytes() + self.1.heap_bytes() + self.2.heap_bytes() + self.3.heap_bytes() + self.4.heap_bytes() + self.5.heap_bytes() + self.6.heap_bytes() + self.7.heap_bytes() + self.8.heap_bytes() + self.9.heap_bytes() + self.10.heap_bytes() + self.11.heap_bytes() + self.12.heap_bytes() + self.13.heap_bytes()
    }

    fn get_heap_size(&self) -> (r: usize) {
        let mut total = self.0.get_heap_size();
        total = total.wrapping_add(self.1.get_heap_size());
        assert(Self::obeys_size_spec() && self.heap_bytes() <= usize::MAX ==> total as nat
            == self.0.heap_bytes() + self.1.heap_bytes());
        total = total.wrapping_add(self.2.get_heap_size());
        assert(Self::obeys_size_spec() && self.heap_bytes() <= usize::MAX ==> total as nat
            == self.0.heap_bytes() + self.1.heap_bytes() + self.2.heap_bytes());
        total = total.wrapping_add(self.3.get_heap_size());
        assert(Self::obeys_size_spec() && self.heap_bytes() <= usize::MAX ==> total as nat
            == self.0.heap_bytes() + self.1.heap_bytes() + self.2.heap_bytes() + self.3.heap_bytes());
        total = total.wrapping_add(self.4.get_heap_size());
        assert(Self::obeys_size_spec() && self.heap_bytes() <= usize::MAX ==> total as nat
            == self.0.heap_bytes() + self.1.heap_bytes() + self.2.heap_bytes() + self.3.heap_bytes() + self.4.heap_bytes());
        total = total.wrapping_add(self.5.get_heap_size());
        assert(Self::obeys_size_spec() && self.heap_bytes() <= usize::MAX ==> total as nat
            == self.0.heap_bytes() + self.1.heap_bytes() + self.2.heap_bytes() + self.3.heap_bytes() + self.4.heap_bytes() + self.5.heap_bytes());
        total = total.wrapping_add(self.6.get_heap_size());
        assert(Self::obeys_size_spec() && self.heap_bytes() <= usize::MAX ==> total as nat
            == self.0.heap_bytes() + self.1.heap_bytes() + self.2.heap_bytes() + self.3.heap_bytes() + self.4.heap_bytes() + self.5.heap_bytes() + self.6.heap_bytes());
        total = total.wrapping_add(self.7.get_heap_size());
        assert(Self::obeys_size_spec() && self.heap_bytes() <= usize::MAX ==> total as nat
            == self.0.heap_bytes() + self.1.heap_bytes() + self.2.heap_bytes() + self.3.heap_bytes() + self.4.heap_bytes() + self.5.heap_bytes() + self.6.heap_bytes() + self.7.heap_bytes());
        total = total.wrapping_add(self.8.get_heap_size());
        assert(Self::obeys_size_spec() && self.heap_bytes() <= usize::MAX ==> total as nat
            == self.0.heap_bytes() + self.1.heap_bytes() + self.2.heap_bytes() + self.3.heap_bytes() + self.4.heap_bytes() + self.5.heap_bytes() + self.6.heap_bytes() + self.7.heap_bytes() + self.8.heap_bytes());
        total = total.wrapping_add(self.9.get_heap_size());
        assert(Self::obeys_size_spec() && self.heap_bytes() <= usize::MAX ==> total as nat
            == self.0.heap_bytes() + self.1.heap_bytes() + self.2.heap_bytes() + self.3.heap_bytes() + self.4.heap_bytes() + self.5.heap_bytes() + self.6.heap_bytes() + self.7.heap_bytes() + self.8.heap_bytes() + self.9.heap_bytes());
        total = total.wrapping_add(self.10.get_heap_size());
        assert(Self::obeys_size_spec() && self.heap_bytes() <= usize::MAX ==> total as nat
            == self.0.heap_bytes() + self.1.heap_bytes() + self.2.heap_bytes() + self.3.heap_bytes() + self.4.heap_bytes() + self.5.heap_bytes() + self.6.heap_bytes() + self.7.heap_bytes() + self.8.heap_bytes() + self.9.heap_bytes() + self.10.heap_bytes());
        total = total.wrapping_add(self.11.get_heap_size());
        assert(Self::obeys_size_spec() && self.heap_bytes() <= usize::MAX ==> total as nat
            == self.0.heap_bytes() + self.1.heap_bytes() + self.2.heap_bytes() + self.3.heap_bytes() + self.4.heap_bytes() + self.5.heap_bytes() + self.6.heap_bytes() + self.7.heap_bytes() + self.8.heap_bytes() + self.9.heap_bytes() + self.10.heap_bytes() + self.11.heap_bytes());
        total = total.wrapping_add(self.12.get_heap_size());
        assert(Self::obeys_size_spec() && self.heap_bytes() <= usize::MAX ==> total as nat
            == self.0.heap_bytes() + self.1.heap_bytes() + self.2.heap_bytes() + self.3.heap_bytes() + self.4.heap_bytes() + self.5.heap_bytes() + self.6.heap_bytes() + self.7.heap_bytes() + self.8.heap_bytes() + self.9.heap_bytes() + self.10.heap_bytes() + self.11.heap_bytes() + self.12.heap_bytes());
        total = total.wrapping_add(self.13.get_heap_size());
        assert(Self::obeys_size_spec() && self.heap_bytes() <= usize::MAX ==> total as nat
            == self.0.heap_bytes() + self.1.heap_bytes() + self.2.heap_bytes() + self.3.heap_bytes() + self.4.heap_bytes() + self.5.heap_bytes() + self.6.heap_bytes() + self.7.heap_bytes() + self.8.heap_bytes() + self.9.heap_bytes() + self.10.heap_bytes() + self.11.heap_bytes() + self.12.heap_bytes() + self.13.heap_bytes());
        total
    }
}

impl<A: Size, B: Size, C: Size, D: Size, E: Size, F: Size, G: Size, H: Size, I: Size, J: Size, K: Size, L: Size, M: Size, N: Size, O: Size> Size for (A, B, C, D, E, F, G, H, I, J, K, L, M, N, O) {
    open spec fn obeys_size_spec() -> bool {
        A::obeys_size_spec() && B::obeys_size_spec() && C::obeys_size_spec() && D::obeys_size_spec() && E::obeys_size_spec() && F::obeys_size_spec() && G::obeys_size_spec() && H::obeys_size_spec() && I::obeys_size_spec() && J::obeys_size_spec() && K::obeys_size_spec() && L::obeys_size_spec() && M::obeys_size_spec() && N::obeys_size_spec() && O::obeys_size_spec()
    }

    open spec fn heap_bytes(&self) -> nat {
        self.0.heap_bytes() + self.1.heap_bytes() + self.2.heap_bytes() + self.3.heap_bytes() + self.4.heap_bytes() + self.5.heap_bytes() + self.6.heap_bytes() + self.7.heap_bytes() + self.8.heap_bytes() + self.9.heap_bytes() + self.10.heap_bytes() + self.11.heap_bytes() + self.12.heap_bytes() + self.13.heap_bytes() + self.14.heap_bytes()
    }

    fn get_heap_size(&self) -> (r: usize) {
        let mut total = self.0.get_heap_size();
        total = total.wrapping_add(self.1.get_heap_size());
        assert(Self::obeys_size_spec() && self.heap_bytes() <= usize::MAX ==> total as nat
            == self.0.heap_bytes() + self.1.heap_bytes());
        total = total.wrapping_add(self.2.get_heap_size());
        assert(Self::obeys_size_spec() && self.heap_bytes() <= usize::MAX ==> total as nat
            == self.0.heap_bytes() + self.1.heap_bytes() + self.2.heap_bytes());
        total = total.wrapping_add(self.3.get_heap_size());
        assert(Self::obeys_size_spec() && self.heap_bytes() <= usize::MAX ==> total as nat
            == self.0.heap_bytes() + self.1.heap_bytes() + self.2.heap_bytes() + self.3.heap_bytes());
        total = total.wrapping_add(self.4.get_heap_size());
        assert(Self::obeys_size_spec() && self.heap_bytes() <= usize::MAX ==> total as nat
            == self.0.heap_bytes() + self.1.heap_bytes() + self.2.heap_bytes() + self.3.heap_bytes() + self.4.heap_bytes());
        total = total.wrapping_add(self.5.get_heap_size());
        assert(Self::obeys_size_spec() && self.heap_bytes() <= usize::MAX ==> total as nat
            == self.0.heap_bytes() + self.1.heap_bytes() + self.2.heap_bytes() + self.3.heap_bytes() + self.4.heap_bytes() + self.5.heap_bytes());
        total = total.wrapping_add(self.6.get_heap_size());
        assert(Self::obeys_size_spec() && self.heap_bytes() <= usize::MAX ==> total as nat
            == self.0.heap_bytes() + self.1.heap_bytes() + self.2.heap_bytes() + self.3.heap_bytes() + self.4.heap_bytes() + self.5.heap_bytes() + self.6.heap_bytes());
        total = total.wrapping_add(self.7.get_heap_size());
        assert(Self::obeys_size_spec() && self.heap_bytes() <= usize::MAX ==> total as nat
            == self.0.heap_bytes() + self.1.heap_bytes() + self.2.heap_bytes() + self.3.heap_bytes() + self.4.heap_bytes() + self.5.heap_bytes() + self.6.heap_bytes() + self.7.heap_bytes());
        total = total.wrapping_add(self.8.get_heap_size());
        assert(Self::obeys_size_spec() && self.heap_bytes() <= usize::MAX ==> total as nat
            == self.0.heap_bytes() + self.1.heap_bytes() + self.2.heap_bytes() + self.3.heap_bytes() + self.4.heap_bytes() + self.5.heap_bytes() + self.6.heap_bytes() + self.7.heap_bytes() + self.8.heap_bytes());
        total = total.wrapping_add(self.9.get_heap_size());
        assert(Self::obeys_size_spec() && self.heap_bytes() <= usize::MAX ==> total as nat
            == self.0.heap_bytes() + self.1.heap_bytes() + self.2.heap_bytes() + self.3.heap_bytes() + self.4.heap_bytes() + self.5.heap_bytes() + self.6.heap_bytes() + self.7.heap_bytes() + self.8.heap_bytes() + self.9.heap_bytes());
        total = total.wrapping_add(self.10.get_heap_size());
        assert(Self::obeys_size_spec() && self.heap_bytes() <= usize::MAX ==> total as nat
            == self.0.heap_bytes() + self.1.heap_bytes() + self.2.heap_bytes() + self.3.heap_bytes() + self.4.heap_bytes() + self.5.heap_bytes() + self.6.heap_bytes() + self.7.heap_bytes() + self.8.heap_bytes() + self.9.heap_bytes() + self.10.heap_bytes());
        total = total.wrapping_add(self.11.get_heap_size());
        assert(Self::obeys_size_spec() && self.heap_bytes() <= usize::MAX ==> total as nat
            == self.0.heap_bytes() + self.1.heap_bytes() + self.2.heap_bytes() + self.3.heap_bytes() + self.4.heap_bytes() + self.5.heap_bytes() + self.6.heap_bytes() + self.7.heap_bytes() + self.8.heap_bytes() + self.9.heap_bytes() + self.10.heap_bytes() + self.11.heap_bytes());
        total = total.wrapping_add(self.12.get_heap_size());
        assert(Self::obeys_size_spec() && self.heap_bytes() <= usize::MAX ==> total as nat
            == self.0.heap_bytes() + self.1.heap_bytes() + self.2.heap_bytes() + self.3.heap_bytes() + self.4.heap_bytes() + self.5.heap_bytes() + self.6.heap_bytes() + self.7.heap_bytes() + self.8.heap_bytes() + self.9.heap_bytes() + self.10.heap_bytes() + self.11.heap_bytes() + self.12.heap_bytes());
        total = total.wrapping_add(self.13.get_heap_size());
        assert(Self::obeys_size_spec() && self.heap_bytes() <= usize::MAX ==> total as nat
            == self.0.heap_bytes() + self.1.heap_bytes() + self.2.heap_bytes() + self.3.heap_bytes() + self.4.heap_bytes() + self.5.heap_bytes() + self.6.heap_bytes() + self.7.heap_bytes() + self.8.heap_bytes() + self.9.heap_bytes() + self.10.heap_bytes() + self.11.heap_bytes() + self.12.heap_bytes() + self.13.heap_bytes());
        total = total.wrapping_add(self.14.get_heap_size());
        assert(Self::obeys_size_spec() && self.heap_bytes() <= usize::MAX ==> total as nat
            == self.0.heap_bytes() + self.1.heap_bytes() + self.2.heap_bytes() + self.3.heap_bytes() + self.4.heap_bytes() + self.5.heap_bytes() + self.6.heap_bytes() + self.7.heap_bytes() + self.8.heap_bytes() + self.9.heap_bytes() + self.10.heap_bytes() + self.11.heap_bytes() + self.12.heap_bytes() + self.13.heap_bytes() + self.14.heap_bytes());
        total
    }
}

impl<A: Size, B: Size, C: Size, D: Size, E: Size, F: Size, G: Size, H: Size, I: Size, J: Size, K: Size, L: Size, M: Size, N: Size, O: Size, P: Size> Size for (A, B, C, D, E, F, G, H, I, J, K, L, M, N, O, P) {
    open spec fn obeys_size_spec() -> bool {
        A::obeys_size_spec() && B::obeys_size_spec() && C::obeys_size_spec() && D::obeys_size_spec() && E::obeys_size_spec() && F::obeys_size_spec() && G::obeys_size_spec() && H::obeys_size_spec() && I::obeys_size_spec() && J::obeys_size_spec() && K::obeys_size_spec() && L::obeys_size_spec() && M::obeys_size_spec() && N::obeys_size_spec() && O::obeys_size_spec() && P::obeys_size_spec()
    }

    open spec fn heap_bytes(&self) -> nat {
        self.0.heap_bytes() + self.1.heap_bytes() + self.2.heap_bytes() + self.3.heap_bytes() + self.4.heap_bytes() + self.5.heap_bytes() + self.6.heap_bytes() + self.7.heap_bytes() + self.8.heap_bytes() + self.9.heap_bytes() + self.10.heap_bytes() + self.11.heap_bytes() + self.12.heap_bytes() + self.13.heap_bytes() + self.14.heap_bytes() + self.15.heap_bytes()
    }

    fn get_heap_size(&self) -> (r: usize) {
        let mut total = self.0.get_heap_size();
        total = total.wrapping_add(self.1.get_heap_size());
        assert(Self::obeys_size_spec() && self.heap_bytes() <= usize::MAX ==> total as nat
            == self.0.heap_bytes() + self.1.heap_bytes());
        total = total.wrapping_add(self.2.get_heap_size());
        assert(Self::obeys_size_spec() && self.heap_bytes() <= usize::MAX ==> total as nat
            == self.0.heap_bytes() + self.1.heap_bytes() + self.2.heap_bytes());
        total = total.wrapping_add(self.3.get_heap_size());
        assert(Self::obeys_size_spec() && self.heap_bytes() <= usize::MAX ==> total as nat
            == self.0.heap_bytes() + self.1.heap_bytes() + self.2.heap_bytes() + self.3.heap_bytes());
        total = total.wrapping_add(self.4.get_heap_size());
        assert(Self::obeys_size_spec() && self.heap_bytes() <= usize::MAX ==> total as nat
            == self.0.heap_bytes() + self.1.heap_bytes() + self.2.heap_bytes() + self.3.heap_bytes() + self.4.heap_bytes());
        total = total.wrapping_add(self.5.get_heap_size());
        assert(Self::obeys_size_spec() && self.heap_bytes() <= usize::MAX ==> total as nat
            == self.0.heap_bytes() + self.1.heap_bytes() + self.2.heap_bytes() + self.3.heap_bytes() + self.4.heap_bytes() + self.5.heap_bytes());
        total = total.wrapping_add(self.6.get_heap_size());
        assert(Self::obeys_size_spec() && self.heap_bytes() <= usize::MAX ==> total as nat
            == self.0.heap_bytes() + self.1.heap_bytes() + self.2.heap_bytes() + self.3.heap_bytes() + self.4.heap_bytes() + self.5.heap_bytes() + self.6.heap_bytes());
        total = total.wrapping_add(self.7.get_heap_size());
        assert(Self::obeys_size_spec() && self.heap_bytes() <= usize::MAX ==> total as nat
            == self.0.heap_bytes() + self.1.heap_bytes() + self.2.heap_bytes() + self.3.heap_bytes() + self.4.heap_bytes() + self.5.heap_bytes() + self.6.heap_bytes() + self.7.heap_bytes());
        total = total.wrapping_add(self.8.get_heap_size());
        assert(Self::obeys_size_spec() && self.heap_bytes() <= usize::MAX ==> total as nat
            == self.0.heap_bytes() + self.1.heap_bytes() + self.2.heap_bytes() + self.3.heap_bytes() + self.4.heap_bytes() + self.5.heap_bytes() + self.6.heap_bytes() + self.7.heap_bytes() + self.8.heap_bytes());
        total = total.wrapping_add(self.9.get_heap_size());
        assert(Self::obeys_size_spec() && self.heap_bytes() <= usize::MAX ==> total as nat
            == self.0.heap_bytes() + self.1.heap_bytes() + self.2.heap_bytes() + self.3.heap_bytes() + self.4.heap_bytes() + self.5.heap_bytes() + self.6.heap_bytes() + self.7.heap_bytes() + self.8.heap_bytes() + self.9.heap_bytes());
        total = total.wrapping_add(self.10.get_heap_size());
        assert(Self::obeys_size_spec() && self.heap_bytes() <= usize::MAX ==> total as nat
            == self.0.heap_bytes() + self.1.heap_bytes() + self.2.heap_bytes() + self.3.heap_bytes() + self.4.heap_bytes() + self.5.heap_bytes() + self.6.heap_bytes() + self.7.heap_bytes() + self.8.heap_bytes() + self.9.heap_bytes() + self.10.heap_bytes());
        total = total.wrapping_add(self.11.get_heap_size());
        assert(Self::obeys_size_spec() && self.heap_bytes() <= usize::MAX ==> total as nat
            == self.0.heap_bytes() + self.1.heap_bytes() + self.2.heap_bytes() + self.3.heap_bytes() + self.4.heap_bytes() + self.5.heap_bytes() + self.6.heap_bytes() + self.7.heap_bytes() + self.8.heap_bytes() + self.9.heap_bytes() + self.10.heap_bytes() + self.11.heap_bytes());
        total = total.wrapping_add(self.12.get_heap_size());
        assert(Self::obeys_size_spec() && self.heap_bytes() <= usize::MAX ==> total as nat
            == self.0.heap_bytes() + self.1.heap_bytes() + self.2.heap_bytes() + self.3.heap_bytes() + self.4.heap_bytes() + self.5.heap_bytes() + self.6.heap_bytes() + self.7.heap_bytes() + self.8.heap_bytes() + self.9.heap_bytes() + self.10.heap_bytes() + self.11.heap_bytes() + self.12.heap_bytes());
        total = total.wrapping_add(self.13.get_heap_size());
        assert(Self::obeys_size_spec() && self.heap_bytes() <= usize::MAX ==> total as nat
            == self.0.heap_bytes() + self.1.heap_bytes() + self.2.heap_bytes() + self.3.heap_bytes() + self.4.heap_bytes() + self.5.heap_bytes() + self.6.heap_bytes() + self.7.heap_bytes() + self.8.heap_bytes() + self.9.heap_bytes() + self.10.heap_bytes() + self.11.heap_bytes() + self.12.heap_bytes() + self.13.heap_bytes());
        total = total.wrapping_add(self.14.get_heap_size());
        assert(Self::obeys_size_spec() && self.heap_bytes() <= usize::MAX ==> total as nat
            == self.0.heap_bytes() + self.1.heap_bytes() + self.2.heap_bytes() + self.3.heap_bytes() + self.4.heap_bytes() + self.5.heap_bytes() + self.6.heap_bytes() + self.7.heap_bytes() + self.8.heap_bytes() + self.9.heap_bytes() + self.10.heap_bytes() + self.11.heap_bytes() + self.12.heap_bytes() + self.13.heap_bytes() + self.14.heap_bytes());
        total = total.wrapping_add(self.15.get_heap_size());
        assert(Self::obeys_size_spec() && self.heap_bytes() <= usize::MAX ==> total as nat
            == self.0.heap_bytes() + self.1.heap_bytes() + self.2.heap_bytes() + self.3.heap_bytes() + self.4.heap_bytes() + self.5.heap_bytes() + self.6.heap_bytes() + self.7.heap_bytes() + self.8.heap_bytes() + self.9.heap_bytes() + self.10.heap_bytes() + self.11.heap_bytes() + self.12.heap_bytes() + self.13.heap_bytes() + self.14.heap_bytes() + self.15.heap_bytes());
        total
    }
}

} // verus!
