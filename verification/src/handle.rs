//! Unique ownership of foreign allocations.
//!
//! Every object the engine hands out lives behind a pointer from the foreign
//! allocator and must be given back to the matching foreign destructor
//! exactly once. [`ForeignHeap`] is the instrumented image of that allocator:
//! it records which addresses are live and how many constructor and
//! destructor calls have crossed the boundary, so the exactly-once rule is a
//! provable statement. [`FBox`] is the owning handle: it holds one non-null
//! address, cannot be duplicated except through the foreign copy constructor,
//! and is consumed by [`FBox::dispose`].

use vstd::prelude::*;
use core::marker::PhantomData;

verus! {

/// The foreign classes this layer touches, as marker types.
///
/// A foreign object is never constructed or inspected on this side; it
/// exists only behind a pointer from the foreign allocator. Each class gets
/// its own empty marker type, so a handle to an object of one class can
/// never stand where a handle to another class is owed — a compile-time
/// boundary with no runtime behavior.
#[derive(Debug)]
pub struct ViewClass;

/// Marker for the engine's rendering-context class.
#[derive(Debug)]
pub struct ContextClass;

/// Marker for the engine's circle-shape class.
#[derive(Debug)]
pub struct CircleShapeClass;

/// Marker for the engine's custom-shape class.
#[derive(Debug)]
pub struct CustomShapeClass;

/// Marker for the engine's texture class.
#[derive(Debug)]
pub struct TextureClass;

/// Marker for the engine's string class.
#[derive(Debug)]
pub struct StringClass;

/// Marker for the engine's vector-of-strings class.
#[derive(Debug)]
pub struct StringVectorClass;

/// Marker for the engine's monotonic-clock class.
#[derive(Debug)]
pub struct ClockClass;

/// What the foreign allocator knows about one address it has handed out.
#[derive(Clone, Copy, PartialEq, Eq, Structural, Debug)]
pub enum SlotState {
    /// The allocation is alive; the destructor has not run.
    Live,
    /// The destructor has run; the address must not be used again.
    Freed,
}

/// The foreign factory returned null: out of memory, or the foreign
/// constructor itself failed.
#[derive(Clone, Copy, PartialEq, Eq, Structural, Debug)]
pub struct AllocationError;

/// The number of freed slots of `s` at positions `i` and after.
pub open spec fn count_freed_from(s: Seq<SlotState>, i: int) -> int
    decreases s.len() - i,
{
    if i < 0 || i >= s.len() {
        0
    } else {
        (if s[i] == SlotState::Freed { 1int } else { 0int }) + count_freed_from(s, i + 1)
    }
}

/// The instrumented image of the foreign allocator.
///
/// Address `p` (non-null, so `p >= 1`) is the allocation made by the `p`-th
/// constructor call; address 0 is null and never allocated. One constructor
/// call is recorded per slot, so the number of constructor calls is the
/// number of slots, and the number of destructor calls is the number of
/// freed slots. The exhaustion switch stands for the machine running out of
/// memory: while it is set, every factory call returns null and constructs
/// nothing.
pub struct ForeignHeap {
    slots: Vec<SlotState>,
    exhausted: bool,
}

impl ForeignHeap {
    /// The state of every address handed out so far: entry `p - 1` is the
    /// state of address `p`.
    pub closed spec fn slots(self) -> Seq<SlotState> {
        self.slots@
    }

    /// True when `p` is an address the allocator handed out and has not yet
    /// destroyed.
    pub open spec fn live(self, p: int) -> bool {
        1 <= p <= self.slots().len() && self.slots()[p - 1] == SlotState::Live
    }

    /// How many constructor calls have crossed the boundary.
    pub open spec fn constructor_calls(self) -> int {
        self.slots().len() as int
    }

    /// How many destructor calls have crossed the boundary.
    pub open spec fn destructor_calls(self) -> int {
        count_freed_from(self.slots(), 0)
    }

    /// True when the allocator has no memory for another object.
    pub closed spec fn exhausted(self) -> bool {
        self.exhausted
    }

    /// An allocator that has not yet been asked for anything.
    pub fn new() -> (r: ForeignHeap)
        ensures
            r.slots() == Seq::<SlotState>::empty(),
            r.constructor_calls() == 0,
            r.destructor_calls() == 0,
            !r.exhausted(),
    {
        ForeignHeap { slots: Vec::new(), exhausted: false }
    }

    /// Flips the exhaustion switch: the stub's way of acting out a machine
    /// that has run out of memory (or has it again).
    pub fn set_exhausted(&mut self, exhausted: bool)
        ensures
            final(self).exhausted() == exhausted,
            final(self).slots() == old(self).slots(),
    {
        self.exhausted = exhausted;
    }

    /// One foreign factory call: a fresh non-null address, or null — and
    /// nothing constructed — while the allocator is exhausted.
    pub fn allocate(&mut self) -> (p: usize)
        requires
            old(self).slots().len() < usize::MAX,
        ensures
            final(self).exhausted() == old(self).exhausted(),
            old(self).exhausted() ==> p == 0 && final(self).slots() == old(self).slots(),
            !old(self).exhausted() ==> p == old(self).slots().len() + 1 && final(self).slots()
                == old(self).slots().push(SlotState::Live) && final(self).live(p as int),
            forall|q: int| q != p ==> final(self).live(q) == old(self).live(q),
            final(self).destructor_calls() == old(self).destructor_calls(),
    {
        if self.exhausted {
            return 0;
        }
        self.slots.push(SlotState::Live);
        let p = self.slots.len();
        proof {
            lemma_count_freed_push_live(old(self).slots(), 0);
            assert forall|q: int| q != p implies self.live(q) == old(self).live(q) by {
                if 1 <= q <= old(self).slots().len() {
                    assert(self.slots()[q - 1] == old(self).slots()[q - 1]);
                }
            }
        }
        p
    }

    /// One foreign copy-constructor call: a fresh allocation whose contents
    /// the engine copies from the live allocation at `p` — never an alias —
    /// or null while the allocator is exhausted.
    pub fn allocate_copy(&mut self, p: usize) -> (q: usize)
        requires
            old(self).live(p as int),
            old(self).slots().len() < usize::MAX,
        ensures
            final(self).exhausted() == old(self).exhausted(),
            old(self).exhausted() ==> q == 0 && final(self).slots() == old(self).slots(),
            !old(self).exhausted() ==> {
                &&& q == old(self).slots().len() + 1
                &&& q != p
                &&& final(self).slots() == old(self).slots().push(SlotState::Live)
                &&& final(self).live(q as int)
            },
            final(self).live(p as int),
            final(self).destructor_calls() == old(self).destructor_calls(),
    {
        let q = self.allocate();
        q
    }

    /// One foreign destructor call on the live allocation at `p`.
    pub fn free(&mut self, p: usize)
        requires
            old(self).live(p as int),
        ensures
            final(self).slots() == old(self).slots().update(p - 1, SlotState::Freed),
            !final(self).live(p as int),
            forall|q: int| q != p ==> final(self).live(q) == old(self).live(q),
            final(self).constructor_calls() == old(self).constructor_calls(),
            final(self).destructor_calls() == old(self).destructor_calls() + 1,
            final(self).exhausted() == old(self).exhausted(),
    {
        self.slots.set(p - 1, SlotState::Freed);
        proof {
            lemma_count_freed_update(old(self).slots(), p - 1, 0);
            assert forall|q: int| q != p implies self.live(q) == old(self).live(q) by {
                if 1 <= q <= old(self).slots().len() && q != p {
                    assert(self.slots()[q - 1] == old(self).slots()[q - 1]);
                }
            }
        }
    }

    /// True when `p` is an address the allocator handed out and has not
    /// yet destroyed.
    pub fn is_live(&self, p: usize) -> (r: bool)
        ensures
            r == self.live(p as int),
    {
        1 <= p && p <= self.slots.len() && matches!(self.slots[p - 1], SlotState::Live)
    }

    /// How many destructor calls have crossed the boundary.
    pub fn count_destructor_calls(&self) -> (n: usize)
        ensures
            n == self.destructor_calls(),
    {
        let mut n: usize = 0;
        let mut i: usize = 0;
        while i < self.slots.len()
            invariant
                0 <= i <= self.slots().len(),
                n + count_freed_from(self.slots(), i as int) == self.destructor_calls(),
                n <= i,
            decreases self.slots().len() - i,
        {
            if matches!(self.slots[i], SlotState::Freed) {
                n = n + 1;
            }
            i = i + 1;
        }
        n
    }

    /// How many constructor calls have crossed the boundary.
    pub fn count_constructor_calls(&self) -> (n: usize)
        ensures
            n == self.constructor_calls(),
    {
        self.slots.len()
    }
}

/// Appending a live slot leaves the freed-slot count unchanged.
proof fn lemma_count_freed_push_live(s: Seq<SlotState>, i: int)
    requires
        0 <= i <= s.len(),
    ensures
        count_freed_from(s.push(SlotState::Live), i) == count_freed_from(s, i),
    decreases s.len() - i,
{
    let t = s.push(SlotState::Live);
    if i < s.len() {
        assert(t[i] == s[i]);
        lemma_count_freed_push_live(s, i + 1);
    } else {
        assert(t[i] == SlotState::Live);
        assert(count_freed_from(t, i + 1) == 0);
    }
}

/// Freeing one live slot raises the freed-slot count from any start at or
/// before it by one, and leaves the count from later starts unchanged.
proof fn lemma_count_freed_update(s: Seq<SlotState>, j: int, i: int)
    requires
        0 <= j < s.len(),
        s[j] == SlotState::Live,
        0 <= i <= s.len(),
    ensures
        count_freed_from(s.update(j, SlotState::Freed), i)
            == count_freed_from(s, i) + (if i <= j { 1int } else { 0int }),
    decreases s.len() - i,
{
    if i < s.len() {
        lemma_count_freed_update(s, j, i + 1);
    }
}

/// The owning handle over one foreign allocation of class `C` (one of the
/// marker types above).
///
/// Holds exactly one non-null address. There is no way to copy the handle
/// itself; a second handle to equivalent contents only comes from
/// [`FBox::clone_in`], which makes a fresh foreign allocation. Destruction
/// goes through [`FBox::dispose`], which consumes the handle, so the foreign
/// destructor cannot run twice for one handle. The class parameter keeps
/// handles of different foreign classes apart at compile time.
#[derive(Debug)]
pub struct FBox<C> {
    ptr: usize,
    class: PhantomData<C>,
}

impl<C> FBox<C> {
    /// The address this handle owns.
    pub closed spec fn ptr(self) -> int {
        self.ptr as int
    }

    /// A handle's address is never null.
    #[verifier::type_invariant]
    spec fn ptr_nonnull(self) -> bool {
        self.ptr >= 1
    }

    /// Takes ownership of an address a foreign factory returned.
    ///
    /// Succeeds exactly when the address is non-null; a null address is the
    /// factory's way of reporting that construction failed, and no handle —
    /// and so no later destructor call — comes from it.
    pub fn acquire(ptr: usize) -> (r: Result<FBox<C>, AllocationError>)
        ensures
            ptr != 0 <==> r is Ok,
            r is Ok ==> r->Ok_0.ptr() == ptr,
    {
        if ptr == 0 {
            Err(AllocationError)
        } else {
            Ok(FBox { ptr, class: PhantomData })
        }
    }

    /// The address, for handing to foreign calls that borrow the object.
    pub fn as_ptr(&self) -> (p: usize)
        ensures
            p == self.ptr(),
            p >= 1,
    {
        proof {
            use_type_invariant(&*self);
        }
        self.ptr
    }

    /// One foreign copy-constructor call: a second, independent allocation
    /// with its own handle. The two handles never share an address. An
    /// exhausted allocator would make the copy constructor return null,
    /// which this operation answers with a panic — copy failure is resource
    /// exhaustion the caller cannot meaningfully recover from — so that
    /// input is excluded here.
    pub fn clone_in(&self, heap: &mut ForeignHeap) -> (r: FBox<C>)
        requires
            old(heap).live(self.ptr()),
            old(heap).slots().len() < usize::MAX,
            !old(heap).exhausted(),
        ensures
            r.ptr() != self.ptr(),
            final(heap).live(r.ptr()),
            final(heap).live(self.ptr()),
            final(heap).slots() == old(heap).slots().push(SlotState::Live),
            final(heap).constructor_calls() == old(heap).constructor_calls() + 1,
            final(heap).destructor_calls() == old(heap).destructor_calls(),
            final(heap).exhausted() == old(heap).exhausted(),
    {
        let q = heap.allocate_copy(self.ptr);
        FBox { ptr: q, class: PhantomData }
    }

    /// Gives the allocation back: exactly one foreign destructor call, on
    /// exactly this handle's address. The handle is consumed, so no second
    /// call can be made through it.
    pub fn dispose(self, heap: &mut ForeignHeap)
        requires
            old(heap).live(self.ptr()),
        ensures
            final(heap).slots() == old(heap).slots().update(self.ptr() - 1, SlotState::Freed),
            !final(heap).live(self.ptr()),
            forall|q: int| q != self.ptr() ==> final(heap).live(q) == old(heap).live(q),
            final(heap).constructor_calls() == old(heap).constructor_calls(),
            final(heap).destructor_calls() == old(heap).destructor_calls() + 1,
            final(heap).exhausted() == old(heap).exhausted(),
    {
        heap.free(self.ptr);
    }
}

/// Destruction of a clone is independent of the original: freeing one live
/// address leaves every other address exactly as it was, so disposing of the
/// clone cannot run the original's destructor, and the other way round.
pub proof fn lemma_dispose_independent(before: ForeignHeap, after: ForeignHeap, p: int, q: int)
    requires
        before.live(p),
        after.slots() == before.slots().update(p - 1, SlotState::Freed),
        q != p,
    ensures
        after.live(q) == before.live(q),
        !after.live(p),
{
    if 1 <= q <= before.slots().len() {
        assert(after.slots()[q - 1] == before.slots()[q - 1]);
    }
}

} // verus!
