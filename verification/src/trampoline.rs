//! Callback trampolines: host capabilities invoked from foreign code.
//!
//! The engine only understands plain function pointers plus one untyped
//! user-data pointer. Binding a host capability therefore stores it once,
//! hands the engine an opaque token for it, and lets each callback
//! reconstruct the capability from the token, dispatch, and marshal the
//! result back — never taking ownership during a call. The capability is
//! reclaimed exactly once, by [`CapabilityRegistry::release`], at the moment
//! the paired foreign object is destroyed: never earlier (the engine may
//! still call back), never later (a leak).
//!
//! [`CapabilityRegistry`] is the image of that discipline: binding appends a
//! slot, a token is the slot's index, dispatch requires the token to still
//! be bound, and releasing empties the slot and gives the capability back.

use vstd::prelude::*;
use crate::geometry::Vector2;
use crate::handle::{FBox, ForeignHeap};
use crate::shape::CustomShapePoints;

verus! {

/// The number of slots of `s` at positions `i` and after whose capability
/// has been reclaimed.
pub open spec fn count_released_from<T>(s: Seq<Option<T>>, i: int) -> int
    decreases s.len() - i,
{
    if i < 0 || i >= s.len() {
        0
    } else {
        (if s[i] is None { 1int } else { 0int }) + count_released_from(s, i + 1)
    }
}

/// The capabilities handed across the boundary, by the token the foreign
/// side holds for each.
pub struct CapabilityRegistry<T> {
    slots: Vec<Option<T>>,
}

impl<T> CapabilityRegistry<T> {
    /// Slot `t` holds the capability behind token `t`, or nothing once it
    /// has been released.
    pub closed spec fn slots(self) -> Seq<Option<T>> {
        self.slots@
    }

    /// True when token `t` was handed out and its capability has not been
    /// released.
    pub open spec fn bound(self, t: int) -> bool {
        0 <= t < self.slots().len() && self.slots()[t] is Some
    }

    /// The capability behind a bound token.
    pub open spec fn capability(self, t: int) -> T {
        self.slots()[t]->Some_0
    }

    /// How many capabilities have been released.
    pub open spec fn released(self) -> int {
        count_released_from(self.slots(), 0)
    }

    /// A registry with nothing bound.
    pub fn new() -> (r: CapabilityRegistry<T>)
        ensures
            r.slots() == Seq::<Option<T>>::empty(),
            r.released() == 0,
    {
        CapabilityRegistry { slots: Vec::new() }
    }

    /// Bind a capability: store it once and hand out the token — the one
    /// untyped value — that the foreign side will pass back to every
    /// callback and to the final release.
    pub fn bind(&mut self, capability: T) -> (token: usize)
        requires
            old(self).slots().len() < usize::MAX,
        ensures
            token == old(self).slots().len(),
            final(self).slots() == old(self).slots().push(Some(capability)),
            final(self).bound(token as int),
            final(self).capability(token as int) == capability,
            forall|t: int| t != token ==> final(self).bound(t) == old(self).bound(t),
            final(self).released() == old(self).released(),
    {
        let token = self.slots.len();
        self.slots.push(Some(capability));
        proof {
            lemma_count_released_push_some(old(self).slots(), capability, 0);
            assert forall|t: int| t != token implies self.bound(t) == old(self).bound(t) by {
                if 0 <= t < old(self).slots().len() {
                    assert(self.slots()[t] == old(self).slots()[t]);
                }
            }
        }
        token
    }

    /// True when the token is still paired with a live capability.
    pub fn is_bound(&self, token: usize) -> (r: bool)
        ensures
            r == self.bound(token as int),
    {
        token < self.slots.len() && self.slots[token].is_some()
    }

    /// Reclaim the capability: run exactly once, when the paired foreign
    /// object is destroyed. The token is dead afterwards; every other
    /// binding is untouched.
    pub fn release(&mut self, token: usize) -> (capability: T)
        requires
            old(self).bound(token as int),
        ensures
            capability == old(self).capability(token as int),
            final(self).slots() == old(self).slots().update(token as int, None),
            !final(self).bound(token as int),
            forall|t: int| t != token ==> final(self).bound(t) == old(self).bound(t),
            final(self).released() == old(self).released() + 1,
    {
        let mut taken: Option<T> = None;
        core::mem::swap(&mut self.slots[token], &mut taken);
        proof {
            lemma_count_released_update_none(old(self).slots(), token as int, 0);
            assert forall|t: int| t != token implies self.bound(t) == old(self).bound(t) by {
                if 0 <= t < old(self).slots().len() {
                    assert(self.slots()[t] == old(self).slots()[t]);
                }
            }
        }
        match taken {
            Some(capability) => capability,
            None => vstd::pervasive::unreached(),
        }
    }

    /// How many capabilities have been released so far.
    pub fn count_released(&self) -> (n: usize)
        ensures
            n == self.released(),
    {
        let mut n: usize = 0;
        let mut i: usize = 0;
        while i < self.slots.len()
            invariant
                0 <= i <= self.slots().len(),
                n + count_released_from(self.slots(), i as int) == self.released(),
                n <= i,
            decreases self.slots().len() - i,
        {
            if self.slots[i].is_none() {
                n = n + 1;
            }
            i = i + 1;
        }
        n
    }
}

/// Appending a bound slot leaves the released count unchanged.
proof fn lemma_count_released_push_some<T>(s: Seq<Option<T>>, capability: T, i: int)
    requires
        0 <= i <= s.len(),
    ensures
        count_released_from(s.push(Some(capability)), i) == count_released_from(s, i),
    decreases s.len() - i,
{
    let t = s.push(Some(capability));
    if i < s.len() {
        assert(t[i] == s[i]);
        lemma_count_released_push_some(s, capability, i + 1);
    } else {
        assert(t[i] == Some(capability));
        assert(count_released_from(t, i + 1) == 0);
    }
}

/// Emptying one bound slot raises the released count from any start at or
/// before it by one, and leaves the count from later starts unchanged.
proof fn lemma_count_released_update_none<T>(s: Seq<Option<T>>, j: int, i: int)
    requires
        0 <= j < s.len(),
        s[j] is Some,
        0 <= i <= s.len(),
    ensures
        count_released_from(s.update(j, None), i)
            == count_released_from(s, i) + (if i <= j { 1int } else { 0int }),
    decreases s.len() - i,
{
    if i < s.len() {
        lemma_count_released_update_none(s, j, i + 1);
    }
}

impl<T: CustomShapePoints> CapabilityRegistry<T> {
    /// The point-count trampoline: reconstruct the capability behind the
    /// token, dispatch, and hand the count back to the foreign caller.
    pub fn trampoline_point_count(&self, token: usize) -> usize
        requires
            self.bound(token as int),
    {
        match &self.slots[token] {
            Some(capability) => capability.point_count(),
            None => vstd::pervasive::unreached(),
        }
    }

    /// The point trampoline: reconstruct the capability behind the token,
    /// dispatch with the index the foreign caller supplied, and marshal the
    /// point back.
    pub fn trampoline_point(&self, token: usize, index: usize) -> Vector2
        requires
            self.bound(token as int),
    {
        match &self.slots[token] {
            Some(capability) => capability.point(index),
            None => vstd::pervasive::unreached(),
        }
    }

    /// What the engine does when told a shape's points changed: one
    /// point-count query, then one point query per index, in index order.
    /// Hands back the count the capability reported and exactly that many
    /// points.
    pub fn pull_points(&self, token: usize) -> (r: (usize, Vec<Vector2>))
        requires
            self.bound(token as int),
        ensures
            r.1@.len() == r.0,
    {
        let n = self.trampoline_point_count(token);
        let mut pulled: Vec<Vector2> = Vec::new();
        let mut i: usize = 0;
        while i < n
            invariant
                pulled@.len() == i,
                i <= n,
                self.bound(token as int),
            decreases n - i,
        {
            pulled.push(self.trampoline_point(token, i));
            i = i + 1;
        }
        (n, pulled)
    }
}

/// Tears down a foreign object together with the capability bound to it,
/// in the only safe order: the foreign destructor runs first — until it
/// returns, the engine may still invoke the callbacks — and only then is
/// the capability reclaimed. Exactly one destructor call and exactly one
/// release, paired one to one, with every other allocation and binding
/// left alone.
pub fn teardown_with_capability<C, T>(
    handle: FBox<C>,
    heap: &mut ForeignHeap,
    registry: &mut CapabilityRegistry<T>,
    token: usize,
) -> (capability: T)
    requires
        old(heap).live(handle.ptr()),
        old(registry).bound(token as int),
    ensures
        capability == old(registry).capability(token as int),
        final(heap).destructor_calls() == old(heap).destructor_calls() + 1,
        final(heap).constructor_calls() == old(heap).constructor_calls(),
        !final(heap).live(handle.ptr()),
        forall|q: int| q != handle.ptr() ==> final(heap).live(q) == old(heap).live(q),
        final(registry).released() == old(registry).released() + 1,
        !final(registry).bound(token as int),
        forall|t: int| t != token ==> final(registry).bound(t) == old(registry).bound(t),
{
    handle.dispose(heap);
    registry.release(token)
}

/// A host capability that consumes blocks of audio samples from the
/// engine's capture thread, and answers whether capturing should go on.
pub trait SoundRecorder {
    /// Consume one block of samples; `false` asks the engine to stop
    /// calling.
    fn on_process_samples(&mut self, samples: &[i16]) -> bool;
}

impl<T: SoundRecorder> CapabilityRegistry<T> {
    /// The sample-block trampoline: reconstruct the capability behind the
    /// token, let it consume the block, and hand its go-on answer back as
    /// the stop sentinel the engine understands. The binding survives the
    /// call — only `release` ends it — and no other binding is touched.
    pub fn trampoline_process(&mut self, token: usize, samples: &[i16]) -> (keep_going: bool)
        requires
            old(self).bound(token as int),
        ensures
            final(self).slots().len() == old(self).slots().len(),
            final(self).bound(token as int),
            forall|t: int|
                0 <= t < old(self).slots().len() && t != token
                    ==> final(self).slots()[t] == old(self).slots()[t],
            final(self).released() == old(self).released(),
    {
        let slot = &mut self.slots[token];
        let keep_going = match slot {
            Some(capability) => capability.on_process_samples(samples),
            None => vstd::pervasive::unreached(),
        };
        proof {
            assert(self.slots() == old(self).slots().update(token as int, self.slots()[token as int]));
            lemma_count_released_update_some(old(self).slots(), self.slots(), token as int, 0);
        }
        keep_going
    }

    /// What the engine's capture thread does with a stream of sample
    /// blocks: feed them to the capability in order, and stop the moment it
    /// answers `false`. The answers come back one per block actually
    /// delivered: every answer but possibly the last is `true`, and the run
    /// only falls short of the stream when the last answer was `false` — a
    /// capability that signalled stop is never called again.
    pub fn run_capture(&mut self, token: usize, blocks: &Vec<Vec<i16>>) -> (answers: Vec<bool>)
        requires
            old(self).bound(token as int),
        ensures
            final(self).slots().len() == old(self).slots().len(),
            final(self).bound(token as int),
            forall|t: int|
                0 <= t < old(self).slots().len() && t != token
                    ==> final(self).slots()[t] == old(self).slots()[t],
            final(self).released() == old(self).released(),
            answers@.len() <= blocks@.len(),
            forall|k: int| 0 <= k < answers@.len() - 1 ==> answers@[k] == true,
            answers@.len() < blocks@.len()
                ==> answers@.len() >= 1 && answers@[answers@.len() - 1] == false,
    {
        let mut answers: Vec<bool> = Vec::new();
        let mut i: usize = 0;
        let mut going = true;
        while going && i < blocks.len()
            invariant
                0 <= i <= blocks@.len(),
                answers@.len() == i,
                self.slots().len() == old(self).slots().len(),
                self.bound(token as int),
                forall|t: int|
                    0 <= t < old(self).slots().len() && t != token
                        ==> self.slots()[t] == old(self).slots()[t],
                self.released() == old(self).released(),
                going ==> forall|k: int| 0 <= k < i ==> answers@[k] == true,
                !going ==> i >= 1 && answers@[i - 1] == false && forall|k: int|
                    0 <= k < i - 1 ==> answers@[k] == true,
            decreases blocks@.len() - i,
        {
            let keep_going = self.trampoline_process(token, blocks[i].as_slice());
            answers.push(keep_going);
            if !keep_going {
                going = false;
            }
            i = i + 1;
        }
        answers
    }
}

/// Replacing one slot's contents with other contents of the same
/// boundness leaves the released count unchanged slot for slot.
proof fn lemma_count_released_update_some<T>(
    before: Seq<Option<T>>,
    after: Seq<Option<T>>,
    j: int,
    i: int,
)
    requires
        0 <= j < before.len(),
        after.len() == before.len(),
        before[j] is Some,
        after[j] is Some,
        forall|t: int| 0 <= t < before.len() && t != j ==> after[t] == before[t],
        0 <= i <= before.len(),
    ensures
        count_released_from(after, i) == count_released_from(before, i),
    decreases before.len() - i,
{
    if i < before.len() {
        lemma_count_released_update_some(before, after, j, i + 1);
    }
}

} // verus!
