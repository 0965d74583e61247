//! The display numbers that sessions run on.
use std::collections::HashSet;
use vstd::prelude::*;

verus! {

broadcast use vstd::std_specs::hash::group_hash_axioms;

/// The display numbers that can be given out: those that came back, and all from `next` on.
pub struct DisplayPool {
    next: u32,
    free: HashSet<u32>,
}

/// A pool in mathematical terms.
#[verifier::ext_equal]
pub struct PoolView {
    /// The least number that was never given out.
    pub next: u32,
    /// The numbers that came back.
    pub free: Set<u32>,
}

impl View for DisplayPool {
    type V = PoolView;

    closed spec fn view(&self) -> PoolView {
        PoolView { next: self.next, free: self.free@ }
    }
}

/// Whether the pool has a number left to give out.
pub open spec fn can_allocate(p: PoolView) -> bool {
    p.free.len() > 0 || p.next < u32::MAX
}

/// Whether giving out `num` leads from one pool to another: a number that came back, where there
/// is one, and else the next.
pub open spec fn allocated(p: PoolView, q: PoolView, num: u32) -> bool {
    if p.free.len() > 0 {
        p.free.contains(num) && q == (PoolView { free: p.free.remove(num), ..p })
    } else {
        num == p.next && q == (PoolView { next: (p.next + 1) as u32, ..p })
    }
}

/// The pool once `num` has come back.
pub open spec fn released(p: PoolView, num: u32) -> PoolView {
    PoolView { free: p.free.insert(num), ..p }
}

/// The pool once `num` has been taken out of it, whether it was given out before or not.
pub open spec fn reserved(p: PoolView, num: u32) -> PoolView {
    PoolView {
        next: if num >= p.next {
            (num + 1) as u32
        } else {
            p.next
        },
        free: p.free.remove(num),
    }
}

impl DisplayPool {
    /// A pool of all numbers from `start` on.
    pub fn new(start: u32) -> (r: Self)
        ensures
            r@ == (PoolView { next: start, free: Set::empty() }),
    {
        DisplayPool { next: start, free: HashSet::new() }
    }

    /// Whether the pool has a number left to give out.
    pub fn available(&self) -> (r: bool)
        ensures
            r == can_allocate(self@),
    {
        self.free.len() > 0 || self.next < u32::MAX
    }

    /// Gives out a number: one that came back, where there is one, and else the next.
    pub fn allocate(&mut self) -> (num: u32)
        requires
            can_allocate(old(self)@),
        ensures
            allocated(old(self)@, final(self)@, num),
    {
        let back = self.first_free();
        match back {
            Some(num) => {
                self.free.remove(&num);
                num
            },
            None => {
                let num: u32 = self.next;
                self.next = self.next + 1;
                num
            },
        }
    }

    fn first_free(&self) -> (r: Option<u32>)
        ensures
            match r {
                Some(num) => self@.free.contains(num) && self@.free.len() > 0,
                None => self@.free.len() == 0,
            },
    {
        for num in it: self.free.iter()
            invariant
                it.index() == 0,
                it.seq().unref().to_set() == self.free@,
                it.seq().len() == self.free@.len(),
        {
            assert(it.seq().unref()[0] == *num);
            assert(it.seq().unref().to_set().contains(*num));
            return Some(*num);
        }
        None
    }

    /// Takes a number back.
    pub fn release(&mut self, num: u32)
        ensures
            final(self)@ == released(old(self)@, num),
    {
        self.free.insert(num);
    }

    /// Takes `num` out of the pool, so that it is not given out while a session has it.
    pub fn reserve(&mut self, num: u32)
        requires
            num < u32::MAX,
        ensures
            final(self)@ == reserved(old(self)@, num),
    {
        self.free.remove(&num);
        if num >= self.next {
            self.next = num + 1;
        }
    }
}

// ---------------------------------------------------------------------------
// Laws
// ---------------------------------------------------------------------------

/// Whether a pool keeps apart the numbers in use and those that it can give out.
pub open spec fn keeps_apart(p: PoolView, used: Set<u32>) -> bool {
    &&& forall|n: u32| #[trigger] used.contains(n) ==> n < p.next && !p.free.contains(n)
    &&& forall|n: u32| #[trigger] p.free.contains(n) ==> n < p.next
}

/// A pool never gives out a number that is in use, and keeps it out of reach from then on.
pub proof fn allocation_is_exclusive(p: PoolView, q: PoolView, num: u32, used: Set<u32>)
    requires
        keeps_apart(p, used),
        can_allocate(p),
        allocated(p, q, num),
    ensures
        !used.contains(num),
        keeps_apart(q, used.insert(num)),
{
}

/// A number that comes back is no longer in use, and the others stay apart.
pub proof fn release_keeps_apart(p: PoolView, num: u32, used: Set<u32>)
    requires
        keeps_apart(p, used),
        used.contains(num),
    ensures
        keeps_apart(released(p, num), used.remove(num)),
{
}

/// A number that is reserved is in use from then on, and the others stay apart.
pub proof fn reservation_keeps_apart(p: PoolView, num: u32, used: Set<u32>)
    requires
        keeps_apart(p, used),
        num < u32::MAX,
    ensures
        keeps_apart(reserved(p, num), used.insert(num)),
{
}

/// A number that came back to a pool without others is the next to be given out.
pub proof fn released_numbers_are_reused(p: PoolView, q: PoolView, num: u32, again: u32)
    requires
        p.free.len() == 0,
        p.free.finite(),
        allocated(released(p, num), q, again),
    ensures
        again == num,
        q == p,
{
    assert(p.free =~= Set::empty());
    assert(released(p, num).free.len() == 1);
    assert(q.free =~= p.free);
}

/// A pool gives out numbers in order from its start on, as long as none comes back, and one that
/// came back before any new one.
pub proof fn numbers_are_given_in_order(
    start: u32,
    fresh: DisplayPool,
    p: &mut DisplayPool,
    num: u32,
)
    requires
        call_ensures(DisplayPool::new, (start,), fresh),
        can_allocate(old(p)@),
        call_ensures(DisplayPool::allocate, (p,), num),
    ensures
        fresh@.next == start,
        fresh@.free == Set::<u32>::empty(),
        old(p)@.free.len() == 0 ==> num == old(p)@.next && final(p)@.next == num + 1,
        old(p)@.free.len() > 0 ==> old(p)@.free.contains(num) && final(p)@.next == old(p)@.next
            && final(p)@.free == old(p)@.free.remove(num),
        old(p)@.free.len() == 0 ==> final(p)@.free == old(p)@.free,
{
}

/// A number that comes back can be given out, and one that is reserved cannot; no other number is
/// touched.
pub proof fn numbers_come_and_go(p: &mut DisplayPool, num: u32, q: &mut DisplayPool, taken: u32, n: u32)
    requires
        call_ensures(DisplayPool::release, (p, num), ()),
        taken < u32::MAX,
        call_ensures(DisplayPool::reserve, (q, taken), ()),
    ensures
        final(p)@.free.contains(n) <==> n == num || old(p)@.free.contains(n),
        final(p)@.next == old(p)@.next,
        final(q)@.free.contains(n) <==> n != taken && old(q)@.free.contains(n),
        final(q)@.next > taken,
        final(q)@.next == old(q)@.next || (final(q)@.next == taken + 1 && old(q)@.next <= taken),
{
}

/// A pool has a number to give as long as one came back or the next is below the last.
pub proof fn pools_run_out(p: &DisplayPool, r: bool)
    requires
        call_ensures(DisplayPool::available, (p,), r),
    ensures
        p@.free.len() > 0 ==> r,
        p@.free.len() == 0 ==> (r <==> p@.next < 0xffff_ffff),
{
}

} // verus!
