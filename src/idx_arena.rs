use std::marker::PhantomData;
use vstd::prelude::*;

verus! {

/// A handle to a value stored in an `Arena<T>`: a position, tagged with the
/// element type at compile time only.
#[derive(Debug)]
pub struct Idx<T> {
    inner: usize,
    phantom: PhantomData<T>,
}

impl<T> Idx<T> {
    /// The position that this handle names.
    pub closed spec fn pos(&self) -> nat {
        self.inner as nat
    }

    /// A handle for position `idx`.
    pub fn new(idx: usize) -> (r: Self)
        ensures
            r.pos() == idx,
    {
        Self { inner: idx, phantom: PhantomData }
    }
}

impl<T> Clone for Idx<T> {
    fn clone(&self) -> (r: Self)
        ensures
            r == *self,
    {
        *self
    }
}

impl<T> Copy for Idx<T> {
}

impl<T> PartialEq for Idx<T> {
    fn eq(&self, o: &Self) -> (r: bool) {
        self.inner == o.inner
    }
}

impl<T> vstd::std_specs::cmp::PartialEqSpecImpl for Idx<T> {
    open spec fn obeys_eq_spec() -> bool {
        true
    }

    open spec fn eq_spec(&self, o: &Self) -> bool {
        self.pos() == o.pos()
    }
}

impl<T> Eq for Idx<T> {
}

/// An append-only store of values of type `T`. It owns every value it holds,
/// hands out an `Idx<T>` for each, and never removes or reorders one.
pub struct Arena<T> {
    v: Vec<T>,
}

impl<T> View for Arena<T> {
    /// The stored values, in insertion order.
    type V = Seq<T>;

    closed spec fn view(&self) -> Seq<T> {
        self.v@
    }
}

/// What a lookup of position `i` in the stored values `s` yields.
pub open spec fn lookup<T>(s: Seq<T>, i: nat) -> Option<T> {
    if i < s.len() {
        Some(s[i as int])
    } else {
        None
    }
}

/// The stored values after `vals` are inserted one by one, in order, into an
/// arena holding `s`: each insertion appends, as `Arena::insert` states.
pub open spec fn after_inserts<T>(s: Seq<T>, vals: Seq<T>) -> Seq<T>
    decreases vals.len(),
{
    if vals.len() == 0 {
        s
    } else {
        after_inserts(s, vals.drop_last()).push(vals.last())
    }
}

/// Every insertion adds exactly one value: after `vals.len()` insertions into
/// an arena of length `s.len()`, the length is the sum of the two (so, from an
/// empty arena, the number of insertions).
pub proof fn lemma_len_after_inserts<T>(s: Seq<T>, vals: Seq<T>)
    ensures
        after_inserts(s, vals).len() == s.len() + vals.len(),
        after_inserts(Seq::<T>::empty(), vals).len() == vals.len(),
    decreases vals.len(),
{
    if vals.len() > 0 {
        lemma_len_after_inserts(s, vals.drop_last());
        lemma_len_after_inserts(Seq::<T>::empty(), vals.drop_last());
    }
}

/// Insertion leaves earlier values alone: any handle that finds a value before
/// further insertions finds the same value after them.
pub proof fn lemma_inserts_keep_earlier<T>(s: Seq<T>, vals: Seq<T>, h: Idx<T>)
    requires
        h.pos() < s.len(),
    ensures
        lookup(after_inserts(s, vals), h.pos()) == lookup(s, h.pos()),
    decreases vals.len(),
{
    if vals.len() > 0 {
        lemma_inserts_keep_earlier(s, vals.drop_last(), h);
        lemma_len_after_inserts(s, vals.drop_last());
    }
}

/// The handle returned for an inserted value `v` (its position is the length
/// before the insertion) finds `v` right away and after any number of
/// further insertions.
pub proof fn lemma_inserted_stays<T>(s: Seq<T>, v: T, vals: Seq<T>, h: Idx<T>)
    requires
        h.pos() == s.len(),
    ensures
        lookup(s.push(v), h.pos()) == Some(v),
        lookup(after_inserts(s.push(v), vals), h.pos()) == Some(v),
{
    lemma_inserts_keep_earlier(s.push(v), vals, h);
}

/// A value written through the reference that `Arena::get_mut` hands out for
/// `h` is what a later lookup of `h` finds; every other handle finds what it
/// found before.
pub proof fn lemma_mutation_visible<T>(s: Seq<T>, h: Idx<T>, x: T, other: Idx<T>)
    requires
        h.pos() < s.len(),
    ensures
        lookup(s.update(h.pos() as int, x), h.pos()) == Some(x),
        other.pos() != h.pos() ==> lookup(s.update(h.pos() as int, x), other.pos()) == lookup(
            s,
            other.pos(),
        ),
{
}

impl<T> Arena<T> {
    /// An empty arena.
    pub fn new() -> (r: Self)
        ensures
            r@ == Seq::<T>::empty(),
    {
        Self { v: Vec::new() }
    }

    /// The number of values stored.
    pub fn len(&self) -> (r: usize)
        ensures
            r == self@.len(),
    {
        self.v.len()
    }

    /// Appends `item` and returns its handle, whose position is the length
    /// before the call.
    pub fn insert(&mut self, item: T) -> (r: Idx<T>)
        ensures
            final(self)@ == old(self)@.push(item),
            r.pos() == old(self)@.len(),
    {
        let n = self.v.len();
        self.v.push(item);
        Idx::new(n)
    }

    /// The value at `idx`, or `None` where its position is not below `len()`.
    pub fn get(&self, idx: Idx<T>) -> (r: Option<&T>)
        ensures
            r.is_some() == (idx.pos() < self@.len()),
            r.is_some() ==> Some(*r.unwrap()) == lookup(self@, idx.pos()),
    {
        if idx.inner < self.v.len() {
            Some(&self.v[idx.inner])
        } else {
            None
        }
    }

    /// Exclusive access to the value at `idx`, or `None` where its position is
    /// not below `len()`. Whatever is written through the reference is what
    /// the arena holds at that position afterwards; nothing else changes.
    pub fn get_mut(&mut self, idx: Idx<T>) -> (r: Option<&mut T>)
        ensures
            r.is_some() == (idx.pos() < old(self)@.len()),
            r.is_some() ==> Some(*r.unwrap()) == lookup(old(self)@, idx.pos()),
            r.is_some() ==> final(self)@ == old(self)@.update(
                idx.pos() as int,
                *final(r.unwrap()),
            ),
            r.is_none() ==> final(self)@ == old(self)@,
    {
        if idx.inner < self.v.len() {
            Some(&mut self.v[idx.inner])
        } else {
            None
        }
    }
}

} // verus!
