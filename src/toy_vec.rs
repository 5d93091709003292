use crate::iter::Iter;
use vstd::prelude::*;

verus! {

/// The capacity that a full container grows to: one slot when it had none,
/// else twice as many.
pub open spec fn grown_capacity(cap: nat) -> nat {
    if cap == 0 {
        1
    } else {
        2 * cap
    }
}

/// The capacity after one append to a container of `len` elements and `cap`
/// slots: unchanged while there is a free slot, grown when it was full.
pub open spec fn capacity_after_push(len: nat, cap: nat) -> nat {
    if len < cap {
        cap
    } else {
        grown_capacity(cap)
    }
}

/// The element at `index` of the occupied sequence `s`, or `None` when the
/// index lies outside `[0, s.len())`.
pub open spec fn spec_get<T>(s: Seq<T>, index: int) -> Option<T> {
    if 0 <= index < s.len() {
        Some(s[index])
    } else {
        None
    }
}

/// Removing the last element of `s`: the remaining sequence and the removed
/// value, or `s` itself and `None` when it is empty.
pub open spec fn spec_pop<T>(s: Seq<T>) -> (Seq<T>, Option<T>) {
    if s.len() == 0 {
        (s, None)
    } else {
        (s.drop_last(), Some(s.last()))
    }
}

/// The value behind an optional reference.
pub open spec fn deref_opt<T>(o: Option<&T>) -> Option<T> {
    match o {
        Some(x) => Some(*x),
        None => None,
    }
}

/// A growable sequence. `elements` is the whole block of slots (its length is
/// the capacity); its first `len` slots are the occupied ones.
pub struct ToyVec<T> {
    elements: Vec<T>,
    len: usize,
}

impl<T> View for ToyVec<T> {
    type V = Seq<T>;

    /// The occupied elements, in index order.
    closed spec fn view(&self) -> Seq<T> {
        self.elements@.subrange(0, self.len as int)
    }
}

impl<T> ToyVec<T> {
    /// The occupied count never exceeds the number of slots.
    pub closed spec fn well_formed(&self) -> bool {
        self.len <= self.elements@.len()
    }

    /// The number of allocated slots.
    pub closed spec fn spec_capacity(&self) -> nat {
        self.elements@.len()
    }

    /// A well-formed container holds no more elements than it has slots.
    pub proof fn lemma_len_le_capacity(&self)
        requires
            self.well_formed(),
        ensures
            self@.len() <= self.spec_capacity(),
    {
    }
}

impl<T: Default> ToyVec<T> {
    /// An empty container with no slots.
    pub fn new() -> (r: Self)
        ensures
            r.well_formed(),
            r@ == Seq::<T>::empty(),
            r.spec_capacity() == 0,
    {
        Self::with_capacity(0)
    }

    /// An empty container with `capacity` default-initialised slots.
    pub fn with_capacity(capacity: usize) -> (r: Self)
        ensures
            r.well_formed(),
            r@ == Seq::<T>::empty(),
            r.spec_capacity() == capacity,
    {
        let r = ToyVec { elements: Self::allocate_in_heap(capacity), len: 0 };
        assert(r@ =~= Seq::<T>::empty());
        r
    }

    /// A fresh block of `size` slots, each holding `T`'s default value.
    fn allocate_in_heap(size: usize) -> (r: Vec<T>)
        ensures
            r@.len() == size,
    {
        let mut block: Vec<T> = Vec::with_capacity(size);
        let mut i: usize = 0;
        while i < size
            invariant
                i <= size,
                block@.len() == i,
            decreases size - i,
        {
            block.push(T::default());
            i = i + 1;
        }
        block
    }

    /// The number of occupied slots.
    pub fn len(&self) -> (r: usize)
        requires
            self.well_formed(),
        ensures
            r == self@.len(),
    {
        self.len
    }

    /// The number of allocated slots.
    pub fn capacity(&self) -> (r: usize)
        requires
            self.well_formed(),
        ensures
            r == self.spec_capacity(),
    {
        self.elements.len()
    }

    /// Appends `element` after the occupied slots, growing the block first when
    /// it is full.
    pub fn push(&mut self, element: T)
        requires
            old(self).well_formed(),
            old(self)@.len() < old(self).spec_capacity() || grown_capacity(
                old(self).spec_capacity(),
            ) <= usize::MAX,
        ensures
            final(self).well_formed(),
            final(self)@ == old(self)@.push(element),
            final(self).spec_capacity() == capacity_after_push(
                old(self)@.len(),
                old(self).spec_capacity(),
            ),
    {
        if self.len == self.elements.len() {
            self.grow();
        }
        let mut element = element;
        std::mem::swap(&mut self.elements[self.len], &mut element);
        self.len = self.len + 1;
    }

    /// A reference to the element at `index`, or `None` when `index` is not
    /// below the length.
    pub fn get(&self, index: usize) -> (r: Option<&T>)
        requires
            self.well_formed(),
        ensures
            deref_opt(r) == spec_get(self@, index as int),
    {
        if index < self.len {
            Some(&self.elements[index])
        } else {
            None
        }
    }

    /// The element at `index`, or `default` when there is none.
    pub fn get_or<'a>(&'a self, index: usize, default: &'a T) -> (r: &'a T)
        requires
            self.well_formed(),
        ensures
            *r == (if index < self@.len() {
                self@[index as int]
            } else {
                *default
            }),
    {
        match self.get(index) {
            Some(x) => x,
            None => default,
        }
    }

    /// Replaces the block by one of the grown capacity, moving every element to
    /// the same index of the new block.
    fn grow(&mut self)
        requires
            old(self).well_formed(),
            grown_capacity(old(self).spec_capacity()) <= usize::MAX,
        ensures
            final(self).well_formed(),
            final(self).len == old(self).len,
            final(self).elements@.subrange(0, old(self).elements@.len() as int)
                == old(self).elements@,
            final(self).spec_capacity() == grown_capacity(old(self).spec_capacity()),
    {
        let cap = self.elements.len();
        if cap == 0 {
            self.elements = Self::allocate_in_heap(1);
        } else {
            let mut old_elements = Self::allocate_in_heap(cap * 2);
            std::mem::swap(&mut self.elements, &mut old_elements);
            let ghost moved = old_elements@;
            let mut i: usize = 0;
            while i < cap
                invariant
                    i <= cap,
                    cap == moved.len(),
                    old_elements@.len() == cap,
                    self.elements@.len() == 2 * cap,
                    self.len == old(self).len,
                    moved == old(self).elements@,
                    forall|j: int| 0 <= j < i ==> self.elements@[j] == moved[j],
                    forall|j: int| i <= j < cap ==> old_elements@[j] == moved[j],
                decreases cap - i,
            {
                std::mem::swap(&mut self.elements[i], &mut old_elements[i]);
                i = i + 1;
            }
            assert(self.elements@.subrange(0, cap as int) =~= moved);
        }
    }

    /// Removes and returns the last occupied element, leaving `T`'s default
    /// value in its slot; `None` when the container is empty.
    pub fn pop(&mut self) -> (r: Option<T>)
        requires
            old(self).well_formed(),
        ensures
            final(self).well_formed(),
            (final(self)@, r) == spec_pop(old(self)@),
            final(self).spec_capacity() == old(self).spec_capacity(),
    {
        if self.len == 0 {
            None
        } else {
            self.len = self.len - 1;
            let mut elem = T::default();
            std::mem::swap(&mut self.elements[self.len], &mut elem);
            assert(self@ =~= old(self)@.drop_last());
            Some(elem)
        }
    }

    /// A cursor over the occupied elements, starting at the first.
    pub fn iter(&self) -> (r: Iter<'_, T>)
        requires
            self.well_formed(),
        ensures
            r.well_formed(),
            r.items() == self@,
            r.position() == 0,
    {
        Iter::new(&self.elements, self.len)
    }
}

} // verus!
