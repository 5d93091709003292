use vstd::prelude::*;

verus! {

/// A read-only forward cursor over the occupied elements of a container,
/// as they were when the cursor was made.
pub struct Iter<'vec, T> {
    elements: &'vec Vec<T>,
    len: usize,
    pos: usize,
}

impl<'vec, T> Iter<'vec, T> {
    /// The position never passes the captured length, which never passes the
    /// block's size.
    pub closed spec fn well_formed(&self) -> bool {
        self.pos <= self.len <= self.elements@.len()
    }

    /// The elements that the cursor traverses, in order.
    pub closed spec fn items(&self) -> Seq<T> {
        self.elements@.subrange(0, self.len as int)
    }

    /// The index of the next element to be yielded.
    pub closed spec fn position(&self) -> nat {
        self.pos as nat
    }

    /// A cursor over the first `len` slots of `elements`.
    pub(crate) fn new(elements: &'vec Vec<T>, len: usize) -> (r: Self)
        requires
            len <= elements@.len(),
        ensures
            r.well_formed(),
            r.items() == elements@.subrange(0, len as int),
            r.position() == 0,
    {
        Iter { elements, len, pos: 0 }
    }

    /// The next element, advancing by one; `None`, with nothing changed, once
    /// every element has been yielded.
    pub fn next(&mut self) -> (r: Option<&'vec T>)
        requires
            old(self).well_formed(),
        ensures
            final(self).well_formed(),
            final(self).items() == old(self).items(),
            crate::toy_vec::deref_opt(r) == crate::toy_vec::spec_get(old(self).items(), old(self).position() as int),
            final(self).position() == if old(self).position() < old(self).items().len() {
                old(self).position() + 1
            } else {
                old(self).position()
            },
    {
        if self.pos < self.len {
            let r = &self.elements[self.pos];
            self.pos = self.pos + 1;
            Some(r)
        } else {
            None
        }
    }
}

} // verus!
