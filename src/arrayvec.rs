use vstd::prelude::*;

verus! {

/// The number of elements that a bulk copy moves into a buffer with `spare` free slots from a
/// source of `available` elements.
pub open spec fn copied_count(spare: int, available: int) -> int {
    if spare < available {
        spare
    } else {
        available
    }
}

/// A fixed-capacity, dynamic-length buffer. It never holds more than `CAP` elements: pushing
/// into a full buffer hands the element back, and bulk copies stop at the capacity.
#[derive(Debug)]
pub struct ArrayVec<T, const CAP: usize> {
    items: Vec<T>,
}

impl<T, const CAP: usize> View for ArrayVec<T, CAP> {
    type V = Seq<T>;

    /// The initialized elements, in order.
    closed spec fn view(&self) -> Seq<T> {
        self.items@
    }
}

impl<T, const CAP: usize> ArrayVec<T, CAP> {
    #[verifier::type_invariant]
    spec fn within_capacity(&self) -> bool {
        self.items@.len() <= CAP
    }

    /// Moves the elements out, leaving the buffer empty.
    fn take_items(&mut self) -> (r: Vec<T>)
        ensures
            r@ == old(self)@,
            r@.len() <= CAP,
            final(self)@ == Seq::<T>::empty(),
    {
        let mut emptied = ArrayVec { items: Vec::new() };
        core::mem::swap(self, &mut emptied);
        proof {
            use_type_invariant(&emptied);
        }
        let ArrayVec { items } = emptied;
        items
    }

    pub fn new() -> (r: Self)
        ensures
            r@ == Seq::<T>::empty(),
    {
        ArrayVec { items: Vec::new() }
    }

    /// Builds a buffer from the first `CAP` elements of `items`; the rest are dropped.
    pub fn from_iter(items: Vec<T>) -> (r: Self)
        ensures
            r@ == items@.take(copied_count(CAP as int, items@.len() as int)),
    {
        let mut r = Self::new();
        r.extend(items);
        r
    }

    pub fn len(&self) -> (r: usize)
        ensures
            r == self@.len(),
            r <= CAP,
    {
        proof {
            use_type_invariant(self);
        }
        self.items.len()
    }

    pub fn clear(&mut self)
        ensures
            final(self)@ == Seq::<T>::empty(),
    {
        *self = Self::new();
    }

    /// Appends `value`, or hands it back when the buffer is full.
    pub fn try_push(&mut self, value: T) -> (r: Result<(), T>)
        ensures
            old(self)@.len() < CAP ==> r == Ok::<(), T>(()) && final(self)@ == old(self)@.push(
                value,
            ),
            old(self)@.len() >= CAP ==> r == Err::<(), T>(value) && final(self)@ == old(self)@,
    {
        proof {
            use_type_invariant(&*self);
        }
        if self.items.len() < CAP {
            let mut items = self.take_items();
            items.push(value);
            *self = ArrayVec { items };
            Ok(())
        } else {
            Err(value)
        }
    }

    /// Appends `value` when there is room; a full buffer drops it.
    pub fn push(&mut self, value: T)
        ensures
            final(self)@ == if old(self)@.len() < CAP {
                old(self)@.push(value)
            } else {
                old(self)@
            },
    {
        let _ = self.try_push(value);
    }

    pub fn pop(&mut self) -> (r: Option<T>)
        ensures
            old(self)@.len() > 0 ==> r == Some(old(self)@.last()) && final(self)@ == old(
                self,
            )@.drop_last(),
            old(self)@.len() == 0 ==> r == None::<T> && final(self)@ == old(self)@,
    {
        let mut items = self.take_items();
        let r = items.pop();
        *self = ArrayVec { items };
        r
    }

    pub fn is_empty(&self) -> (r: bool)
        ensures
            r == (self@.len() == 0),
    {
        self.items.len() == 0
    }

    pub fn is_full(&self) -> (r: bool)
        ensures
            r == (self@.len() == CAP),
    {
        self.spare_capacity() == 0
    }

    pub fn spare_capacity(&self) -> (r: usize)
        ensures
            r == CAP - self@.len(),
    {
        proof {
            use_type_invariant(self);
        }
        CAP - self.items.len()
    }

    /// The initialized elements.
    pub fn as_slice(&self) -> (r: &[T])
        ensures
            r@ == self@,
    {
        self.items.as_slice()
    }

    /// Moves elements of `items` in, in order, until the buffer is full; the excess is dropped.
    pub fn extend(&mut self, source: Vec<T>)
        ensures
            final(self)@ == old(self)@ + source@.take(
                copied_count(CAP - old(self)@.len(), source@.len() as int),
            ),
    {
        proof {
            use_type_invariant(&*self);
        }
        let mut items = source;
        let spare = CAP - self.items.len();
        if spare < items.len() {
            items.truncate(spare);
        }
        assert(items@ == source@.take(copied_count(spare as int, source@.len() as int)));
        let mut held = self.take_items();
        held.append(&mut items);
        *self = ArrayVec { items: held };
    }

    /// Hands the elements out, first to last.
    pub fn into_iter(self) -> (r: ArrayVecIter<T, CAP>)
        ensures
            r@ == self@,
    {
        ArrayVecIter { items: self.items }
    }
}

impl<T: Copy, const CAP: usize> ArrayVec<T, CAP> {
    /// Copies elements of `slice` in, in order, until the buffer is full; the excess is left
    /// out without error.
    pub fn copy_from_slice(&mut self, slice: &[T])
        ensures
            final(self)@ == old(self)@ + slice@.take(
                copied_count(CAP - old(self)@.len(), slice@.len() as int),
            ),
    {
        proof {
            use_type_invariant(&*self);
        }
        let spare = CAP - self.items.len();
        let count = if spare < slice.len() {
            spare
        } else {
            slice.len()
        };
        let mut items = self.take_items();
        let mut i: usize = 0;
        while i < count
            invariant
                count == copied_count(CAP - old(self)@.len(), slice@.len() as int),
                count <= slice@.len(),
                old(self)@.len() + count <= CAP,
                i <= count,
                items@ == old(self)@ + slice@.take(i as int),
            decreases count - i,
        {
            items.push(slice[i]);
            assert(slice@.take(i + 1) == slice@.take(i as int).push(slice@[i as int]));
            i = i + 1;
        }
        *self = ArrayVec { items };
    }
}

impl<T: Clone, const CAP: usize> Clone for ArrayVec<T, CAP> {
    /// A buffer of the same length whose elements are clones of these.
    fn clone(&self) -> (r: Self)
        ensures
            r@.len() == self@.len(),
            forall|i: int| 0 <= i < self@.len() ==> cloned::<T>(self@[i], r@[i]),
    {
        proof {
            use_type_invariant(self);
        }
        ArrayVec { items: self.items.clone() }
    }
}

impl<T, const CAP: usize> Default for ArrayVec<T, CAP> {
    fn default() -> (r: Self)
        ensures
            r@ == Seq::<T>::empty(),
    {
        Self::new()
    }
}

/// Owns the elements of an `ArrayVec` and hands them out one by one, first to last.
#[derive(Debug)]
pub struct ArrayVecIter<T, const CAP: usize> {
    items: Vec<T>,
}

impl<T, const CAP: usize> View for ArrayVecIter<T, CAP> {
    type V = Seq<T>;

    /// The elements not yet handed out, in order.
    closed spec fn view(&self) -> Seq<T> {
        self.items@
    }
}

impl<T, const CAP: usize> ArrayVecIter<T, CAP> {
    pub fn next(&mut self) -> (r: Option<T>)
        ensures
            old(self)@.len() > 0 ==> r == Some(old(self)@[0]) && final(self)@ == old(self)@.drop_first(),
            old(self)@.len() == 0 ==> r == None::<T> && final(self)@ == old(self)@,
    {
        if self.items.len() == 0 {
            None
        } else {
            Some(self.items.remove(0))
        }
    }
}

} // verus!
