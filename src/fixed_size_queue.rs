use vstd::prelude::*;

verus! {

/// A first-in first-out queue holding at most `SIZE` items, kept as a ring
/// over a plain vector.
pub struct FixedSizeQueue<T: Copy, const SIZE: usize> {
    data: Vec<T>,
    start: usize,
    length: usize,
}

impl<T: Copy, const SIZE: usize> FixedSizeQueue<T, SIZE> {
    /// Position in `data` of the `i`-th item counted from the front.
    pub closed spec fn slot(&self, i: int) -> int {
        if self.start + i < SIZE {
            self.start + i
        } else {
            self.start + i - SIZE
        }
    }

    pub closed spec fn view(&self) -> Seq<T> {
        Seq::new(self.length as nat, |i: int| self.data@[self.slot(i)])
    }

    /// The storage only grows until it holds `SIZE` items; before that the
    /// items sit in order right up to its end.
    pub closed spec fn wf(&self) -> bool {
        &&& self.data@.len() <= SIZE
        &&& self.length <= SIZE
        &&& self.start < SIZE || (self.start == 0 && SIZE == 0)
        &&& self.data@.len() == SIZE || self.start + self.length == self.data@.len()
    }

    pub fn new() -> (q: Self)
        ensures
            q.wf(),
            q@ == Seq::<T>::empty(),
    {
        let q = FixedSizeQueue { data: Vec::new(), start: 0, length: 0 };
        assert(q@ =~= Seq::<T>::empty());
        q
    }

    pub fn push(&mut self, t: T)
        requires
            old(self).wf(),
            old(self)@.len() < SIZE,
        ensures
            final(self).wf(),
            final(self)@ == old(self)@.push(t),
    {
        let pos: usize = if self.start < SIZE - self.length {
            self.start + self.length
        } else {
            self.length - (SIZE - self.start)
        };
        if pos == self.data.len() {
            self.data.push(t);
        } else {
            self.data.set(pos, t);
        }
        self.length = self.length + 1;
        assert(self@ =~= old(self)@.push(t));
    }

    pub fn remove(&mut self) -> (t: T)
        requires
            old(self).wf(),
            old(self)@.len() > 0,
        ensures
            final(self).wf(),
            t == old(self)@[0],
            final(self)@ == old(self)@.drop_first(),
    {
        let t = self.data[self.start];
        if self.start + 1 == SIZE {
            self.start = 0;
        } else {
            self.start = self.start + 1;
        }
        self.length = self.length - 1;
        assert(self@ =~= old(self)@.drop_first());
        t
    }

    pub fn clear(&mut self)
        requires
            old(self).wf(),
        ensures
            final(self).wf(),
            final(self)@ == Seq::<T>::empty(),
    {
        self.length = 0;
        if self.data.len() == SIZE {
            self.start = 0;
        } else {
            self.start = self.data.len();
        }
        assert(self@ =~= Seq::<T>::empty());
    }

    pub fn len(&self) -> (n: usize)
        requires
            self.wf(),
        ensures
            n == self@.len(),
    {
        self.length
    }

    /// The `index`-th item from the front.
    pub fn get(&self, index: usize) -> (t: T)
        requires
            self.wf(),
            index < self@.len(),
        ensures
            t == self@[index as int],
    {
        let pos: usize = if self.start < SIZE - index {
            self.start + index
        } else {
            index - (SIZE - self.start)
        };
        self.data[pos]
    }

    /// Replaces the `index`-th item from the front.
    pub fn set(&mut self, index: usize, t: T)
        requires
            old(self).wf(),
            index < old(self)@.len(),
        ensures
            final(self).wf(),
            final(self)@ == old(self)@.update(index as int, t),
    {
        let pos: usize = if self.start < SIZE - index {
            self.start + index
        } else {
            index - (SIZE - self.start)
        };
        self.data.set(pos, t);
        assert(self@ =~= old(self)@.update(index as int, t));
    }

    /// Appends every item of `items`, in order.
    pub fn fill(&mut self, items: &[T])
        requires
            old(self).wf(),
            old(self)@.len() + items@.len() <= SIZE,
        ensures
            final(self).wf(),
            final(self)@ == old(self)@ + items@,
    {
        let mut i: usize = 0;
        while i < items.len()
            invariant
                self.wf(),
                i <= items@.len(),
                old(self)@.len() + items@.len() <= SIZE,
                self@ == old(self)@ + items@.subrange(0, i as int),
            decreases items@.len() - i,
        {
            self.push(items[i]);
            i = i + 1;
            assert(items@.subrange(0, i as int) =~= items@.subrange(0, i - 1).push(items@[i - 1]));
        }
        assert(items@.subrange(0, i as int) =~= items@);
    }
}

} // verus!
