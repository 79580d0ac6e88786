use vstd::prelude::*;

verus! {

/// A sequence of items with a position in it: the cursor that the parser
/// moves over its tokens. The position never passes the end.
pub struct VecAndIndex<T> {
    vec: Vec<T>,
    next_pos: usize,
}

impl<T> VecAndIndex<T> {
    #[verifier::type_invariant]
    spec fn within_bounds(self) -> bool {
        self.next_pos <= self.vec.len()
    }

    /// The items, all of them, whatever the position.
    pub closed spec fn items(&self) -> Seq<T> {
        self.vec@
    }

    /// The index of the item that `next` would hand out.
    pub closed spec fn position(&self) -> int {
        self.next_pos as int
    }

    /// The item `n` places after the position, if there is one.
    pub open spec fn spec_peek(&self, n: int) -> Option<T> {
        if 0 <= self.position() + n < self.items().len() {
            Some(self.items()[self.position() + n])
        } else {
            None
        }
    }

    /// Whether the position lies within the items or just behind them.
    /// Every cursor that a function of this type hands out or leaves
    /// behind is in bounds.
    pub open spec fn in_bounds(&self) -> bool {
        0 <= self.position() <= self.items().len()
    }

    /// A cursor at the start of `vec`.
    pub fn new(vec: Vec<T>) -> (c: Self)
        ensures
            c.items() == vec@,
            c.position() == 0,
    {
        VecAndIndex { vec, next_pos: 0 }
    }

    /// Where the cursor stands.
    pub fn index(&self) -> (i: usize)
        ensures
            i == self.position(),
            self.in_bounds(),
    {
        proof {
            use_type_invariant(self);
        }
        self.next_pos
    }

    /// How many items there are.
    pub fn len(&self) -> (n: usize)
        ensures
            n == self.items().len(),
    {
        self.vec.len()
    }

    /// Hands out the item at the position and steps over it. At the end
    /// there is nothing to hand out and the cursor stays.
    pub fn next(&mut self) -> (r: Option<&T>)
        ensures
            final(self).items() == old(self).items(),
            match old(self).spec_peek(0) {
                Some(item) => r == Some(&item) && final(self).position() == old(self).position()
                    + 1,
                None => r is None && final(self).position() == old(self).position(),
            },
            old(self).in_bounds(),
            final(self).in_bounds(),
    {
        proof {
            use_type_invariant(&*self);
        }
        if self.next_pos < self.vec.len() {
            let ans = &self.vec[self.next_pos];
            self.next_pos += 1;
            Some(ans)
        } else {
            None
        }
    }

    /// Looks at the item `n` places after the position without moving.
    pub fn peek(&self, n: usize) -> (r: Option<&T>)
        ensures
            match self.spec_peek(n as int) {
                Some(item) => r == Some(&item),
                None => r is None,
            },
            self.in_bounds(),
    {
        proof {
            use_type_invariant(self);
        }
        if n < self.vec.len() - self.next_pos {
            Some(&self.vec[self.next_pos + n])
        } else {
            None
        }
    }

    /// Steps back over `n` items.
    pub fn rewind(&mut self, n: usize)
        requires
            n <= old(self).position(),
        ensures
            final(self).items() == old(self).items(),
            final(self).position() == old(self).position() - n,
            final(self).in_bounds(),
    {
        proof {
            use_type_invariant(&*self);
        }
        self.next_pos -= n;
    }

    /// Steps forward over `n` items.
    pub fn advance(&mut self, n: usize)
        requires
            old(self).position() + n <= old(self).items().len(),
        ensures
            final(self).items() == old(self).items(),
            final(self).position() == old(self).position() + n,
            final(self).in_bounds(),
    {
        proof {
            use_type_invariant(&*self);
        }
        self.next_pos += n;
    }
}

} // verus!
