use vstd::prelude::*;

verus! {

/// A flat sequence of weights read from the front, one value at a time.
pub struct WeightStream<W> {
    weights: Vec<W>,
    pos: usize,
}

impl<W> WeightStream<W> {
    #[verifier::type_invariant]
    spec fn inv(self) -> bool {
        self.pos <= self.weights.len()
    }
}

impl<W> View for WeightStream<W> {
    type V = Seq<W>;

    /// The values not read yet, in order.
    closed spec fn view(&self) -> Seq<W> {
        self.weights@.subrange(self.pos as int, self.weights@.len() as int)
    }
}

impl<W: Copy> WeightStream<W> {
    pub fn new(weights: Vec<W>) -> (r: Self)
        ensures
            r@ == weights@,
    {
        let r = WeightStream { weights, pos: 0 };
        assert(r@ =~= r.weights@);
        r
    }

    /// How many values are left to read.
    pub fn remaining(&self) -> (r: usize)
        ensures
            r == self@.len(),
    {
        proof {
            use_type_invariant(self);
        }
        self.weights.len() - self.pos
    }

    /// Reads the next value of a stream that is not exhausted.
    pub fn read(&mut self) -> (r: W)
        requires
            old(self)@.len() > 0,
        ensures
            r == old(self)@[0],
            final(self)@ == old(self)@.drop_first(),
    {
        proof {
            use_type_invariant(&*self);
        }
        let w = self.weights[self.pos];
        self.pos = self.pos + 1;
        assert(self@ =~= old(self)@.drop_first());
        w
    }

    /// Reads the next value, or `None` where the stream is exhausted.
    pub fn next(&mut self) -> (r: Option<W>)
        ensures
            old(self)@.len() == 0 ==> r is None && final(self)@ == old(self)@,
            old(self)@.len() > 0 ==> r == Some(old(self)@[0]) && final(self)@
                == old(self)@.drop_first(),
    {
        proof {
            use_type_invariant(&*self);
        }
        if self.pos < self.weights.len() {
            let w = self.weights[self.pos];
            self.pos = self.pos + 1;
            assert(self@ =~= old(self)@.drop_first());
            Some(w)
        } else {
            None
        }
    }
}

} // verus!
