use vstd::prelude::*;

use crate::stream::WeightStream;

verus! {

/// A weighted-sum unit: a bias and one weight per input.
pub struct Neuron<W> {
    bias: W,
    weights: Vec<W>,
}

impl<W> Neuron<W> {
    #[verifier::type_invariant]
    spec fn inv(self) -> bool {
        self.weights.len() > 0
    }
}

impl<W> View for Neuron<W> {
    type V = Seq<W>;

    /// The neuron's values in stream order: the bias, then the weights.
    closed spec fn view(&self) -> Seq<W> {
        seq![self.bias] + self.weights@
    }
}

impl<W: Copy> Neuron<W> {
    pub fn new(bias: W, weights: Vec<W>) -> (r: Self)
        requires
            weights@.len() > 0,
        ensures
            r@ == seq![bias] + weights@,
    {
        Neuron { bias, weights }
    }

    /// Reads the bias, then `input_size` weights, from the front of `weights`.
    pub fn from_weights(input_size: usize, weights: &mut WeightStream<W>) -> (r: Self)
        requires
            input_size > 0,
            old(weights)@.len() >= input_size + 1,
        ensures
            r@ == old(weights)@.take(input_size + 1),
            final(weights)@ == old(weights)@.skip(input_size + 1),
    {
        let ghost start = weights@;
        let bias = weights.read();
        let mut ws: Vec<W> = Vec::new();
        let mut i: usize = 0;
        while i < input_size
            invariant
                i <= input_size,
                start.len() >= input_size + 1,
                weights@ == start.skip(1 + i),
                seq![bias] + ws@ == start.take(1 + i),
            decreases input_size - i,
        {
            assert(start.skip(1 + i)[0] == start[1 + i]);
            let ghost prev = seq![bias] + ws@;
            let w = weights.read();
            ws.push(w);
            assert(seq![bias] + ws@ =~= prev.push(w));
            assert(start.take(1 + i).push(start[1 + i]) =~= start.take(1 + i + 1));
            i = i + 1;
            assert(weights@ =~= start.skip(1 + i));
            assert(seq![bias] + ws@ =~= start.take(1 + i));
        }
        Neuron::new(bias, ws)
    }

    pub fn bias(&self) -> (r: W)
        ensures
            r == self@[0],
    {
        self.bias
    }

    pub fn weights(&self) -> (r: &Vec<W>)
        ensures
            r@ == self@.drop_first(),
    {
        assert(self.weights@ =~= self@.drop_first());
        &self.weights
    }

    /// The number of inputs the neuron takes.
    pub fn input_size(&self) -> (r: usize)
        ensures
            r + 1 == self@.len(),
            r > 0,
    {
        proof {
            use_type_invariant(self);
        }
        self.weights.len()
    }

    /// Appends the neuron's values in stream order to `out`.
    pub fn append_weights(&self, out: &mut Vec<W>)
        ensures
            final(out)@ == old(out)@ + self@,
    {
        out.push(self.bias);
        let mut i: usize = 0;
        while i < self.weights.len()
            invariant
                i <= self.weights@.len(),
                out@ == old(out)@ + seq![self.bias] + self.weights@.take(i as int),
            decreases self.weights@.len() - i,
        {
            out.push(self.weights[i]);
            i = i + 1;
            assert(out@ =~= old(out)@ + seq![self.bias] + self.weights@.take(i as int));
        }
        assert(out@ =~= old(out)@ + self@);
    }
}

} // verus!
