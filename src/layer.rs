use vstd::prelude::*;

use crate::encoding::{concat, decode_layer, lemma_concat_take_step, layer_len};
use crate::neuron::Neuron;
use crate::stream::WeightStream;

verus! {

/// A non-empty row of neurons that all take the same number of inputs.
pub struct Layer<W> {
    neurons: Vec<Neuron<W>>,
}

impl<W> Layer<W> {
    #[verifier::type_invariant]
    spec fn inv(self) -> bool {
        &&& self.neurons.len() > 0
        &&& forall|i: int|
            0 <= i < self.neurons.len() ==> (#[trigger] self.neurons@[i])@.len()
                == self.neurons@[0]@.len()
    }
}

impl<W> View for Layer<W> {
    type V = Seq<Seq<W>>;

    /// Each neuron's values in stream order, neuron after neuron.
    closed spec fn view(&self) -> Seq<Seq<W>> {
        self.neurons@.map_values(|n: Neuron<W>| n@)
    }
}

impl<W: Copy> Layer<W> {
    pub fn new(neurons: Vec<Neuron<W>>) -> (r: Self)
        requires
            neurons@.len() > 0,
            forall|i: int|
                0 <= i < neurons@.len() ==> (#[trigger] neurons@[i])@.len() == neurons@[0]@.len(),
        ensures
            r@ == neurons@.map_values(|n: Neuron<W>| n@),
    {
        Layer { neurons }
    }

    /// Reads `output_size` neurons of `input_size` inputs each from the front
    /// of `weights`, neuron 0 first.
    pub fn from_weights(input_size: usize, output_size: usize, weights: &mut WeightStream<W>) -> (r: Self)
        requires
            input_size > 0,
            output_size > 0,
            old(weights)@.len() >= layer_len(input_size as int, output_size as int),
        ensures
            r@ == decode_layer(input_size as int, output_size as int, old(weights)@),
            final(weights)@ == old(weights)@.skip(layer_len(input_size as int, output_size as int)),
    {
        let ghost start = weights@;
        let ghost k = input_size + 1;
        let mut neurons: Vec<Neuron<W>> = Vec::new();
        let mut j: usize = 0;
        while j < output_size
            invariant
                j <= output_size,
                input_size > 0,
                k == input_size + 1,
                start.len() >= output_size * k,
                weights@ == start.skip(j * k),
                neurons@.map_values(|n: Neuron<W>| n@) == decode_layer(
                    input_size as int,
                    j as int,
                    start,
                ),
            decreases output_size - j,
        {
            assert(j * k + k <= output_size * k) by (nonlinear_arith)
                requires
                    j < output_size,
                    0 <= k,
            ;
            assert(0 <= j * k) by (nonlinear_arith)
                requires
                    0 <= j,
                    0 <= k,
            ;
            let ghost prev = neurons@.map_values(|n: Neuron<W>| n@);
            let neuron = Neuron::from_weights(input_size, weights);
            assert(neuron@ =~= start.subrange(j * k, j * k + k));
            neurons.push(neuron);
            assert(weights@ =~= start.skip(j * k + k));
            assert((j + 1) * k == j * k + k) by (nonlinear_arith);
            j = j + 1;
            assert(neurons@.map_values(|n: Neuron<W>| n@) =~= prev.push(neuron@));
            assert(neurons@.map_values(|n: Neuron<W>| n@) =~= decode_layer(
                input_size as int,
                j as int,
                start,
            ));
        }
        let ghost v = neurons@.map_values(|n: Neuron<W>| n@);
        assert forall|i: int| 0 <= i < neurons.len() implies (#[trigger] neurons@[i])@.len()
            == neurons@[0]@.len() by {
            assert(neurons@[i]@ == v[i]);
            assert(neurons@[0]@ == v[0]);
            assert(0 <= i * k && i * k + k <= output_size * k) by (nonlinear_arith)
                requires
                    0 <= i < output_size,
                    0 <= k,
            ;
            assert(0 + k <= output_size * k) by (nonlinear_arith)
                requires
                    0 < output_size,
                    0 <= k,
            ;
        }
        let r = Layer { neurons };
        r
    }

    pub fn neurons(&self) -> (r: &Vec<Neuron<W>>)
        ensures
            r@.map_values(|n: Neuron<W>| n@) == self@,
    {
        &self.neurons
    }

    /// The number of inputs that each neuron of the layer takes.
    pub fn input_size(&self) -> (r: usize)
        ensures
            r > 0,
            forall|j: int| 0 <= j < self@.len() ==> (#[trigger] self@[j]).len() == r + 1,
    {
        proof {
            use_type_invariant(self);
        }
        self.neurons[0].input_size()
    }

    /// The number of neurons, which is the number of outputs.
    pub fn output_size(&self) -> (r: usize)
        ensures
            r == self@.len(),
            r > 0,
    {
        proof {
            use_type_invariant(self);
        }
        self.neurons.len()
    }

    /// Appends the layer's values in stream order to `out`.
    pub fn append_weights(&self, out: &mut Vec<W>)
        ensures
            final(out)@ == old(out)@ + concat(self@),
    {
        let mut j: usize = 0;
        while j < self.neurons.len()
            invariant
                j <= self@.len(),
                self@.len() == self.neurons@.len(),
                out@ == old(out)@ + concat(self@.take(j as int)),
            decreases self@.len() - j,
        {
            proof {
                lemma_concat_take_step(self@, j as int);
            }
            self.neurons[j].append_weights(out);
            j = j + 1;
            assert(out@ =~= old(out)@ + concat(self@.take(j as int)));
        }
        assert(self@.take(j as int) =~= self@);
    }
}

} // verus!
