use vstd::prelude::*;

use crate::encoding::{
    concat, decode_layer, decode_network, encode_network, layer_len, layer_offset,
    lemma_concat_take_step, lemma_decode_has_shape, lemma_network_round_trip,
    lemma_offset_monotone, valid_sizes, weight_count,
};
use crate::layer::Layer;
use crate::stream::WeightStream;

verus! {

/// A non-empty sequence of layers, each taking as many inputs as the layer
/// before it has neurons.
pub struct Network<W> {
    layers: Vec<Layer<W>>,
}

impl<W> Network<W> {
    #[verifier::type_invariant]
    spec fn inv(self) -> bool {
        &&& self.layers.len() > 0
        &&& forall|i: int|
            0 <= i < self.layers.len() - 1 ==> (#[trigger] self.layers@[i + 1])@[0].len()
                == self.layers@[i]@.len() + 1
    }
}

impl<W> View for Network<W> {
    type V = Seq<Seq<Seq<W>>>;

    /// Each layer's neurons, layer after layer.
    closed spec fn view(&self) -> Seq<Seq<Seq<W>>> {
        self.layers@.map_values(|l: Layer<W>| l@)
    }
}

impl<W: Copy> Network<W> {
    /// Reads a network with the given layer sizes from the front of
    /// `weights`: layer after layer, neuron after neuron, each neuron's bias
    /// before its weights. `layer_sizes[0]` is the number of inputs; each
    /// later entry is the number of neurons of one layer.
    pub fn from_weights(layer_sizes: &Vec<usize>, weights: &mut WeightStream<W>) -> (r: Self)
        requires
            valid_sizes(layer_sizes@),
            weight_count(layer_sizes@) <= old(weights)@.len(),
        ensures
            r@ == decode_network(layer_sizes@, old(weights)@),
            final(weights)@ == old(weights)@.skip(weight_count(layer_sizes@)),
    {
        let ghost start = weights@;
        let ghost sizes = layer_sizes@;
        let n = layer_sizes.len() - 1;
        let mut layers: Vec<Layer<W>> = Vec::new();
        let mut i: usize = 0;
        proof {
            lemma_offset_monotone(sizes, 0, n as int);
            assert(weights@ =~= start.skip(0));
            assert(layers@.map_values(|l: Layer<W>| l@) =~= decode_network(sizes, start).take(0));
        }
        while i < n
            invariant
                n + 1 == sizes.len(),
                sizes == layer_sizes@,
                valid_sizes(sizes),
                i <= n,
                weight_count(sizes) <= start.len(),
                weights@ == start.skip(layer_offset(sizes, i as int)),
                layer_offset(sizes, i as int) <= weight_count(sizes),
                layers@.map_values(|l: Layer<W>| l@) == decode_network(sizes, start).take(i as int),
            decreases n - i,
        {
            proof {
                lemma_offset_monotone(sizes, i as int + 1, n as int);
                lemma_offset_monotone(sizes, 0, i as int);
            }
            let ghost prev = layers@.map_values(|l: Layer<W>| l@);
            let layer = Layer::from_weights(layer_sizes[i], layer_sizes[i + 1], weights);
            layers.push(layer);
            assert(weights@ =~= start.skip(layer_offset(sizes, i as int + 1)));
            i = i + 1;
            assert(layers@.map_values(|l: Layer<W>| l@) =~= prev.push(layer@));
            assert(layers@.map_values(|l: Layer<W>| l@) =~= decode_network(sizes, start).take(
                i as int,
            ));
        }
        proof {
            lemma_decode_has_shape(sizes, start);
            assert(decode_network(sizes, start).take(n as int) =~= decode_network(sizes, start));
        }
        let ghost v = layers@.map_values(|l: Layer<W>| l@);
        assert forall|k: int| 0 <= k < layers.len() - 1 implies (#[trigger] layers@[k + 1])@[0].len()
            == layers@[k]@.len() + 1 by {
            assert(layers@[k + 1]@ == v[k + 1]);
            assert(layers@[k]@ == v[k]);
        }
        Network { layers }
    }

    /// The network's values as one flat sequence, in the order that
    /// `from_weights` reads them.
    pub fn weights(&self) -> (r: Vec<W>)
        ensures
            r@ == encode_network(self@),
    {
        let ghost ls = self@.map_values(|l: Seq<Seq<W>>| concat(l));
        let mut out: Vec<W> = Vec::new();
        let mut i: usize = 0;
        while i < self.layers.len()
            invariant
                i <= self@.len(),
                self@.len() == self.layers@.len(),
                ls == self@.map_values(|l: Seq<Seq<W>>| concat(l)),
                out@ == concat(ls.take(i as int)),
            decreases self@.len() - i,
        {
            proof {
                lemma_concat_take_step(ls, i as int);
            }
            self.layers[i].append_weights(&mut out);
            i = i + 1;
        }
        assert(ls.take(i as int) =~= ls);
        out
    }

    pub fn layers(&self) -> (r: &Vec<Layer<W>>)
        ensures
            r@.map_values(|l: Layer<W>| l@) == self@,
    {
        &self.layers
    }

    /// The number of inputs the network takes.
    pub fn input_size(&self) -> (r: usize)
        ensures
            r > 0,
            forall|j: int| 0 <= j < self@[0].len() ==> (#[trigger] self@[0][j]).len() == r + 1,
    {
        proof {
            use_type_invariant(self);
        }
        self.layers[0].input_size()
    }
}

/// How many values a network with these layer sizes reads from a stream,
/// or `None` where that number does not fit in `usize`.
pub fn weight_count_of(layer_sizes: &Vec<usize>) -> (r: Option<usize>)
    requires
        valid_sizes(layer_sizes@),
    ensures
        r matches Some(c) ==> c == weight_count(layer_sizes@),
        r is None ==> weight_count(layer_sizes@) > usize::MAX,
{
    let ghost sizes = layer_sizes@;
    let n = layer_sizes.len();
    let mut total: usize = 0;
    let mut i: usize = 1;
    while i < n
        invariant
            sizes == layer_sizes@,
            valid_sizes(sizes),
            n == sizes.len(),
            1 <= i <= n,
            total == layer_offset(sizes, i - 1),
        decreases n - i,
    {
        proof {
            lemma_offset_monotone(sizes, i as int, n - 1);
            lemma_offset_monotone(sizes, 0, i - 1);
        }
        let ghost out = sizes[i as int] as int;
        let ghost inp = sizes[i - 1] as int;
        assert(out >= 1);
        assert(out * (inp + 1) >= inp + 1) by (nonlinear_arith)
            requires
                out >= 1,
                inp >= 0,
        ;
        let inputs = match layer_sizes[i - 1].checked_add(1) {
            Some(v) => v,
            None => {
                return None;
            },
        };
        let step = match layer_sizes[i].checked_mul(inputs) {
            Some(v) => v,
            None => {
                return None;
            },
        };
        total = match total.checked_add(step) {
            Some(v) => v,
            None => {
                return None;
            },
        };
        i = i + 1;
    }
    Some(total)
}

/// A network read from a stream gives back, from its own weights, the same
/// network: decoding is the inverse of encoding.
pub proof fn lemma_weights_round_trip<W>(layer_sizes: Seq<usize>, s: Seq<W>)
    requires
        valid_sizes(layer_sizes),
        weight_count(layer_sizes) <= s.len(),
    ensures
        decode_network(layer_sizes, encode_network(decode_network(layer_sizes, s)))
            == decode_network(layer_sizes, s),
{
    let m = decode_network(layer_sizes, s);
    lemma_decode_has_shape(layer_sizes, s);
    lemma_network_round_trip(m, layer_sizes, Seq::empty());
    assert(encode_network(m) + Seq::<W>::empty() =~= encode_network(m));
}

} // verus!
