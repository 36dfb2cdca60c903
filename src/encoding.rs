use vstd::prelude::*;

verus! {

/// The parts of `s` joined in order.
pub open spec fn concat<W>(s: Seq<Seq<W>>) -> Seq<W>
    decreases s.len(),
{
    if s.len() == 0 {
        Seq::empty()
    } else {
        concat(s.drop_last()) + s.last()
    }
}

/// How many values a layer takes from the stream: a bias and `input`
/// weights for each of its `output` neurons.
pub open spec fn layer_len(input: int, output: int) -> int {
    output * (input + 1)
}

/// A layer read from the front of `s`: neuron `j` is the `j`-th run of
/// `input + 1` values.
pub open spec fn decode_layer<W>(input: int, output: int, s: Seq<W>) -> Seq<Seq<W>> {
    Seq::new(output as nat, |j: int| s.subrange(j * (input + 1), j * (input + 1) + input + 1))
}

/// Where layer `i` of a network with these sizes starts in the stream.
pub open spec fn layer_offset(sizes: Seq<usize>, i: int) -> int
    decreases i,
{
    if i <= 0 {
        0
    } else {
        layer_offset(sizes, i - 1) + layer_len(sizes[i - 1] as int, sizes[i] as int)
    }
}

/// How many values a network with these layer sizes takes from the stream.
pub open spec fn weight_count(sizes: Seq<usize>) -> int {
    layer_offset(sizes, sizes.len() - 1)
}

/// Layer sizes that describe a network: an input size and at least one
/// layer, no size zero.
pub open spec fn valid_sizes(sizes: Seq<usize>) -> bool {
    sizes.len() >= 2 && forall|i: int| 0 <= i < sizes.len() ==> #[trigger] sizes[i] > 0
}

/// The network read from the front of `s`, layer after layer.
pub open spec fn decode_network<W>(sizes: Seq<usize>, s: Seq<W>) -> Seq<Seq<Seq<W>>> {
    Seq::new(
        (sizes.len() - 1) as nat,
        |i: int| decode_layer(sizes[i] as int, sizes[i + 1] as int, s.skip(layer_offset(sizes, i))),
    )
}

/// The flat stream of a network: layer after layer, neuron after neuron,
/// each neuron's bias before its weights.
pub open spec fn encode_network<W>(m: Seq<Seq<Seq<W>>>) -> Seq<W> {
    concat(m.map_values(|l: Seq<Seq<W>>| concat(l)))
}

/// A layer of `output` neurons that take `input` inputs each.
pub open spec fn layer_has_shape<W>(l: Seq<Seq<W>>, input: int, output: int) -> bool {
    &&& l.len() == output
    &&& forall|j: int| 0 <= j < l.len() ==> (#[trigger] l[j]).len() == input + 1
}

/// A network whose layers have the given sizes.
pub open spec fn network_has_shape<W>(m: Seq<Seq<Seq<W>>>, sizes: Seq<usize>) -> bool {
    &&& m.len() + 1 == sizes.len()
    &&& forall|i: int|
        0 <= i < m.len() ==> layer_has_shape(#[trigger] m[i], sizes[i] as int, sizes[i + 1] as int)
}

/// One more part joined on adds that part at the end.
pub proof fn lemma_concat_take_step<W>(s: Seq<Seq<W>>, i: int)
    requires
        0 <= i < s.len(),
    ensures
        concat(s.take(i + 1)) == concat(s.take(i)) + s[i],
{
    assert(s.take(i + 1).drop_last() =~= s.take(i));
}

/// `concat(s.take(i))` is a prefix of `concat(s)`, followed by `s[i]`.
proof fn lemma_concat_prefix<W>(s: Seq<Seq<W>>, i: int)
    requires
        0 <= i < s.len(),
    ensures
        concat(s).subrange(
            concat(s.take(i)).len() as int,
            (concat(s.take(i)).len() + s[i].len()) as int,
        ) == s[i],
        concat(s.take(i)).len() + s[i].len() <= concat(s).len(),
    decreases s.len(),
{
    if i == s.len() - 1 {
        assert(s.drop_last() =~= s.take(i));
        assert(concat(s).subrange(concat(s.take(i)).len() as int, concat(s).len() as int) =~= s[i]);
    } else {
        let t = s.drop_last();
        lemma_concat_prefix(t, i);
        assert(t.take(i) =~= s.take(i));
        assert(t[i] == s[i]);
        let a = concat(s.take(i)).len() as int;
        assert(concat(s).subrange(a, a + s[i].len()) =~= concat(t).subrange(a, a + s[i].len()));
    }
}

/// Where every part has length `k`, `i` parts are `i * k` values long.
proof fn lemma_concat_uniform_len<W>(s: Seq<Seq<W>>, k: int, i: int)
    requires
        0 <= i <= s.len(),
        forall|j: int| 0 <= j < s.len() ==> (#[trigger] s[j]).len() == k,
    ensures
        concat(s.take(i)).len() == i * k,
    decreases i,
{
    if i > 0 {
        lemma_concat_uniform_len(s, k, i - 1);
        lemma_concat_take_step(s, i - 1);
        assert((i - 1) * k + k == i * k) by (nonlinear_arith);
    } else {
        assert(s.take(0) =~= Seq::<Seq<W>>::empty());
    }
}

/// Reading a layer back from its own stream, with anything after it, gives
/// the layer.
pub proof fn lemma_layer_round_trip<W>(l: Seq<Seq<W>>, input: int, output: int, rest: Seq<W>)
    requires
        input >= 0,
        layer_has_shape(l, input, output),
    ensures
        decode_layer(input, output, concat(l) + rest) == l,
        concat(l).len() == layer_len(input, output),
{
    let k = input + 1;
    lemma_concat_uniform_len(l, k, output);
    assert(l.take(output) =~= l);
    let c = concat(l) + rest;
    assert forall|j: int| 0 <= j < output implies #[trigger] decode_layer(input, output, c)[j]
        == l[j] by {
        lemma_concat_uniform_len(l, k, j);
        lemma_concat_prefix(l, j);
        assert(c.subrange(j * k, j * k + k) =~= concat(l).subrange(j * k, j * k + k));
    }
    assert(decode_layer(input, output, c) =~= l);
    assert(layer_len(input, output) == output * k);
}

/// The offsets of a network's layers are those of its own stream.
proof fn lemma_offsets<W>(m: Seq<Seq<Seq<W>>>, sizes: Seq<usize>, i: int)
    requires
        network_has_shape(m, sizes),
        0 <= i <= m.len(),
    ensures
        concat(m.map_values(|l: Seq<Seq<W>>| concat(l)).take(i)).len() == layer_offset(sizes, i),
    decreases i,
{
    let ls = m.map_values(|l: Seq<Seq<W>>| concat(l));
    if i > 0 {
        lemma_offsets(m, sizes, i - 1);
        lemma_concat_take_step(ls, i - 1);
        assert(layer_has_shape(m[i - 1], sizes[i - 1] as int, sizes[i] as int));
        lemma_layer_round_trip(m[i - 1], sizes[i - 1] as int, sizes[i] as int, Seq::empty());
    } else {
        assert(ls.take(0) =~= Seq::<Seq<W>>::empty());
    }
}

/// Reading a network back from its own stream, with anything after it,
/// gives the network.
pub proof fn lemma_network_round_trip<W>(m: Seq<Seq<Seq<W>>>, sizes: Seq<usize>, rest: Seq<W>)
    requires
        network_has_shape(m, sizes),
    ensures
        decode_network(sizes, encode_network(m) + rest) == m,
        encode_network(m).len() == weight_count(sizes),
{
    let ls = m.map_values(|l: Seq<Seq<W>>| concat(l));
    let e = encode_network(m);
    let c = e + rest;
    assert forall|i: int| 0 <= i < m.len() implies #[trigger] decode_network(sizes, c)[i] == m[i] by {
        assert(layer_has_shape(m[i], sizes[i] as int, sizes[i + 1] as int));
        lemma_offsets(m, sizes, i);
        lemma_concat_prefix(ls, i);
        let a = layer_offset(sizes, i);
        let tail = c.skip(a + ls[i].len());
        assert(c.skip(a) =~= ls[i] + tail);
        lemma_layer_round_trip(m[i], sizes[i] as int, sizes[i + 1] as int, tail);
    }
    assert(decode_network(sizes, c) =~= m);
    lemma_offsets(m, sizes, m.len() as int);
    assert(ls.take(m.len() as int) =~= ls);
}

/// Layers further on start no earlier.
pub proof fn lemma_offset_monotone(sizes: Seq<usize>, i: int, j: int)
    requires
        0 <= i <= j < sizes.len(),
    ensures
        layer_offset(sizes, i) <= layer_offset(sizes, j),
    decreases j - i,
{
    if i < j {
        lemma_offset_monotone(sizes, i, j - 1);
        let a = sizes[j - 1] as int;
        let b = sizes[j] as int;
        assert(0 <= b * (a + 1)) by (nonlinear_arith)
            requires
                0 <= a,
                0 <= b,
        ;
    }
}

/// The network that the stream `s` decodes to has the sizes it was read with.
pub proof fn lemma_decode_has_shape<W>(sizes: Seq<usize>, s: Seq<W>)
    requires
        valid_sizes(sizes),
        weight_count(sizes) <= s.len(),
    ensures
        network_has_shape(decode_network(sizes, s), sizes),
{
    let m = decode_network(sizes, s);
    assert forall|i: int| 0 <= i < m.len() implies layer_has_shape(
        #[trigger] m[i],
        sizes[i] as int,
        sizes[i + 1] as int,
    ) by {
        let l = m[i];
        assert forall|j: int| 0 <= j < l.len() implies (#[trigger] l[j]).len() == sizes[i] + 1 by {
            let k = sizes[i] + 1;
            let o = sizes[i + 1] as int;
            lemma_offset_monotone(sizes, i + 1, sizes.len() - 1);
            assert(layer_offset(sizes, i + 1) == layer_offset(sizes, i) + o * k);
            assert(0 <= j * k && j * k + k <= o * k) by (nonlinear_arith)
                requires
                    0 <= j < o,
                    0 <= k,
            ;
            lemma_offset_monotone(sizes, 0, i);
            let t = s.skip(layer_offset(sizes, i));
            assert(t.len() == s.len() - layer_offset(sizes, i));
            assert(l[j] == t.subrange(j * k, j * k + k));
        }
    }
}

} // verus!
