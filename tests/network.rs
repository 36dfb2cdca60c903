use neuroevolution::layer::Layer;
use neuroevolution::network::{weight_count_of, Network};
use neuroevolution::neuron::Neuron;
use neuroevolution::stream::WeightStream;

#[test]
fn neuron_from_weights() {
    let mut stream = WeightStream::new(vec![0.1f32, 0.2, 0.3, 0.4]);
    let actual = Neuron::from_weights(3, &mut stream);
    let expected = Neuron::new(0.1f32, vec![0.2, 0.3, 0.4]);

    assert_eq!(actual.bias(), expected.bias());
    assert_eq!(actual.weights(), expected.weights());
    assert_eq!(stream.remaining(), 0);
}

#[test]
fn neuron_from_weights_leaves_the_rest() {
    let mut stream = WeightStream::new(vec![1u32, 2, 3, 4, 5]);
    let neuron = Neuron::from_weights(2, &mut stream);
    assert_eq!(neuron.bias(), 1);
    assert_eq!(neuron.weights(), &vec![2, 3]);
    assert_eq!(neuron.input_size(), 2);
    assert_eq!(stream.remaining(), 2);
    assert_eq!(stream.next(), Some(4));
    assert_eq!(stream.next(), Some(5));
    assert_eq!(stream.next(), None);
    assert_eq!(stream.remaining(), 0);
}

#[test]
fn neuron_append_weights() {
    let neuron = Neuron::new(7i64, vec![8, 9]);
    let mut out = vec![1i64];
    neuron.append_weights(&mut out);
    assert_eq!(out, vec![1, 7, 8, 9]);
}

#[test]
fn layer_from_weights() {
    let mut stream = WeightStream::new(vec![0.1f32, 0.2, 0.3, 0.4, 0.5, 0.6, 0.7, 0.8]);
    let layer = Layer::from_weights(3, 2, &mut stream);

    let actual_biases: Vec<f32> = layer.neurons().iter().map(|n| n.bias()).collect();
    let expected_biases = vec![0.1f32, 0.5];

    let actual_weights: Vec<Vec<f32>> = layer.neurons().iter().map(|n| n.weights().clone()).collect();
    let expected_weights: Vec<Vec<f32>> = vec![vec![0.2, 0.3, 0.4], vec![0.6, 0.7, 0.8]];

    assert_eq!(actual_biases, expected_biases);
    assert_eq!(actual_weights, expected_weights);
}

#[test]
fn layer_new_and_sizes() {
    let layer = Layer::new(vec![Neuron::new(0i32, vec![1, 2, 3]), Neuron::new(4, vec![5, 6, 7])]);
    assert_eq!(layer.input_size(), 3);
    assert_eq!(layer.output_size(), 2);
    let mut out = Vec::new();
    layer.append_weights(&mut out);
    assert_eq!(out, vec![0, 1, 2, 3, 4, 5, 6, 7]);
}

#[test]
fn network_from_weights_reads_layer_after_layer() {
    // 2 inputs, 2 neurons, then 1 neuron: 2 * 3 + 1 * 3 = 9 values.
    let sizes = vec![2usize, 2, 1];
    let values: Vec<u32> = (1..=10).collect();
    let mut stream = WeightStream::new(values);
    let network = Network::from_weights(&sizes, &mut stream);

    assert_eq!(network.layers().len(), 2);
    assert_eq!(network.input_size(), 2);
    let first = &network.layers()[0];
    assert_eq!(first.neurons()[0].bias(), 1);
    assert_eq!(first.neurons()[0].weights(), &vec![2, 3]);
    assert_eq!(first.neurons()[1].bias(), 4);
    assert_eq!(first.neurons()[1].weights(), &vec![5, 6]);
    let second = &network.layers()[1];
    assert_eq!(second.neurons()[0].bias(), 7);
    assert_eq!(second.neurons()[0].weights(), &vec![8, 9]);
    assert_eq!(stream.remaining(), 1);
}

#[test]
fn network_weights_round_trip() {
    let sizes = vec![3usize, 2, 2];
    let values: Vec<f32> = (0..14).map(|i| i as f32 * 0.25 - 1.0).collect();
    let network = Network::from_weights(&sizes, &mut WeightStream::new(values.clone()));
    let weights = network.weights();
    assert_eq!(weights, values);

    let rebuilt = Network::from_weights(&sizes, &mut WeightStream::new(weights));
    assert_eq!(rebuilt.weights(), network.weights());
}

#[test]
fn weight_count_of_sizes() {
    assert_eq!(weight_count_of(&vec![3, 2]), Some(8));
    assert_eq!(weight_count_of(&vec![2, 2, 1]), Some(9));
    assert_eq!(weight_count_of(&vec![3, 4, 2]), Some(26));
    assert_eq!(weight_count_of(&vec![usize::MAX, 1]), None);
    assert_eq!(weight_count_of(&vec![1, usize::MAX / 2 + 1]), None);
    assert_eq!(weight_count_of(&vec![1, usize::MAX / 4, usize::MAX / 8, 1]), None);
}
