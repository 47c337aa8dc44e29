use rand::SeedableRng;
use rand_chacha::ChaCha8Rng;

use neuroevo::animal_individual::AnimalIndividual;
use neuroevo::brain::Brain;
use neuroevo::individual::Individual;
use neuroevo::layer::{Layer, LayerTopology};
use neuroevo::network::Network;

fn topology(sizes: &[usize]) -> Vec<LayerTopology> {
    sizes.iter().map(|n| LayerTopology { neurons: *n }).collect()
}

fn random_network() -> Network {
    let mut rng = ChaCha8Rng::from_seed(Default::default());
    Network::random(&mut rng, &topology(&[4, 3, 4]))
}

fn to_floats(bits: &[u32]) -> Vec<f32> {
    bits.iter().map(|b| f32::from_bits(*b)).collect()
}

fn approx_eq(actual: &[f32], expected: &[f32]) -> bool {
    actual.len() == expected.len()
        && actual
            .iter()
            .zip(expected.iter())
            .all(|(a, e)| (a - e).abs() <= 1e-6 * e.abs().max(1.0))
}

#[test]
fn layer_test() {
    let mut rng = ChaCha8Rng::from_seed(Default::default());
    let layer = Layer::random(&mut rng, 4, 3);

    assert_eq!(layer.neurons.len(), 3);
}

#[test]
fn layer_propagate_test() {
    let mut rng = ChaCha8Rng::from_seed(Default::default());
    let layer = Layer::random(&mut rng, 3, 2);
    let inputs: Vec<u32> = vec![0.0f32.to_bits(); 3];
    let outputs = layer.propagate(&inputs);

    assert!(approx_eq(&to_floats(&outputs), &[0.0, 0.5238807]));
}

#[test]
fn network_random_test() {
    let network = random_network();
    assert_eq!(network.layer_count(), 2);
}

#[test]
fn network_propagate_test() {
    let network = random_network();

    let outputs = network.propagate(vec![0.0f32.to_bits(); 4]);

    assert!(approx_eq(&to_floats(&outputs), &[0.0, 0.35662687, 0.0, 0.0]));
}

#[test]
fn propagate_checked_rejects_wrong_input_length() {
    let network = random_network();
    for len in 0..8usize {
        let out = network.propagate_checked(vec![0u32; len]);
        if len == 4 {
            let inner = out.expect("matching length must propagate");
            assert_eq!(inner, network.propagate(vec![0u32; 4]));
        } else {
            assert!(out.is_none());
        }
    }
}

#[test]
fn weights_round_trip() {
    let network = random_network();
    let flat = network.weights();
    // 3 * (1 + 4) + 4 * (1 + 3) values for topology [4, 3, 4]
    assert_eq!(flat.len(), 31);

    let rebuilt = Network::from_weights(&topology(&[4, 3, 4]), &flat);
    assert_eq!(rebuilt.weights(), flat);

    let same_inputs = vec![0.25f32.to_bits(), 0.5f32.to_bits(), (-0.75f32).to_bits(), 1.0f32.to_bits()];
    assert_eq!(
        rebuilt.propagate(same_inputs.clone()),
        network.propagate(same_inputs)
    );
}

#[test]
fn weights_orders_bias_before_weights() {
    let flat = vec![
        0.1f32.to_bits(),
        0.2f32.to_bits(),
        0.3f32.to_bits(),
        0.4f32.to_bits(),
        0.5f32.to_bits(),
    ];
    // topology [2, 1, 1]: one neuron with bias+2 weights, one with bias+1
    let network = Network::from_weights(&topology(&[2, 1, 1]), &flat);
    assert_eq!(network.weights(), flat);
}

#[test]
fn exact_propagation() {
    // one neuron: bias 0.5, weights [1, 2]
    let flat = vec![0.5f32.to_bits(), 1.0f32.to_bits(), 2.0f32.to_bits()];
    let network = Network::from_weights(&topology(&[2, 1]), &flat);
    // 0.5 + (0.25 * 1 + 0.5 * 2) = 1.75, exactly representable
    let out = network.propagate(vec![0.25f32.to_bits(), 0.5f32.to_bits()]);
    assert_eq!(out, vec![1.75f32.to_bits()]);

    // a negative pre-activation clamps to zero
    let flat = vec![(-2.0f32).to_bits(), 1.0f32.to_bits(), 2.0f32.to_bits()];
    let network = Network::from_weights(&topology(&[2, 1]), &flat);
    let out = network.propagate(vec![0.25f32.to_bits(), 0.5f32.to_bits()]);
    assert_eq!(out, vec![0.0f32.to_bits()]);
}

#[test]
fn brain_round_trips_through_chromosome() {
    let mut rng = ChaCha8Rng::from_seed([9u8; 32]);
    let cells = 3usize;
    let brain = Brain::random(&mut rng, cells);
    let chromosome = brain.as_chromosome();
    // hidden layer: 2*cells neurons of (1 + cells), output layer: 2 of (1 + 2*cells)
    assert_eq!(chromosome.len(), 2 * cells * (1 + cells) + 2 * (1 + 2 * cells));

    let rebuilt = Brain::from_chromosome(chromosome, cells);
    assert_eq!(
        rebuilt.as_chromosome().genes(),
        brain.as_chromosome().genes()
    );
}

#[test]
fn animal_individual_codec() {
    let mut rng = ChaCha8Rng::from_seed([1u8; 32]);
    let cells = 2usize;
    let brain = Brain::random(&mut rng, cells);
    let flat = brain.as_chromosome();

    let member = AnimalIndividual::from_animal(30, &brain);
    assert_eq!(member.fitness(), 30.0f32.to_bits());
    assert_eq!(member.chromosome().genes(), flat.genes());

    let rebuilt = member.into_brain(cells);
    assert_eq!(rebuilt.as_chromosome().genes(), flat.genes());
}

#[test]
fn animal_individual_create_starts_at_zero_fitness() {
    let mut rng = ChaCha8Rng::from_seed([2u8; 32]);
    let brain = Brain::random(&mut rng, 2);
    let member = AnimalIndividual::create(brain.as_chromosome());
    assert_eq!(member.fitness(), 0.0f32.to_bits());
}
