//! A genetic-algorithm engine over feedforward neural networks.
//!
//! Populations of genome-encoded individuals are scored, selected
//! proportionally to fitness, recombined and perturbed to produce the next
//! generation; a layered network's parameters are losslessly flattened into
//! and reconstructed from a flat genome.  Every real-valued quantity is
//! carried as the bit pattern of the single-precision value it encodes.

pub mod fbits;
mod rng;
pub mod chromosome;
pub mod individual;
pub mod crossover;
pub mod selection;
pub mod mutation;
pub mod statistics;
pub mod engine;
mod uniform;
pub mod brain;
pub mod animal_individual;
pub mod neuron;
pub mod layer;
pub mod network;

pub use engine::GeneticAlgorithm;
