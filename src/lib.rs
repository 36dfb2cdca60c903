//! Gene sequences, their selection, recombination and mutation into new
//! generations, and layered networks whose weights are read from and written
//! to one flat stream.

pub mod chromosome;
pub mod crossover;
pub mod encoding;
pub mod genetic_algorithm;
pub mod layer;
pub mod mutation;
pub mod network;
pub mod rng;
pub mod neuron;
pub mod selection;
pub mod statistics;
pub mod stream;
