//! Genetic metaheuristics: the biased random-key genetic algorithm (BRKGA)
//! and the population machinery it runs on.

pub mod brkga;
pub mod population;

mod decoder;

pub use decoder::{Decoder, RandomKey};
