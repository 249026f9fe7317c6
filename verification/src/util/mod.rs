pub mod rng;
