//! What the evaluator takes from the host's built-in protocols.

pub mod iterator;
