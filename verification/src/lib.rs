//! Core of a small convolutional neural-network training engine.
//!
//! The crate verifies the structural and integer-valued heart of the engine:
//! tensor shapes and the sliding-window output-size rule, the layer chain and
//! its shape transitions, flat/volumetric index mapping, the max-pooling
//! argmax cache and its error-scatter, the optimizer step bookkeeping, and
//! the training-loop schedule (minibatch updates, accuracy records and
//! checkpoint decisions).  Scalar numerics, file I/O and dataset handling are
//! collaborators that live outside the verified core and exchange plain
//! values with it.

pub mod activation;
pub mod dropout;
pub mod error;
pub mod geometry;
pub mod maxpool;
pub mod optimizer;
pub mod plan;
pub mod schedule;
pub mod util;
