use vstd::prelude::*;

verus! {

/// The activation function a dense layer applies to its logits.
///
/// The scalar evaluation of these functions is numeric work done by the
/// layer engines; the core records which function a layer was built with so
/// that the choice survives in the network description and its checkpoints.
#[derive(Clone, Copy, PartialEq, Eq, Structural, Debug)]
pub enum Activation {
    Relu,
    Sigmoid,
    Softmax,
}

} // verus!
