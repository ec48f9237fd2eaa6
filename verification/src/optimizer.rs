use vstd::prelude::*;

verus! {

/// The gradient-descent rule a layer's optimizer runs.  The learning rate
/// and decay coefficients are scalar data of the numeric engine; the core
/// tracks which rule is in force and the rule's integer-valued state.
#[derive(Clone, Copy, PartialEq, Eq, Structural, Debug)]
pub enum OptimizerKind {
    Sgd,
    Momentum,
    RmsProp,
    Adam,
}

/// The integer-valued state of one per-tensor optimizer: the rule it runs,
/// the Adam step counter, and the two bias-correction freeze flags.
///
/// The step counter only ever advances, and never resets for the life of
/// the optimizer; a freeze flag, once set, stays set: after the decaying
/// power of a moment coefficient has fallen below the freeze threshold, the
/// bias correction of that moment is treated as zero permanently.
pub struct OptimizerState {
    pub kind: OptimizerKind,
    pub t: u64,
    pub beta1_done: bool,
    pub beta2_done: bool,
}

impl OptimizerState {
    /// A fresh optimizer: no steps taken, no correction frozen.
    pub fn new(kind: OptimizerKind) -> (r: OptimizerState)
        ensures
            r.kind == kind,
            r.t == 0,
            !r.beta1_done,
            !r.beta2_done,
    {
        OptimizerState { kind, t: 0, beta1_done: false, beta2_done: false }
    }

    /// One step of the stateful rule: advances the step counter and reports
    /// for each moment whether this step still applies bias correction.
    ///
    /// `beta1_below` / `beta2_below` say whether the decaying power of the
    /// respective coefficient fell under the freeze threshold at this step;
    /// the correction is applied while the flag was clear at entry, and the
    /// freeze, once triggered, is permanent.
    pub fn step(&mut self, beta1_below: bool, beta2_below: bool) -> (r: (bool, bool))
        requires
            old(self).t < u64::MAX,
        ensures
            final(self).kind == old(self).kind,
            final(self).t == old(self).t + 1,
            final(self).beta1_done == (old(self).beta1_done || beta1_below),
            final(self).beta2_done == (old(self).beta2_done || beta2_below),
            r.0 == !old(self).beta1_done,
            r.1 == !old(self).beta2_done,
    {
        let correct1 = !self.beta1_done;
        let correct2 = !self.beta2_done;
        self.t = self.t + 1;
        self.beta1_done = self.beta1_done || beta1_below;
        self.beta2_done = self.beta2_done || beta2_below;
        (correct1, correct2)
    }
}

} // verus!
