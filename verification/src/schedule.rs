use vstd::prelude::*;

verus! {

/// When the model should be saved.  The `bool` is whether to save the full
/// model (`true`) or just its metadata.  The mid-epoch interval of
/// `EveryNthEpoch` is the exact fraction `num / den` of an epoch, carried
/// as the two integers.
#[derive(Clone, Copy, PartialEq, Eq, Structural, Debug)]
pub enum SavingStrategy {
    EveryEpoch(bool),
    EveryNthEpoch(bool, usize, usize),
    BestTrainingAccuracy(bool),
    BestTestingAccuracy(bool),
    Never,
}

/// What a checkpoint decision asks the persistence collaborator to write:
/// the full model together with its metadata, the metadata alone, or
/// nothing.
#[derive(Clone, Copy, PartialEq, Eq, Structural, Debug)]
pub enum SaveAction {
    Full,
    MetadataOnly,
    NoSave,
}

/// A classification accuracy as exact counts: `correct` answers out of
/// `total` examples.  Comparisons are exact ratio comparisons, so the
/// checkpoint policy is free of rounding.
#[derive(Clone, Copy, PartialEq, Eq, Structural, Debug)]
pub struct AccCount {
    pub correct: usize,
    pub total: usize,
}

impl AccCount {
    /// An accuracy record over no examples, standing for accuracy zero:
    /// the starting point of a best-so-far tracker.
    pub fn zero() -> (r: AccCount)
        ensures
            r == (AccCount { correct: 0, total: 0 }),
    {
        AccCount { correct: 0, total: 0 }
    }

    /// `self` is a strictly better accuracy than `other`, as exact ratios.
    /// A record over no examples stands for zero: it beats nothing, and is
    /// beaten exactly by a record with at least one correct answer.
    pub open spec fn beats(self, other: AccCount) -> bool {
        if self.total == 0 {
            false
        } else if other.total == 0 {
            self.correct > 0
        } else {
            self.correct * other.total > other.correct * self.total
        }
    }

    /// Exact comparison of two accuracy ratios.
    pub fn gt(&self, other: &AccCount) -> (r: bool)
        requires
            self.correct <= u32::MAX,
            self.total <= u32::MAX,
            other.correct <= u32::MAX,
            other.total <= u32::MAX,
        ensures
            r == self.beats(*other),
    {
        if self.total == 0 {
            false
        } else if other.total == 0 {
            self.correct > 0
        } else {
            proof {
                assert(self.correct * other.total <= u32::MAX * u32::MAX && other.correct
                    * self.total <= u32::MAX * u32::MAX) by (nonlinear_arith)
                    requires
                        self.correct <= u32::MAX && self.total <= u32::MAX && other.correct
                            <= u32::MAX && other.total <= u32::MAX;
            }
            (self.correct as u64) * (other.total as u64) > (other.correct as u64) * (self.total
                as u64)
        }
    }
}

/// True when the example at zero-based position `i` completes a minibatch:
/// the training loop applies the accumulated updates exactly then.
pub fn minibatch_update_due(i: usize, minibatch_size: usize) -> (r: bool)
    requires
        minibatch_size >= 1,
    ensures
        r == (i % minibatch_size == minibatch_size - 1),
{
    i % minibatch_size == minibatch_size - 1
}

/// True when the example at zero-based position `i` completes a mid-epoch
/// checkpoint interval of `every_n` examples.
pub fn mid_epoch_save_due(i: usize, every_n: usize) -> (r: bool)
    requires
        every_n >= 1,
    ensures
        r == (i % every_n == every_n - 1),
{
    i % every_n == every_n - 1
}

/// The mid-epoch checkpoint interval in examples: the whole part of
/// `num / den` of an epoch of `trn_size` examples.
pub fn every_n_interval(trn_size: usize, num: usize, den: usize) -> (r: usize)
    requires
        1 <= den,
        num <= den,
        trn_size <= u32::MAX,
        num <= u32::MAX,
    ensures
        r == trn_size * num / (den as int),
        r <= trn_size,
{
    proof {
        assert(trn_size * num <= u32::MAX * u32::MAX && trn_size * num / (den as int) <= trn_size)
            by (nonlinear_arith)
            requires
                trn_size <= u32::MAX && num <= u32::MAX && 1 <= den && num <= den;
    }
    ((trn_size as u64) * (num as u64) / (den as u64)) as usize
}

/// The training-loop bookkeeping the orchestrator owns: the minibatch and
/// epoch hyperparameters, the per-epoch accuracy and timing histories, and
/// the best accuracies seen so far, which the checkpoint policy compares
/// against.
pub struct TrainState {
    pub minibatch_size: usize,
    pub epochs: usize,
    pub saving_strategy: SavingStrategy,
    pub training_history: Vec<AccCount>,
    pub testing_history: Vec<AccCount>,
    pub time_history: Vec<usize>,
    pub best_train: AccCount,
    pub best_test: AccCount,
}

impl TrainState {
    /// The three histories run in step -- one entry of each per finished
    /// epoch -- and the counts stay small enough to compare exactly.
    pub open spec fn wf(self) -> bool {
        &&& self.minibatch_size >= 1
        &&& self.training_history@.len() == self.testing_history@.len()
        &&& self.training_history@.len() == self.time_history@.len()
        &&& self.best_train.correct <= u32::MAX && self.best_train.total <= u32::MAX
        &&& self.best_test.correct <= u32::MAX && self.best_test.total <= u32::MAX
    }

    /// Fresh training bookkeeping: empty histories, best accuracies zero.
    pub fn new(minibatch_size: usize, epochs: usize, saving_strategy: SavingStrategy) -> (r:
        TrainState)
        requires
            minibatch_size >= 1,
        ensures
            r.wf(),
            r.minibatch_size == minibatch_size,
            r.epochs == epochs,
            r.saving_strategy == saving_strategy,
            r.training_history@.len() == 0,
            r.testing_history@.len() == 0,
            r.time_history@.len() == 0,
            r.best_train == (AccCount { correct: 0, total: 0 }),
            r.best_test == (AccCount { correct: 0, total: 0 }),
    {
        TrainState {
            minibatch_size,
            epochs,
            saving_strategy,
            training_history: Vec::new(),
            testing_history: Vec::new(),
            time_history: Vec::new(),
            best_train: AccCount::zero(),
            best_test: AccCount::zero(),
        }
    }

    /// Records one finished epoch -- its training accuracy, its testing
    /// accuracy and the elapsed seconds -- and decides what to persist.
    ///
    /// An every-epoch strategy always saves as configured.  A best-accuracy
    /// strategy saves the model as configured when this epoch strictly beat
    /// the best accuracy seen so far, advancing that best; otherwise it
    /// refreshes the metadata only.  The remaining strategies save nothing
    /// at an epoch boundary.
    pub fn record_epoch(&mut self, train: AccCount, test: AccCount, elapsed: usize) -> (r:
        SaveAction)
        requires
            old(self).wf(),
            train.correct <= u32::MAX,
            train.total <= u32::MAX,
            test.correct <= u32::MAX,
            test.total <= u32::MAX,
        ensures
            final(self).wf(),
            final(self).minibatch_size == old(self).minibatch_size,
            final(self).epochs == old(self).epochs,
            final(self).saving_strategy == old(self).saving_strategy,
            final(self).training_history@ == old(self).training_history@.push(train),
            final(self).testing_history@ == old(self).testing_history@.push(test),
            final(self).time_history@ == old(self).time_history@.push(elapsed),
            match old(self).saving_strategy {
                SavingStrategy::EveryEpoch(full) => {
                    &&& r == (if full {
                        SaveAction::Full
                    } else {
                        SaveAction::MetadataOnly
                    })
                    &&& final(self).best_train == old(self).best_train
                    &&& final(self).best_test == old(self).best_test
                },
                SavingStrategy::BestTrainingAccuracy(full) => {
                    &&& final(self).best_test == old(self).best_test
                    &&& if train.beats(old(self).best_train) {
                        r == (if full {
                            SaveAction::Full
                        } else {
                            SaveAction::MetadataOnly
                        }) && final(self).best_train == train
                    } else {
                        r == SaveAction::MetadataOnly && final(self).best_train == old(
                            self,
                        ).best_train
                    }
                },
                SavingStrategy::BestTestingAccuracy(full) => {
                    &&& final(self).best_train == old(self).best_train
                    &&& if test.beats(old(self).best_test) {
                        r == (if full {
                            SaveAction::Full
                        } else {
                            SaveAction::MetadataOnly
                        }) && final(self).best_test == test
                    } else {
                        r == SaveAction::MetadataOnly && final(self).best_test == old(
                            self,
                        ).best_test
                    }
                },
                _ => {
                    &&& r == SaveAction::NoSave
                    &&& final(self).best_train == old(self).best_train
                    &&& final(self).best_test == old(self).best_test
                },
            },
    {
        self.training_history.push(train);
        self.testing_history.push(test);
        self.time_history.push(elapsed);
        match self.saving_strategy {
            SavingStrategy::EveryEpoch(full) => {
                if full {
                    SaveAction::Full
                } else {
                    SaveAction::MetadataOnly
                }
            },
            SavingStrategy::BestTrainingAccuracy(full) => {
                if train.gt(&self.best_train) {
                    self.best_train = train;
                    if full {
                        SaveAction::Full
                    } else {
                        SaveAction::MetadataOnly
                    }
                } else {
                    SaveAction::MetadataOnly
                }
            },
            SavingStrategy::BestTestingAccuracy(full) => {
                if test.gt(&self.best_test) {
                    self.best_test = test;
                    if full {
                        SaveAction::Full
                    } else {
                        SaveAction::MetadataOnly
                    }
                } else {
                    SaveAction::MetadataOnly
                }
            },
            _ => SaveAction::NoSave,
        }
    }
}

} // verus!
