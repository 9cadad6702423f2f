//! Accuracy of a classifier over labeled batches.
//!
//! The predicted label of a sample is the index of its largest logit; the
//! numeric engine computes it. This module counts how many predictions agree
//! with their targets and keeps the two counts from which the accuracy is
//! read: the number of correct predictions over the number of samples.

use vstd::prelude::*;

verus! {

/// The number of positions at which a prediction equals its target.
pub open spec fn count_matches(predictions: Seq<i64>, targets: Seq<i64>) -> nat
    recommends
        predictions.len() == targets.len(),
    decreases predictions.len(),
{
    if predictions.len() == 0 || targets.len() == 0 {
        0
    } else {
        count_matches(predictions.drop_last(), targets.drop_last()) + if predictions.last()
            == targets.last() {
            1nat
        } else {
            0nat
        }
    }
}

/// No more predictions can be correct than were made.
pub proof fn lemma_matches_bounded(predictions: Seq<i64>, targets: Seq<i64>)
    ensures
        count_matches(predictions, targets) <= predictions.len(),
    decreases predictions.len(),
{
    if predictions.len() != 0 && targets.len() != 0 {
        lemma_matches_bounded(predictions.drop_last(), targets.drop_last());
    }
}

/// A predictor that is right on every sample is counted right on every
/// sample.
pub proof fn lemma_all_correct(predictions: Seq<i64>, targets: Seq<i64>)
    requires
        predictions.len() == targets.len(),
        forall|i: int| 0 <= i < predictions.len() ==> predictions[i] == targets[i],
    ensures
        count_matches(predictions, targets) == predictions.len(),
    decreases predictions.len(),
{
    if predictions.len() != 0 {
        lemma_all_correct(predictions.drop_last(), targets.drop_last());
    }
}

/// A predictor that is wrong on every sample is never counted right.
pub proof fn lemma_all_wrong(predictions: Seq<i64>, targets: Seq<i64>)
    requires
        predictions.len() == targets.len(),
        forall|i: int| 0 <= i < predictions.len() ==> predictions[i] != targets[i],
    ensures
        count_matches(predictions, targets) == 0,
    decreases predictions.len(),
{
    if predictions.len() != 0 {
        lemma_all_wrong(predictions.drop_last(), targets.drop_last());
    }
}

/// Counts the positions at which a prediction equals its target.
pub fn count_correct(predictions: &Vec<i64>, targets: &Vec<i64>) -> (correct: usize)
    requires
        predictions@.len() == targets@.len(),
    ensures
        correct == count_matches(predictions@, targets@),
        correct <= predictions@.len(),
{
    let n = predictions.len();
    let mut correct: usize = 0;
    let mut i: usize = 0;
    while i < n
        invariant
            n == predictions@.len(),
            n == targets@.len(),
            i <= n,
            correct <= i,
            correct == count_matches(predictions@.take(i as int), targets@.take(i as int)),
        decreases n - i,
    {
        proof {
            let p = predictions@.take(i + 1);
            let t = targets@.take(i + 1);
            assert(p.drop_last() =~= predictions@.take(i as int));
            assert(t.drop_last() =~= targets@.take(i as int));
        }
        if predictions[i] == targets[i] {
            correct += 1;
        }
        i += 1;
    }
    proof {
        assert(predictions@.take(n as int) =~= predictions@);
        assert(targets@.take(n as int) =~= targets@);
    }
    correct
}

/// The predictions made for one batch, beside the labels that were expected.
#[derive(Debug, Clone, PartialEq, Eq)]
pub struct EvalBatch {
    pub predictions: Vec<i64>,
    pub targets: Vec<i64>,
}

impl EvalBatch {
    /// Every prediction has its target.
    pub open spec fn well_formed(&self) -> bool {
        self.predictions@.len() == self.targets@.len()
    }
}

/// The number of samples in a sequence of batches.
pub open spec fn total_samples(batches: Seq<EvalBatch>) -> nat
    decreases batches.len(),
{
    if batches.len() == 0 {
        0
    } else {
        total_samples(batches.drop_last()) + batches.last().predictions@.len()
    }
}

/// The number of correct predictions in a sequence of batches.
pub open spec fn total_correct(batches: Seq<EvalBatch>) -> nat
    decreases batches.len(),
{
    if batches.len() == 0 {
        0
    } else {
        total_correct(batches.drop_last()) + count_matches(
            batches.last().predictions@,
            batches.last().targets@,
        )
    }
}

/// The outcome of an evaluation pass: how many samples were seen and how many
/// of them were classified correctly.
#[derive(Debug, Clone, Copy, PartialEq, Eq, Structural)]
pub struct Evaluation {
    pub correct: usize,
    pub total: usize,
}

impl Evaluation {
    /// No more samples are correct than were seen.
    pub open spec fn well_formed(&self) -> bool {
        self.correct <= self.total
    }

    /// The numerator of the accuracy.
    pub open spec fn accuracy_numerator(&self) -> nat {
        self.correct as nat
    }

    /// The denominator of the accuracy: the number of samples, or one when no
    /// sample was seen, so that the accuracy of an empty pass is zero.
    pub open spec fn accuracy_denominator(&self) -> nat {
        if self.total == 0 {
            1
        } else {
            self.total as nat
        }
    }

    /// The accuracy is exactly one.
    pub open spec fn is_perfect(&self) -> bool {
        self.accuracy_numerator() == self.accuracy_denominator()
    }

    /// The accuracy is exactly zero.
    pub open spec fn is_zero(&self) -> bool {
        self.accuracy_numerator() == 0
    }

    /// An evaluation that has seen nothing.
    pub fn new() -> (e: Evaluation)
        ensures
            e.correct == 0,
            e.total == 0,
    {
        Evaluation { correct: 0, total: 0 }
    }

    /// Adds the predictions of one batch to the counts.
    pub fn record(&mut self, predictions: &Vec<i64>, targets: &Vec<i64>)
        requires
            predictions@.len() == targets@.len(),
            old(self).well_formed(),
            old(self).total + predictions@.len() <= usize::MAX,
        ensures
            final(self).correct == old(self).correct + count_matches(predictions@, targets@),
            final(self).total == old(self).total + predictions@.len(),
            final(self).well_formed(),
    {
        let correct = count_correct(predictions, targets);
        self.correct = self.correct + correct;
        self.total = self.total + predictions.len();
    }

    /// The denominator of the accuracy.
    pub fn denominator(&self) -> (d: usize)
        ensures
            d == self.accuracy_denominator(),
            d >= 1,
    {
        if self.total == 0 {
            1
        } else {
            self.total
        }
    }
}

/// One full pass over the batches of a loader, in the order in which the
/// loader produced them.
pub fn evaluate(batches: &Vec<EvalBatch>) -> (e: Evaluation)
    requires
        forall|i: int| 0 <= i < batches@.len() ==> (#[trigger] batches@[i]).well_formed(),
        total_samples(batches@) <= usize::MAX,
    ensures
        e.correct == total_correct(batches@),
        e.total == total_samples(batches@),
        e.well_formed(),
{
    let mut e = Evaluation::new();
    let mut i: usize = 0;
    while i < batches.len()
        invariant
            i <= batches@.len(),
            forall|k: int| 0 <= k < batches@.len() ==> (#[trigger] batches@[k]).well_formed(),
            total_samples(batches@) <= usize::MAX,
            e.correct == total_correct(batches@.take(i as int)),
            e.total == total_samples(batches@.take(i as int)),
            e.well_formed(),
        decreases batches@.len() - i,
    {
        proof {
            assert(batches@.take(i + 1).drop_last() =~= batches@.take(i as int));
            lemma_total_samples_monotone(batches@, i + 1);
        }
        e.record(&batches[i].predictions, &batches[i].targets);
        i += 1;
    }
    proof {
        assert(batches@.take(batches@.len() as int) =~= batches@);
    }
    e
}

/// A prefix of the batches holds no more samples than all of them.
pub proof fn lemma_total_samples_monotone(batches: Seq<EvalBatch>, n: int)
    requires
        0 <= n <= batches.len(),
    ensures
        total_samples(batches.take(n)) <= total_samples(batches),
    decreases batches.len(),
{
    if n == batches.len() {
        assert(batches.take(n) =~= batches);
    } else {
        assert(batches.drop_last().take(n) =~= batches.take(n));
        lemma_total_samples_monotone(batches.drop_last(), n);
    }
}

/// The accuracy is one for a predictor that is right on every sample of a
/// non-empty test set.
pub proof fn lemma_always_correct_is_perfect(batches: Seq<EvalBatch>, e: Evaluation)
    requires
        forall|i: int| 0 <= i < batches.len() ==> (#[trigger] batches[i]).well_formed(),
        forall|i: int, j: int|
            0 <= i < batches.len() && 0 <= j < batches[i].predictions@.len()
                ==> batches[i].predictions@[j] == batches[i].targets@[j],
        total_samples(batches) > 0,
        e.correct == total_correct(batches),
        e.total == total_samples(batches),
    ensures
        e.is_perfect(),
{
    lemma_always_correct_counts(batches);
}

proof fn lemma_always_correct_counts(batches: Seq<EvalBatch>)
    requires
        forall|i: int| 0 <= i < batches.len() ==> (#[trigger] batches[i]).well_formed(),
        forall|i: int, j: int|
            0 <= i < batches.len() && 0 <= j < batches[i].predictions@.len()
                ==> batches[i].predictions@[j] == batches[i].targets@[j],
    ensures
        total_correct(batches) == total_samples(batches),
    decreases batches.len(),
{
    if batches.len() != 0 {
        let last = batches.last();
        lemma_all_correct(last.predictions@, last.targets@);
        let rest = batches.drop_last();
        lemma_always_correct_counts(rest);
    }
}

/// The accuracy is zero when every prediction is wrong.
pub proof fn lemma_always_wrong_is_zero(batches: Seq<EvalBatch>, e: Evaluation)
    requires
        forall|i: int| 0 <= i < batches.len() ==> (#[trigger] batches[i]).well_formed(),
        forall|i: int, j: int|
            0 <= i < batches.len() && 0 <= j < batches[i].predictions@.len()
                ==> batches[i].predictions@[j] != batches[i].targets@[j],
        e.correct == total_correct(batches),
        e.total == total_samples(batches),
    ensures
        e.is_zero(),
{
    lemma_always_wrong_counts(batches);
}

proof fn lemma_always_wrong_counts(batches: Seq<EvalBatch>)
    requires
        forall|i: int| 0 <= i < batches.len() ==> (#[trigger] batches[i]).well_formed(),
        forall|i: int, j: int|
            0 <= i < batches.len() && 0 <= j < batches[i].predictions@.len()
                ==> batches[i].predictions@[j] != batches[i].targets@[j],
    ensures
        total_correct(batches) == 0,
    decreases batches.len(),
{
    if batches.len() != 0 {
        let last = batches.last();
        lemma_all_wrong(last.predictions@, last.targets@);
        let rest = batches.drop_last();
        lemma_always_wrong_counts(rest);
    }
}

} // verus!
