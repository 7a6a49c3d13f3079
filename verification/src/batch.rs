//! Fixing several paths one after another. A path that fails is noted and
//! the next one is taken up all the same.

use crate::fix_file::push_reversed;
use crate::fix_file::FixFileError;
use std::path::PathBuf;
use vstd::prelude::*;

verus! {

/// A path that could not be fixed, and why.
#[derive(Debug)]
pub struct Failure {
    pub path: PathBuf,
    pub error: FixFileError,
}

/// The path whose turn it is, the paths that wait, and the failures so far.
pub struct Batch {
    path: PathBuf,
    // The waiting paths, the next one last.
    later: Vec<PathBuf>,
    failures: Vec<Failure>,
}

/// A batch as contracts see it.
pub struct BatchView {
    /// The path whose turn it is.
    pub path: PathBuf,
    /// The paths that wait, the next one first.
    pub queue: Seq<PathBuf>,
    /// The failures so far, oldest first.
    pub failures: Seq<Failure>,
}

impl View for Batch {
    type V = BatchView;

    closed spec fn view(&self) -> BatchView {
        BatchView { path: self.path, queue: self.later@.reverse(), failures: self.failures@ }
    }
}

/// What to do next.
pub enum BatchStep {
    /// Fix the batch's path and record how that ended.
    Fix(Batch),
    /// Every path has had its turn; these are the ones that failed.
    Done(Vec<Failure>),
}

/// A batch step as contracts see it.
pub enum BatchStepView {
    Fix(BatchView),
    Done(Seq<Failure>),
}

impl View for BatchStep {
    type V = BatchStepView;

    open spec fn view(&self) -> BatchStepView {
        match *self {
            BatchStep::Fix(batch) => BatchStepView::Fix(batch@),
            BatchStep::Done(failures) => BatchStepView::Done(failures@),
        }
    }
}

/// The step that gives the first waiting path its turn, or ends the batch
/// when none waits.
pub open spec fn proceed(queue: Seq<PathBuf>, failures: Seq<Failure>) -> BatchStepView {
    if queue.len() == 0 {
        BatchStepView::Done(failures)
    } else {
        BatchStepView::Fix(BatchView { path: queue[0], queue: queue.drop_first(), failures })
    }
}

/// The failures after `path` ended with `outcome`: one more if it failed.
pub open spec fn noted(
    failures: Seq<Failure>,
    path: PathBuf,
    outcome: Result<(), FixFileError>,
) -> Seq<Failure> {
    match outcome {
        Ok(()) => failures,
        Err(error) => failures.push(Failure { path, error }),
    }
}

/// After the batch's path ended with `outcome`: the outcome is noted and
/// the next path has its turn, whether this one failed or not.
pub open spec fn after_outcome(batch: BatchView, outcome: Result<(), FixFileError>) -> BatchStepView {
    proceed(batch.queue, noted(batch.failures, batch.path, outcome))
}

/// Where a batch stands once the paths whose turn comes next have ended
/// with `outcomes`, in that order.
pub open spec fn after_outcomes(
    step: BatchStepView,
    outcomes: Seq<Result<(), FixFileError>>,
) -> BatchStepView
    decreases outcomes.len(),
{
    if outcomes.len() == 0 {
        step
    } else {
        match step {
            BatchStepView::Fix(batch) => after_outcomes(
                after_outcome(batch, outcomes[0]),
                outcomes.drop_first(),
            ),
            BatchStepView::Done(_) => step,
        }
    }
}

/// The failures among `paths`, given how each ended: one for each path
/// whose outcome is an error, in the order of the paths.
pub open spec fn failures_among(
    paths: Seq<PathBuf>,
    outcomes: Seq<Result<(), FixFileError>>,
) -> Seq<Failure>
    recommends
        paths.len() == outcomes.len(),
    decreases paths.len(),
{
    if paths.len() == 0 || outcomes.len() == 0 {
        Seq::empty()
    } else {
        noted(Seq::empty(), paths[0], outcomes[0]) + failures_among(
            paths.drop_first(),
            outcomes.drop_first(),
        )
    }
}

proof fn lemma_batch_from(
    paths: Seq<PathBuf>,
    outcomes: Seq<Result<(), FixFileError>>,
    failures: Seq<Failure>,
)
    requires
        paths.len() == outcomes.len(),
    ensures
        after_outcomes(proceed(paths, failures), outcomes) == BatchStepView::Done(
            failures + failures_among(paths, outcomes),
        ),
    decreases paths.len(),
{
    if paths.len() == 0 {
    } else {
        let next = noted(failures, paths[0], outcomes[0]);
        lemma_batch_from(paths.drop_first(), outcomes.drop_first(), next);
        assert(next + failures_among(paths.drop_first(), outcomes.drop_first()) =~= failures
            + failures_among(paths, outcomes));
    }
}

/// A failure does not stop a batch: when each of `paths` has ended with
/// its outcome, the batch is done, and what it hands back are the failures
/// among all of them, in order.
pub proof fn lemma_every_path_has_its_turn(
    paths: Seq<PathBuf>,
    outcomes: Seq<Result<(), FixFileError>>,
)
    requires
        paths.len() == outcomes.len(),
    ensures
        after_outcomes(proceed(paths, Seq::empty()), outcomes) == BatchStepView::Done(
            failures_among(paths, outcomes),
        ),
{
    lemma_batch_from(paths, outcomes, Seq::empty());
}

/// Begins a batch over `paths`, which have their turns in the order given.
pub fn process_all(paths: Vec<PathBuf>) -> (first: BatchStep)
    ensures
        first@ == proceed(paths@, Seq::empty()),
{
    let mut later: Vec<PathBuf> = Vec::new();
    push_reversed(&mut later, paths);
    proof {
        assert(later@.reverse() =~= paths@);
    }
    take_turn(later, Vec::new())
}

/// Gives the last path of `later` its turn.
fn take_turn(later: Vec<PathBuf>, failures: Vec<Failure>) -> (next: BatchStep)
    ensures
        next@ == proceed(later@.reverse(), failures@),
{
    let mut later = later;
    let ghost waiting = later@;
    match later.pop() {
        None => BatchStep::Done(failures),
        Some(path) => {
            proof {
                assert(waiting.reverse().drop_first() =~= later@.reverse());
            }
            BatchStep::Fix(Batch { path, later, failures })
        },
    }
}

impl Batch {
    /// The path whose turn it is.
    pub fn path(&self) -> (path: &PathBuf)
        ensures
            *path == self@.path,
    {
        &self.path
    }

    /// Records how fixing the batch's path ended.
    pub fn record(self, outcome: Result<(), FixFileError>) -> (next: BatchStep)
        ensures
            next@ == after_outcome(self@, outcome),
    {
        let mut failures = self.failures;
        match outcome {
            Ok(()) => {},
            Err(error) => {
                failures.push(Failure { path: self.path, error });
            },
        }
        take_turn(self.later, failures)
    }
}

} // verus!
