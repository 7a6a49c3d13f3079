//! Fixing a path, told as a descent through the tree below it, and the
//! proof that the step-by-step requests of `fix_file` do just that.
//!
//! The descent is the plain account: a missing path fails; a directory is
//! listed and its entries are fixed one after another, each with all that
//! lies below it, until one fails; a file is read, cleaned and written
//! back. The laws hold of a file system whose answers stay the same while
//! the operation runs.

use crate::ascii::sanitized_text;
use crate::fix_file::after_contents;
use crate::fix_file::after_exists;
use crate::fix_file::after_is_dir;
use crate::fix_file::after_listing;
use crate::fix_file::after_written;
use crate::fix_file::take_up;
use crate::fix_file::FixFileError;
use crate::fix_file::StepView;
use crate::fix_file::VisitView;
use std::path::PathBuf;
use vstd::prelude::*;

verus! {

/// What a file system answers to each request about each path.
pub struct Disk {
    /// Whether the path exists.
    pub found: spec_fn(PathBuf) -> bool,
    /// Whether the path is a directory.
    pub is_dir: spec_fn(PathBuf) -> bool,
    /// What listing the path gives.
    pub listing: spec_fn(PathBuf) -> Result<Seq<Result<PathBuf, std::io::Error>>, std::io::Error>,
    /// What reading the path gives.
    pub contents: spec_fn(PathBuf) -> Result<Seq<u8>, std::io::Error>,
    /// How writing to the path ends.
    pub written: spec_fn(PathBuf) -> Result<(), std::io::Error>,
}

/// A write that was asked for: the file, and the text to put in it.
pub struct Write {
    pub path: PathBuf,
    pub text: Seq<char>,
}

/// How fixing went: how it ended, and the writes asked for on the way, in
/// order.
pub struct Walk {
    pub outcome: Result<(), FixFileError>,
    pub writes: Seq<Write>,
}

/// A walk that ends here with `outcome` and asks for no write.
pub open spec fn ends(outcome: Result<(), FixFileError>) -> Walk {
    Walk { outcome, writes: Seq::empty() }
}

/// Fixing `path` by descent, through at most `depth` levels of
/// directories. `None` where the tree below `path` is deeper than that.
pub open spec fn descend(disk: Disk, path: PathBuf, depth: nat) -> Option<Walk>
    decreases depth, 0nat,
{
    if !(disk.found)(path) {
        Some(ends(Err(FixFileError::InvalidFilename)))
    } else if (disk.is_dir)(path) {
        match (disk.listing)(path) {
            Ok(entries) => if depth == 0 {
                None
            } else {
                descend_each(disk, entries, (depth - 1) as nat)
            },
            Err(cause) => Some(ends(Err(FixFileError::Io(cause)))),
        }
    } else {
        match (disk.contents)(path) {
            Ok(bytes) => Some(
                Walk {
                    outcome: match (disk.written)(path) {
                        Ok(()) => Ok(()),
                        Err(cause) => Err(FixFileError::Io(cause)),
                    },
                    writes: seq![Write { path, text: sanitized_text(bytes) }],
                },
            ),
            Err(cause) => Some(ends(Err(FixFileError::Io(cause)))),
        }
    }
}

/// Fixing the entries of a listing one after another. The first entry
/// that fails, or that the listing gave as an error, ends the walk: the
/// entries behind it are not attempted.
pub open spec fn descend_each(
    disk: Disk,
    entries: Seq<Result<PathBuf, std::io::Error>>,
    depth: nat,
) -> Option<Walk>
    decreases depth, 1 + entries.len(),
{
    if entries.len() == 0 {
        Some(ends(Ok(())))
    } else {
        match entries[0] {
            Ok(path) => match descend(disk, path, depth) {
                Some(first) => if first.outcome is Err {
                    Some(first)
                } else {
                    match descend_each(disk, entries.drop_first(), depth) {
                        Some(rest) => Some(
                            Walk { outcome: rest.outcome, writes: first.writes + rest.writes },
                        ),
                        None => None,
                    }
                },
                None => None,
            },
            Err(cause) => Some(ends(Err(FixFileError::Io(cause)))),
        }
    }
}

/// The step that follows `step` when `disk` answers its request. A step
/// that is done stays as it is.
pub open spec fn answered(disk: Disk, step: StepView) -> StepView {
    match step {
        StepView::Exists(visit) => after_exists(visit, (disk.found)(visit.path)),
        StepView::IsDir(visit) => after_is_dir(visit, (disk.is_dir)(visit.path)),
        StepView::List(visit) => after_listing(visit, (disk.listing)(visit.path)),
        StepView::Read(visit) => after_contents(visit, (disk.contents)(visit.path)),
        StepView::Write(visit, _) => after_written(visit, (disk.written)(visit.path)),
        StepView::Done(_) => step,
    }
}

/// The write that `step` asks for, if it asks for one.
pub open spec fn asked_write(step: StepView) -> Seq<Write> {
    match step {
        StepView::Write(visit, text) => seq![Write { path: visit.path, text }],
        _ => Seq::empty(),
    }
}

/// Where `step` has led after `disk` answered `count` requests.
pub open spec fn run(disk: Disk, step: StepView, count: nat) -> StepView
    decreases count,
{
    if count == 0 {
        step
    } else {
        run(disk, answered(disk, step), (count - 1) as nat)
    }
}

/// The writes asked for from `step` on, while `disk` answered `count`
/// requests.
pub open spec fn writes_in(disk: Disk, step: StepView, count: nat) -> Seq<Write>
    decreases count,
{
    if count == 0 {
        Seq::empty()
    } else {
        asked_write(step) + writes_in(disk, answered(disk, step), (count - 1) as nat)
    }
}

/// The first step of fixing `path`.
pub open spec fn start(path: PathBuf) -> StepView {
    StepView::Exists(VisitView { path, queue: Seq::empty() })
}

/// Where a walk leaves the steps: at its outcome if it failed, else at the
/// entries that waited.
pub open spec fn resumes(
    walk: Walk,
    queue: Seq<Result<PathBuf, std::io::Error>>,
) -> StepView {
    if walk.outcome is Err {
        StepView::Done(walk.outcome)
    } else {
        take_up(queue)
    }
}

proof fn lemma_run_on(disk: Disk, step: StepView, first: nat, then: nat)
    ensures
        run(disk, step, first + then) == run(disk, run(disk, step, first), then),
        writes_in(disk, step, first + then) == writes_in(disk, step, first) + writes_in(
            disk,
            run(disk, step, first),
            then,
        ),
    decreases first,
{
    if first > 0 {
        lemma_run_on(disk, answered(disk, step), (first - 1) as nat, then);
    }
}

proof fn lemma_descend(
    disk: Disk,
    path: PathBuf,
    depth: nat,
    queue: Seq<Result<PathBuf, std::io::Error>>,
) -> (count: nat)
    requires
        descend(disk, path, depth) is Some,
    ensures
        run(disk, StepView::Exists(VisitView { path, queue }), count) == resumes(
            descend(disk, path, depth)->0,
            queue,
        ),
        writes_in(disk, StepView::Exists(VisitView { path, queue }), count) == descend(
            disk,
            path,
            depth,
        )->0.writes,
    decreases depth, 0nat,
{
    // Asking whether the path exists, whether it is a directory, and for
    // its listing or contents takes three answers; a write takes a fourth.
    reveal_with_fuel(run, 5);
    reveal_with_fuel(writes_in, 5);
    let asks = StepView::Exists(VisitView { path, queue });
    if !(disk.found)(path) {
        1
    } else if (disk.is_dir)(path) {
        match (disk.listing)(path) {
            Ok(entries) => {
                let below = lemma_descend_each(disk, entries, (depth - 1) as nat, queue);
                lemma_run_on(disk, asks, 3, below);
                3 + below
            },
            Err(_) => 3,
        }
    } else {
        match (disk.contents)(path) {
            Ok(_) => 4,
            Err(_) => 3,
        }
    }
}

proof fn lemma_descend_each(
    disk: Disk,
    entries: Seq<Result<PathBuf, std::io::Error>>,
    depth: nat,
    queue: Seq<Result<PathBuf, std::io::Error>>,
) -> (count: nat)
    requires
        descend_each(disk, entries, depth) is Some,
    ensures
        run(disk, take_up(entries + queue), count) == resumes(
            descend_each(disk, entries, depth)->0,
            queue,
        ),
        writes_in(disk, take_up(entries + queue), count) == descend_each(
            disk,
            entries,
            depth,
        )->0.writes,
    decreases depth, 1 + entries.len(),
{
    let from = take_up(entries + queue);
    if entries.len() == 0 {
        return 0;
    }
    match entries[0] {
        Ok(path) => {
            let behind = entries.drop_first();
            assert((entries + queue).drop_first() =~= behind + queue);
            let first = descend(disk, path, depth)->0;
            let head = lemma_descend(disk, path, depth, behind + queue);
            if first.outcome is Err {
                head
            } else {
                let tail = lemma_descend_each(disk, behind, depth, queue);
                lemma_run_on(disk, from, head, tail);
                head + tail
            }
        },
        Err(_) => 0,
    }
}

/// The requests of `fix_file`, answered one by one, fix `path` as the
/// descent does: they end as it ends, and they ask for the same writes in
/// the same order. So a file is written only after it was read, with its
/// cleaned contents, and nothing behind a failure is written.
pub proof fn lemma_steps_follow_descent(disk: Disk, path: PathBuf, depth: nat)
    requires
        descend(disk, path, depth) is Some,
    ensures
        exists|count: nat|
            {
                &&& #[trigger] run(disk, start(path), count) == StepView::Done(
                    descend(disk, path, depth)->0.outcome,
                )
                &&& writes_in(disk, start(path), count) == descend(disk, path, depth)->0.writes
            },
{
    let count = lemma_descend(disk, path, depth, Seq::empty());
    let outcome = descend(disk, path, depth)->0.outcome;
    assert(run(disk, start(path), count) == StepView::Done(outcome)) by {
        if outcome is Ok {
            assert(outcome->Ok_0 == ());
        }
    }
}

} // verus!
