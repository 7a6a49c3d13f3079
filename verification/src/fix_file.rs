//! Fixing one path, file or directory, as a sequence of questions.
//!
//! The library never touches the file system. It asks one thing at a time
//! (does this path exist, is it a directory, what does it hold, what does
//! it list), and from the answer it decides what to ask next or how the
//! whole operation ended. Whoever runs it performs each request and
//! answers it; the answer can only be given to the request it belongs to.

use crate::ascii::remove_non_ascii;
use crate::ascii::sanitized_text;
use std::path::PathBuf;
use vstd::prelude::*;

verus! {

/// Why a path could not be fixed.
#[derive(Debug)]
pub enum FixFileError {
    /// Listing, reading or writing failed; the cause is kept as it came.
    Io(std::io::Error),
    /// The path does not exist.
    InvalidFilename,
}

impl From<std::io::Error> for FixFileError {
    fn from(value: std::io::Error) -> (error: Self) {
        FixFileError::Io(value)
    }
}

impl vstd::std_specs::convert::FromSpecImpl<std::io::Error> for FixFileError {
    open spec fn obeys_from_spec() -> bool {
        true
    }

    open spec fn from_spec(value: std::io::Error) -> Self {
        FixFileError::Io(value)
    }
}

/// The path in hand and the entries that wait behind it. An entry is a
/// path to visit, or the error that the listing gave in its place.
struct Visit {
    path: PathBuf,
    // The waiting entries, the next one last.
    later: Vec<Result<PathBuf, std::io::Error>>,
}

/// A visit as contracts see it.
pub struct VisitView {
    /// The path in hand.
    pub path: PathBuf,
    /// The entries that wait, the next one first.
    pub queue: Seq<Result<PathBuf, std::io::Error>>,
}

impl View for Visit {
    type V = VisitView;

    closed spec fn view(&self) -> VisitView {
        VisitView { path: self.path, queue: self.later@.reverse() }
    }
}

/// The request to say whether the path in hand exists.
pub struct ExistsQuery(Visit);

/// The request to say whether the path in hand is a directory.
pub struct IsDirQuery(Visit);

/// The request to list the directory in hand.
pub struct ListQuery(Visit);

/// The request to read the file in hand.
pub struct ReadQuery(Visit);

/// The request to overwrite the file in hand.
pub struct WriteQuery(Visit);

/// What to do next.
pub enum Step {
    /// Say whether the path exists.
    Exists(ExistsQuery),
    /// Say whether the path is a directory.
    IsDir(IsDirQuery),
    /// List the entries of the directory.
    List(ListQuery),
    /// Read the whole file.
    Read(ReadQuery),
    /// Replace the file's contents by the given text.
    Write(WriteQuery, String),
    /// Nothing more: this is how it ended.
    Done(Result<(), FixFileError>),
}

/// A step as contracts see it.
pub enum StepView {
    Exists(VisitView),
    IsDir(VisitView),
    List(VisitView),
    Read(VisitView),
    Write(VisitView, Seq<char>),
    Done(Result<(), FixFileError>),
}

impl View for ExistsQuery {
    type V = VisitView;

    closed spec fn view(&self) -> VisitView {
        self.0@
    }
}

impl View for IsDirQuery {
    type V = VisitView;

    closed spec fn view(&self) -> VisitView {
        self.0@
    }
}

impl View for ListQuery {
    type V = VisitView;

    closed spec fn view(&self) -> VisitView {
        self.0@
    }
}

impl View for ReadQuery {
    type V = VisitView;

    closed spec fn view(&self) -> VisitView {
        self.0@
    }
}

impl View for WriteQuery {
    type V = VisitView;

    closed spec fn view(&self) -> VisitView {
        self.0@
    }
}

impl View for Step {
    type V = StepView;

    open spec fn view(&self) -> StepView {
        match *self {
            Step::Exists(query) => StepView::Exists(query@),
            Step::IsDir(query) => StepView::IsDir(query@),
            Step::List(query) => StepView::List(query@),
            Step::Read(query) => StepView::Read(query@),
            Step::Write(query, text) => StepView::Write(query@, text@),
            Step::Done(outcome) => StepView::Done(outcome),
        }
    }
}

/// How a failed request ends the operation: with its cause, and with
/// nothing that waited being attempted.
pub open spec fn failed(cause: std::io::Error) -> StepView {
    StepView::Done(Err(FixFileError::Io(cause)))
}

/// The step that takes up the first waiting entry. With nothing waiting
/// the operation has succeeded; an entry that is an error ends it.
pub open spec fn take_up(queue: Seq<Result<PathBuf, std::io::Error>>) -> StepView {
    if queue.len() == 0 {
        StepView::Done(Ok(()))
    } else {
        match queue[0] {
            Ok(path) => StepView::Exists(VisitView { path, queue: queue.drop_first() }),
            Err(cause) => failed(cause),
        }
    }
}

/// After the answer to "does it exist": a missing path ends the operation.
pub open spec fn after_exists(visit: VisitView, found: bool) -> StepView {
    if found {
        StepView::IsDir(visit)
    } else {
        StepView::Done(Err(FixFileError::InvalidFilename))
    }
}

/// After the answer to "is it a directory": a directory is listed,
/// anything else is read as a file.
pub open spec fn after_is_dir(visit: VisitView, is_dir: bool) -> StepView {
    if is_dir {
        StepView::List(visit)
    } else {
        StepView::Read(visit)
    }
}

/// After a listing: its entries are visited in the order given, before
/// anything that waited already.
pub open spec fn after_listing(
    visit: VisitView,
    listing: Result<Seq<Result<PathBuf, std::io::Error>>, std::io::Error>,
) -> StepView {
    match listing {
        Ok(entries) => take_up(entries + visit.queue),
        Err(cause) => failed(cause),
    }
}

/// After a read: the same file is to be overwritten by its cleaned
/// contents. A file that could not be read is never written.
pub open spec fn after_contents(
    visit: VisitView,
    contents: Result<Seq<u8>, std::io::Error>,
) -> StepView {
    match contents {
        Ok(bytes) => StepView::Write(visit, sanitized_text(bytes)),
        Err(cause) => failed(cause),
    }
}

/// After a write: on to the next waiting entry.
pub open spec fn after_written(visit: VisitView, written: Result<(), std::io::Error>) -> StepView {
    match written {
        Ok(()) => take_up(visit.queue),
        Err(cause) => failed(cause),
    }
}

/// Moves `items` onto the end of `stack`, last item first.
pub(crate) fn push_reversed<T>(stack: &mut Vec<T>, items: Vec<T>)
    ensures
        final(stack)@ == old(stack)@ + items@.reverse(),
{
    let ghost all = items@;
    let mut items = items;
    while items.len() > 0
        invariant
            items@ == all.take(items@.len() as int),
            items@.len() <= all.len(),
            stack@ == old(stack)@ + all.skip(items@.len() as int).reverse(),
        decreases items@.len(),
    {
        let item = items.pop().unwrap();
        stack.push(item);
    }
}

/// Takes up the last entry of `later`.
fn take_up_next(later: Vec<Result<PathBuf, std::io::Error>>) -> (next: Step)
    ensures
        next@ == take_up(later@.reverse()),
{
    let mut later = later;
    let ghost waiting = later@;
    match later.pop() {
        None => Step::Done(Ok(())),
        Some(Ok(path)) => {
            proof {
                assert(waiting.reverse().drop_first() =~= later@.reverse());
            }
            Step::Exists(ExistsQuery(Visit { path, later }))
        },
        Some(Err(cause)) => Step::Done(Err(FixFileError::from(cause))),
    }
}

/// Begins fixing `path`. Nothing waits yet; the first thing to find out is
/// whether the path exists.
pub fn fix_file(path: &PathBuf) -> (first: Step)
    ensures
        first@ == StepView::Exists(VisitView { path: *path, queue: Seq::empty() }),
{
    Step::Exists(ExistsQuery(Visit { path: path.clone(), later: Vec::new() }))
}

impl ExistsQuery {
    /// The path asked about.
    pub fn path(&self) -> (path: &PathBuf)
        ensures
            *path == self@.path,
    {
        &self.0.path
    }

    /// Takes the answer: whether the path exists.
    pub fn answer(self, found: bool) -> (next: Step)
        ensures
            next@ == after_exists(self@, found),
    {
        if found {
            Step::IsDir(IsDirQuery(self.0))
        } else {
            Step::Done(Err(FixFileError::InvalidFilename))
        }
    }
}

impl IsDirQuery {
    /// The path asked about.
    pub fn path(&self) -> (path: &PathBuf)
        ensures
            *path == self@.path,
    {
        &self.0.path
    }

    /// Takes the answer: whether the path is a directory.
    pub fn answer(self, is_dir: bool) -> (next: Step)
        ensures
            next@ == after_is_dir(self@, is_dir),
    {
        if is_dir {
            Step::List(ListQuery(self.0))
        } else {
            Step::Read(ReadQuery(self.0))
        }
    }
}

impl ListQuery {
    /// The directory to list.
    pub fn path(&self) -> (path: &PathBuf)
        ensures
            *path == self@.path,
    {
        &self.0.path
    }

    /// Takes the answer: the directory's entries in the order the file
    /// system gave them, each a path or the error met in its place; or the
    /// error that kept the directory from being listed at all.
    pub fn answer(
        self,
        listing: Result<Vec<Result<PathBuf, std::io::Error>>, std::io::Error>,
    ) -> (next: Step)
        ensures
            next@ == after_listing(
                self@,
                match listing {
                    Ok(entries) => Ok(entries@),
                    Err(cause) => Err(cause),
                },
            ),
    {
        match listing {
            Ok(entries) => {
                let mut later = self.0.later;
                let ghost waiting = later@;
                push_reversed(&mut later, entries);
                proof {
                    assert(later@.reverse() =~= entries@ + waiting.reverse());
                }
                take_up_next(later)
            },
            Err(cause) => Step::Done(Err(FixFileError::from(cause))),
        }
    }
}

impl ReadQuery {
    /// The file to read.
    pub fn path(&self) -> (path: &PathBuf)
        ensures
            *path == self@.path,
    {
        &self.0.path
    }

    /// Takes the answer: the file's whole contents, or the error that kept
    /// it from being read.
    pub fn answer(self, contents: Result<Vec<u8>, std::io::Error>) -> (next: Step)
        ensures
            next@ == after_contents(
                self@,
                match contents {
                    Ok(bytes) => Ok(bytes@),
                    Err(cause) => Err(cause),
                },
            ),
    {
        match contents {
            Ok(bytes) => {
                let text = remove_non_ascii(bytes.as_slice());
                Step::Write(WriteQuery(self.0), text)
            },
            Err(cause) => Step::Done(Err(FixFileError::from(cause))),
        }
    }
}

impl WriteQuery {
    /// The file to overwrite.
    pub fn path(&self) -> (path: &PathBuf)
        ensures
            *path == self@.path,
    {
        &self.0.path
    }

    /// Takes the answer: whether the write went through.
    pub fn answer(self, written: Result<(), std::io::Error>) -> (next: Step)
        ensures
            next@ == after_written(self@, written),
    {
        match written {
            Ok(()) => take_up_next(self.0.later),
            Err(cause) => Step::Done(Err(FixFileError::from(cause))),
        }
    }
}

} // verus!
