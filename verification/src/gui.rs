//! The state behind the window: which files are selected, which dialog is
//! up, what went wrong. Each message from the window changes the state and
//! may ask for work that only the program around the library can do.

use crate::batch::proceed;
use crate::batch::process_all;
use crate::batch::BatchStep;
use crate::batch::BatchStepView;
use crate::batch::Failure;
use crate::fix_file::FixFileError;
use crate::platform::displayed;
use crate::platform::io_error_text;
use crate::platform::path_display;
use crate::platform::path_matches;
use crate::platform::same_path;
use std::path::PathBuf;
use vstd::prelude::*;

verus! {

/// What the window can report.
#[derive(Debug)]
pub enum Message {
    PickFiles,
    PickFolders,
    FixFiles,
    ShowFixFilesDialog,
    HideFixFilesDialog,
    HideErrorModal,
    LinkClicked(String),
    RemoveFile(PathBuf),
    RemoveAll,
}

impl Clone for Message {
    fn clone(&self) -> (copy: Self)
        ensures
            copy == *self,
    {
        match self {
            Message::PickFiles => Message::PickFiles,
            Message::PickFolders => Message::PickFolders,
            Message::FixFiles => Message::FixFiles,
            Message::ShowFixFilesDialog => Message::ShowFixFilesDialog,
            Message::HideFixFilesDialog => Message::HideFixFilesDialog,
            Message::HideErrorModal => Message::HideErrorModal,
            Message::LinkClicked(link) => Message::LinkClicked(link.clone()),
            Message::RemoveFile(file) => Message::RemoveFile(file.clone()),
            Message::RemoveAll => Message::RemoveAll,
        }
    }
}

/// Work that a message asks of the program around the library.
pub enum Effect {
    /// Nothing to do.
    Nothing,
    /// Let the user pick files, and hand the choice to `add_files`.
    PickFiles,
    /// Let the user pick folders, and hand the choice to `add_files`.
    PickFolders,
    /// Run the batch to its end, and hand its failures to `report`.
    Fix(BatchStep),
    /// Open the link.
    Open(String),
}

/// An effect as contracts see it.
pub enum EffectView {
    Nothing,
    PickFiles,
    PickFolders,
    Fix(BatchStepView),
    Open(Seq<char>),
}

impl View for Effect {
    type V = EffectView;

    open spec fn view(&self) -> EffectView {
        match *self {
            Effect::Nothing => EffectView::Nothing,
            Effect::PickFiles => EffectView::PickFiles,
            Effect::PickFolders => EffectView::PickFolders,
            Effect::Fix(step) => EffectView::Fix(step@),
            Effect::Open(link) => EffectView::Open(link@),
        }
    }
}

/// What lies over the window's main area.
#[derive(Debug, Clone, Copy, PartialEq, Eq)]
pub enum Overlay {
    /// Nothing.
    Hidden,
    /// The note that no file is selected.
    NothingSelected,
    /// The question whether to overwrite the selected files.
    Confirm,
    /// The list of what went wrong.
    Errors,
}

/// What the middle of the window shows.
#[derive(Debug, Clone, Copy, PartialEq, Eq)]
pub enum ListArea {
    /// The note that the files have been fixed.
    Finished,
    /// The note that no file is selected.
    NothingSelected,
    /// The selected files.
    Files,
}

/// The state behind the window.
pub struct AsciiFixer {
    /// The selected paths, in the order they were added.
    pub files: Vec<PathBuf>,
    /// Whether the dialog before fixing is up.
    pub show_dialog: bool,
    /// What went wrong, one message for each path that failed.
    pub error_modals: Vec<String>,
    /// Whether the last thing done was a fix.
    pub is_finished: bool,
}

/// The state as contracts see it.
pub struct AsciiFixerView {
    pub files: Seq<PathBuf>,
    pub show_dialog: bool,
    pub error_modals: Seq<Seq<char>>,
    pub is_finished: bool,
}

/// Each string of `lines` as the characters it holds.
pub open spec fn texts(lines: Seq<String>) -> Seq<Seq<char>> {
    lines.map_values(|line: String| line@)
}

impl View for AsciiFixer {
    type V = AsciiFixerView;

    open spec fn view(&self) -> AsciiFixerView {
        AsciiFixerView {
            files: self.files@,
            show_dialog: self.show_dialog,
            error_modals: texts(self.error_modals@),
            is_finished: self.is_finished,
        }
    }
}

/// The state of a window just opened: nothing selected, nothing shown.
pub open spec fn initial() -> AsciiFixerView {
    AsciiFixerView {
        files: Seq::empty(),
        show_dialog: false,
        error_modals: Seq::empty(),
        is_finished: false,
    }
}

/// The message for a path that does not exist.
pub open spec fn missing_path_text(path: Seq<char>) -> Seq<char> {
    "Pfad '"@ + path + "' existiert nicht"@
}

/// The message for a path that could not be listed, read or written.
pub open spec fn io_failure_text(path: Seq<char>, cause: Seq<char>) -> Seq<char> {
    "Es ist ein Fehler bei dem Schreiben oder Lesen der Datei '"@ + path + "' aufgetreten:\n"@
        + cause
}

/// Whether `text` is the message for `failure`: the message of its kind,
/// with the path as it reads on screen and, for a failed listing, read or
/// write, with some wording of the cause.
pub open spec fn describes(text: Seq<char>, failure: Failure) -> bool {
    match failure.error {
        FixFileError::Io(_) => exists|cause: Seq<char>|
            text == io_failure_text(displayed(failure.path), cause),
        FixFileError::InvalidFilename => text == missing_path_text(displayed(failure.path)),
    }
}

/// `lines` with `separator` between each two.
pub open spec fn joined(lines: Seq<Seq<char>>, separator: Seq<char>) -> Seq<char>
    decreases lines.len(),
{
    if lines.len() == 0 {
        Seq::empty()
    } else if lines.len() == 1 {
        lines[0]
    } else {
        joined(lines.drop_last(), separator) + separator + lines.last()
    }
}

/// `files` without the first of them that equals `target`.
pub open spec fn without_first(files: Seq<PathBuf>, target: PathBuf) -> Seq<PathBuf>
    decreases files.len(),
{
    if files.len() == 0 {
        files
    } else if path_matches(files[0], target) {
        files.drop_first()
    } else {
        seq![files[0]] + without_first(files.drop_first(), target)
    }
}

/// The state and the effect after a message.
pub open spec fn after_message(state: AsciiFixerView, message: Message) -> (
    AsciiFixerView,
    EffectView,
) {
    match message {
        Message::PickFiles => (state, EffectView::PickFiles),
        Message::PickFolders => (state, EffectView::PickFolders),
        Message::FixFiles => (
            AsciiFixerView {
                files: Seq::empty(),
                show_dialog: false,
                is_finished: true,
                ..state
            },
            EffectView::Fix(proceed(state.files, Seq::empty())),
        ),
        Message::ShowFixFilesDialog => (
            AsciiFixerView { show_dialog: true, ..state },
            EffectView::Nothing,
        ),
        Message::HideFixFilesDialog => (
            AsciiFixerView { show_dialog: false, ..state },
            EffectView::Nothing,
        ),
        Message::HideErrorModal => (
            AsciiFixerView { error_modals: Seq::empty(), ..state },
            EffectView::Nothing,
        ),
        Message::LinkClicked(link) => (state, EffectView::Open(link@)),
        Message::RemoveFile(target) => (
            AsciiFixerView { files: without_first(state.files, target), ..state },
            EffectView::Nothing,
        ),
        Message::RemoveAll => (AsciiFixerView { files: Seq::empty(), ..state }, EffectView::Nothing),
    }
}

/// Writes the message for a path that does not exist.
pub fn missing_path_message(path: &str) -> (text: String)
    ensures
        text@ == missing_path_text(path@),
{
    let mut text = String::from_str("Pfad '");
    text.append(path);
    text.append("' existiert nicht");
    text
}

/// Writes the message for a path that could not be listed, read or
/// written.
pub fn io_failure_message(path: &str, cause: &str) -> (text: String)
    ensures
        text@ == io_failure_text(path@, cause@),
{
    let mut text = String::from_str("Es ist ein Fehler bei dem Schreiben oder Lesen der Datei '");
    text.append(path);
    text.append("' aufgetreten:\n");
    text.append(cause);
    text
}

/// Writes the message for a failure. The path and the cause are written
/// out as the platform writes them.
pub fn failure_message(failure: &Failure) -> (text: String)
    ensures
        describes(text@, *failure),
{
    let path = path_display(&failure.path);
    match &failure.error {
        FixFileError::Io(cause) => {
            let cause = io_error_text(cause);
            io_failure_message(path.as_str(), cause.as_str())
        },
        FixFileError::InvalidFilename => missing_path_message(path.as_str()),
    }
}

/// The index of the first of `files` that equals `target`.
fn position_of(files: &Vec<PathBuf>, target: &PathBuf) -> (position: Option<usize>)
    ensures
        match position {
            Some(i) => {
                &&& i < files@.len()
                &&& path_matches(files@[i as int], *target)
                &&& forall|j: int| 0 <= j < i ==> !path_matches(#[trigger] files@[j], *target)
            },
            None => forall|j: int|
                0 <= j < files@.len() ==> !path_matches(#[trigger] files@[j], *target),
        },
        files@.contains(*target) ==> position is Some,
{
    let mut i: usize = 0;
    while i < files.len()
        invariant
            i <= files@.len(),
            forall|j: int| 0 <= j < i ==> !path_matches(#[trigger] files@[j], *target),
            forall|j: int| 0 <= j < i ==> files@[j] != *target,
        decreases files@.len() - i,
    {
        if same_path(&files[i], target) {
            return Some(i);
        }
        i += 1;
    }
    None
}

proof fn lemma_without_first(files: Seq<PathBuf>, target: PathBuf, first: int)
    requires
        0 <= first <= files.len(),
        first < files.len() ==> path_matches(files[first], target),
        forall|j: int| 0 <= j < first ==> !path_matches(#[trigger] files[j], target),
    ensures
        without_first(files, target) == if first < files.len() {
            files.remove(first)
        } else {
            files
        },
    decreases files.len(),
{
    if first > 0 {
        lemma_without_first(files.drop_first(), target, first - 1);
    }
}

impl Default for AsciiFixer {
    fn default() -> (fixer: Self)
        ensures
            fixer@ == initial(),
    {
        let fixer = AsciiFixer {
            files: Vec::new(),
            show_dialog: false,
            error_modals: Vec::new(),
            is_finished: false,
        };
        proof {
            assert(fixer@.error_modals =~= Seq::empty());
        }
        fixer
    }
}

impl AsciiFixer {
    /// Takes a message from the window. Picking, fixing and opening a link
    /// are handed back as effects; everything else is done here.
    pub fn update(&mut self, message: Message) -> (effect: Effect)
        ensures
            (final(self)@, effect@) == after_message(old(self)@, message),
            message matches Message::RemoveFile(target) && old(self)@.files.contains(target)
                ==> final(self)@.files.len() + 1 == old(self)@.files.len(),
    {
        match message {
            Message::PickFiles => Effect::PickFiles,
            Message::PickFolders => Effect::PickFolders,
            Message::FixFiles => {
                let mut files: Vec<PathBuf> = Vec::new();
                std::mem::swap(&mut self.files, &mut files);
                self.show_dialog = false;
                self.is_finished = true;
                Effect::Fix(process_all(files))
            },
            Message::ShowFixFilesDialog => {
                self.show_dialog = true;
                Effect::Nothing
            },
            Message::HideFixFilesDialog => {
                self.show_dialog = false;
                Effect::Nothing
            },
            Message::HideErrorModal => {
                self.error_modals.clear();
                proof {
                    assert(self@.error_modals =~= Seq::empty());
                }
                Effect::Nothing
            },
            Message::LinkClicked(link) => Effect::Open(link),
            Message::RemoveFile(target) => {
                match position_of(&self.files, &target) {
                    Some(position) => {
                        proof {
                            lemma_without_first(self.files@, target, position as int);
                        }
                        self.files.remove(position);
                    },
                    None => {
                        proof {
                            lemma_without_first(self.files@, target, self.files@.len() as int);
                        }
                    },
                }
                Effect::Nothing
            },
            Message::RemoveAll => {
                self.files.clear();
                Effect::Nothing
            },
        }
    }

    /// Adds what the user picked to the selection; a dialog that was
    /// cancelled adds nothing. Either way the note that files have been
    /// fixed goes away.
    pub fn add_files(&mut self, files: Option<Vec<PathBuf>>)
        ensures
            final(self)@ == (AsciiFixerView {
                files: old(self)@.files + match files {
                    Some(picked) => picked@,
                    None => Seq::empty(),
                },
                is_finished: false,
                ..old(self)@
            }),
    {
        match files {
            Some(picked) => {
                let mut picked = picked;
                self.files.append(&mut picked);
            },
            None => {},
        }
        self.is_finished = false;
    }

    /// Adds one message for each failure of a batch, in the batch's order,
    /// after the messages that are there already.
    pub fn report(&mut self, failures: Vec<Failure>)
        ensures
            final(self)@.files == old(self)@.files,
            final(self)@.show_dialog == old(self)@.show_dialog,
            final(self)@.is_finished == old(self)@.is_finished,
            final(self)@.error_modals.len() == old(self)@.error_modals.len() + failures@.len(),
            final(self)@.error_modals.take(old(self)@.error_modals.len() as int) == old(
                self,
            )@.error_modals,
            forall|k: int|
                0 <= k < failures@.len() ==> describes(
                    #[trigger] final(self)@.error_modals[old(self)@.error_modals.len() + k],
                    failures@[k],
                ),
    {
        let ghost before = self@.error_modals;
        let mut k: usize = 0;
        while k < failures.len()
            invariant
                k <= failures@.len(),
                self@.files == old(self)@.files,
                self@.show_dialog == old(self)@.show_dialog,
                self@.is_finished == old(self)@.is_finished,
                before == old(self)@.error_modals,
                self@.error_modals.len() == before.len() + k,
                self@.error_modals.take(before.len() as int) == before,
                forall|m: int|
                    0 <= m < k ==> describes(
                        #[trigger] self@.error_modals[before.len() + m],
                        failures@[m],
                    ),
            decreases failures@.len() - k,
        {
            let ghost so_far = self@.error_modals;
            let text = failure_message(&failures[k]);
            self.error_modals.push(text);
            proof {
                assert(self@.error_modals =~= so_far.push(text@));
            }
            k += 1;
        }
    }

    /// Which overlay the window shows. The dialog before fixing comes
    /// first: a note where nothing is selected, the question otherwise.
    /// Without it, the errors show as long as there are any.
    pub fn overlay(&self) -> (overlay: Overlay)
        ensures
            overlay == if self@.show_dialog {
                if self@.files.len() == 0 {
                    Overlay::NothingSelected
                } else {
                    Overlay::Confirm
                }
            } else if self@.error_modals.len() > 0 {
                Overlay::Errors
            } else {
                Overlay::Hidden
            },
    {
        if self.show_dialog {
            if self.files.is_empty() {
                Overlay::NothingSelected
            } else {
                Overlay::Confirm
            }
        } else if !self.error_modals.is_empty() {
            Overlay::Errors
        } else {
            Overlay::Hidden
        }
    }

    /// What the middle of the window shows: the selected files, or a note
    /// in their place where none is selected.
    pub fn list_area(&self) -> (area: ListArea)
        ensures
            area == if self@.files.len() > 0 {
                ListArea::Files
            } else if self@.is_finished {
                ListArea::Finished
            } else {
                ListArea::NothingSelected
            },
    {
        if !self.files.is_empty() {
            ListArea::Files
        } else if self.is_finished {
            ListArea::Finished
        } else {
            ListArea::NothingSelected
        }
    }

    /// The text of the error overlay: the messages, one to a line.
    pub fn error_report(&self) -> (text: String)
        ensures
            text@ == joined(self@.error_modals, seq!['\n']) + seq!['\n'],
    {
        proof {
            reveal_strlit("\n");
        }
        let mut text = String::new();
        let mut i: usize = 0;
        while i < self.error_modals.len()
            invariant
                i <= self.error_modals@.len(),
                "\n"@ == seq!['\n'],
                text@ == joined(self@.error_modals.take(i as int), seq!['\n']),
            decreases self.error_modals@.len() - i,
        {
            if i > 0 {
                text.append("\n");
            }
            text.append(self.error_modals[i].as_str());
            i += 1;
            assert(self@.error_modals.take(i as int).drop_last() =~= self@.error_modals.take(
                i - 1,
            ));
        }
        assert(self@.error_modals.take(i as int) =~= self@.error_modals);
        text.append("\n");
        text
    }
}

} // verus!
