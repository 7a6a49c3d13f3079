use ascii_fixer::batch::BatchStep;
use ascii_fixer::batch::Failure;
use ascii_fixer::fix_file::FixFileError;
use ascii_fixer::gui::failure_message;
use ascii_fixer::gui::io_failure_message;
use ascii_fixer::gui::missing_path_message;
use ascii_fixer::gui::AsciiFixer;
use ascii_fixer::gui::Effect;
use ascii_fixer::gui::ListArea;
use ascii_fixer::gui::Message;
use ascii_fixer::gui::Overlay;
use std::io::Error;
use std::io::ErrorKind;
use std::path::PathBuf;

fn paths(names: &[&str]) -> Vec<PathBuf> {
    names.iter().map(PathBuf::from).collect()
}

fn with_files(names: &[&str]) -> AsciiFixer {
    let mut fixer = AsciiFixer::default();
    fixer.add_files(Some(paths(names)));
    fixer
}

fn missing(path: &str) -> Failure {
    Failure { path: PathBuf::from(path), error: FixFileError::InvalidFilename }
}

fn denied(path: &str) -> Failure {
    Failure {
        path: PathBuf::from(path),
        error: FixFileError::Io(Error::new(ErrorKind::PermissionDenied, "no entry")),
    }
}

#[test]
fn new_window_is_empty() {
    let fixer = AsciiFixer::default();
    assert!(fixer.files.is_empty());
    assert!(!fixer.show_dialog);
    assert!(fixer.error_modals.is_empty());
    assert!(!fixer.is_finished);
    assert_eq!(fixer.overlay(), Overlay::Hidden);
    assert_eq!(fixer.list_area(), ListArea::NothingSelected);
}

#[test]
fn picked_files_are_added_behind_the_others() {
    let mut fixer = with_files(&["a", "b"]);
    fixer.add_files(Some(paths(&["c", "a"])));
    assert_eq!(fixer.files, paths(&["a", "b", "c", "a"]));
    assert_eq!(fixer.list_area(), ListArea::Files);
}

#[test]
fn cancelled_dialog_adds_nothing() {
    let mut fixer = with_files(&["a"]);
    fixer.add_files(None);
    assert_eq!(fixer.files, paths(&["a"]));
}

#[test]
fn adding_files_takes_the_finished_note_away() {
    let mut fixer = AsciiFixer::default();
    fixer.is_finished = true;
    assert_eq!(fixer.list_area(), ListArea::Finished);
    fixer.add_files(None);
    assert!(!fixer.is_finished);
    assert_eq!(fixer.list_area(), ListArea::NothingSelected);
}

#[test]
fn picking_is_handed_back() {
    let mut fixer = with_files(&["a"]);
    assert!(matches!(fixer.update(Message::PickFiles), Effect::PickFiles));
    assert!(matches!(fixer.update(Message::PickFolders), Effect::PickFolders));
    assert_eq!(fixer.files, paths(&["a"]));
    assert!(!fixer.show_dialog);
}

#[test]
fn link_is_handed_back() {
    let mut fixer = AsciiFixer::default();
    match fixer.update(Message::LinkClicked("https://example.org/".to_string())) {
        Effect::Open(link) => assert_eq!(link, "https://example.org/"),
        _ => panic!("a clicked link is to be opened"),
    }
}

#[test]
fn dialog_shows_and_hides() {
    let mut fixer = AsciiFixer::default();
    assert!(matches!(fixer.update(Message::ShowFixFilesDialog), Effect::Nothing));
    assert!(fixer.show_dialog);
    assert_eq!(fixer.overlay(), Overlay::NothingSelected);
    fixer.add_files(Some(paths(&["a"])));
    assert_eq!(fixer.overlay(), Overlay::Confirm);
    assert!(matches!(fixer.update(Message::HideFixFilesDialog), Effect::Nothing));
    assert!(!fixer.show_dialog);
    assert_eq!(fixer.overlay(), Overlay::Hidden);
}

#[test]
fn removing_takes_the_first_equal_path() {
    let mut fixer = with_files(&["a", "b", "a", "c"]);
    assert!(matches!(fixer.update(Message::RemoveFile(PathBuf::from("a"))), Effect::Nothing));
    assert_eq!(fixer.files, paths(&["b", "a", "c"]));
    fixer.update(Message::RemoveFile(PathBuf::from("c")));
    assert_eq!(fixer.files, paths(&["b", "a"]));
}

#[test]
fn removing_an_unselected_path_changes_nothing() {
    let mut fixer = with_files(&["a", "b"]);
    fixer.update(Message::RemoveFile(PathBuf::from("z")));
    assert_eq!(fixer.files, paths(&["a", "b"]));
}

#[test]
fn removing_compares_paths_not_spellings() {
    let mut fixer = with_files(&["dir/a", "dir/b"]);
    fixer.update(Message::RemoveFile(PathBuf::from("dir//b/")));
    assert_eq!(fixer.files, paths(&["dir/a"]));
}

#[test]
fn remove_all_empties_the_selection_only() {
    let mut fixer = with_files(&["a", "b"]);
    fixer.show_dialog = true;
    fixer.error_modals.push("old".to_string());
    assert!(matches!(fixer.update(Message::RemoveAll), Effect::Nothing));
    assert!(fixer.files.is_empty());
    assert!(fixer.show_dialog);
    assert_eq!(fixer.error_modals, ["old"]);
}

#[test]
fn fixing_hands_the_selection_to_a_batch() {
    let mut fixer = with_files(&["a", "b"]);
    fixer.update(Message::ShowFixFilesDialog);
    let effect = fixer.update(Message::FixFiles);
    assert!(fixer.files.is_empty());
    assert!(!fixer.show_dialog);
    assert!(fixer.is_finished);
    assert_eq!(fixer.list_area(), ListArea::Finished);
    let batch = match effect {
        Effect::Fix(BatchStep::Fix(batch)) => batch,
        _ => panic!("two paths are to be fixed"),
    };
    assert_eq!(batch.path(), &PathBuf::from("a"));
    let batch = match batch.record(Ok(())) {
        BatchStep::Fix(batch) => batch,
        BatchStep::Done(_) => panic!("one path is left"),
    };
    assert_eq!(batch.path(), &PathBuf::from("b"));
    match batch.record(Err(FixFileError::InvalidFilename)) {
        BatchStep::Done(failures) => {
            assert_eq!(failures.len(), 1);
            fixer.report(failures);
        }
        BatchStep::Fix(_) => panic!("no path is left"),
    }
    assert_eq!(fixer.error_modals, ["Pfad 'b' existiert nicht"]);
    assert_eq!(fixer.overlay(), Overlay::Errors);
}

#[test]
fn fixing_nothing_is_done_at_once() {
    let mut fixer = AsciiFixer::default();
    match fixer.update(Message::FixFiles) {
        Effect::Fix(BatchStep::Done(failures)) => assert!(failures.is_empty()),
        _ => panic!("an empty selection leaves nothing to fix"),
    }
    assert!(fixer.is_finished);
}

#[test]
fn messages_name_the_path_and_the_cause() {
    assert_eq!(missing_path_message("a b.txt"), "Pfad 'a b.txt' existiert nicht");
    assert_eq!(missing_path_message(""), "Pfad '' existiert nicht");
    assert_eq!(
        io_failure_message("dir/x", "permission denied"),
        "Es ist ein Fehler bei dem Schreiben oder Lesen der Datei 'dir/x' aufgetreten:\npermission denied"
    );
    assert_eq!(failure_message(&missing("gone.txt")), "Pfad 'gone.txt' existiert nicht");
    assert_eq!(
        failure_message(&denied("locked.txt")),
        "Es ist ein Fehler bei dem Schreiben oder Lesen der Datei 'locked.txt' aufgetreten:\nno entry"
    );
}

#[test]
fn report_adds_one_message_for_each_failure() {
    let mut fixer = with_files(&["kept"]);
    fixer.error_modals.push("earlier".to_string());
    fixer.report(vec![denied("one"), missing("two")]);
    assert_eq!(
        fixer.error_modals,
        [
            "earlier",
            "Es ist ein Fehler bei dem Schreiben oder Lesen der Datei 'one' aufgetreten:\nno entry",
            "Pfad 'two' existiert nicht",
        ]
    );
    assert_eq!(fixer.files, paths(&["kept"]));
    fixer.report(Vec::new());
    assert_eq!(fixer.error_modals.len(), 3);
}

#[test]
fn errors_show_until_hidden() {
    let mut fixer = AsciiFixer::default();
    fixer.report(vec![missing("x")]);
    assert_eq!(fixer.overlay(), Overlay::Errors);
    fixer.update(Message::ShowFixFilesDialog);
    assert_eq!(fixer.overlay(), Overlay::NothingSelected);
    fixer.update(Message::HideFixFilesDialog);
    assert_eq!(fixer.overlay(), Overlay::Errors);
    assert!(matches!(fixer.update(Message::HideErrorModal), Effect::Nothing));
    assert!(fixer.error_modals.is_empty());
    assert_eq!(fixer.overlay(), Overlay::Hidden);
}

#[test]
fn error_report_puts_one_message_on_each_line() {
    let mut fixer = AsciiFixer::default();
    assert_eq!(fixer.error_report(), "\n");
    fixer.error_modals.push("first".to_string());
    assert_eq!(fixer.error_report(), "first\n");
    fixer.error_modals.push("second\nline".to_string());
    fixer.error_modals.push("third".to_string());
    assert_eq!(fixer.error_report(), "first\nsecond\nline\nthird\n");
}

#[test]
fn message_copies_equal_what_was_copied() {
    let link = Message::LinkClicked("l".to_string());
    assert!(matches!(link.clone(), Message::LinkClicked(text) if text == "l"));
    let remove = Message::RemoveFile(PathBuf::from("p"));
    assert!(matches!(remove.clone(), Message::RemoveFile(path) if path == PathBuf::from("p")));
    assert!(matches!(Message::FixFiles.clone(), Message::FixFiles));
}
