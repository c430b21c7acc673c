use rust_notes::editor::{Effect, Event, NotesApp, Target};
use rust_notes::paths::NotePath;
use std::path::PathBuf;

fn note(title: &str, content: &str, use_file_picker: bool) -> NotesApp {
    NotesApp { title: title.to_string(), content: content.to_string(), use_file_picker }
}

fn place(base: &str, file_name: &str) -> NotePath {
    NotePath {
        base: PathBuf::from(base),
        folder: "rust_notes".to_string(),
        file_name: file_name.to_string(),
    }
}

fn docs() -> Option<PathBuf> {
    Some(PathBuf::from("/home/alice/Documents"))
}

#[test]
fn new_editor_has_default_title_no_text_and_picker_on() {
    let app = NotesApp::default();
    assert_eq!(app.title, "New note");
    assert_eq!(app.content, "");
    assert!(app.use_file_picker);
}

#[test]
fn clear_empties_text_and_keeps_the_rest() {
    let mut app = note("Shopping List", "milk\neggs", false);
    app.clear();
    assert_eq!(app, note("Shopping List", "", false));
}

#[test]
fn clear_of_empty_text_stays_empty() {
    let mut app = note("t", "", true);
    app.clear();
    assert_eq!(app, note("t", "", true));
}

#[test]
fn clear_event_empties_text_and_asks_for_nothing() {
    let mut app = note("Shopping List", "milk\neggs", true);
    let effect = app.update(Event::ClearClicked, None);
    assert_eq!(effect, Effect::Nothing);
    assert_eq!(app, note("Shopping List", "", true));
}

#[test]
fn save_with_picker_asks_for_a_path() {
    let mut app = note("Shopping List", "milk\neggs", true);
    let effect = app.update(Event::SaveClicked, None);
    assert_eq!(
        effect,
        Effect::AskSavePath {
            filter_name: "Text".to_string(),
            extension: "txt".to_string(),
            file_name: "Shopping List.txt".to_string(),
        }
    );
    assert_eq!(app, note("Shopping List", "milk\neggs", true));
}

#[test]
fn save_prompt_proposes_the_file_name() {
    let app = note("", "x", true);
    assert_eq!(
        app.save_prompt(),
        Effect::AskSavePath {
            filter_name: "Text".to_string(),
            extension: "txt".to_string(),
            file_name: ".txt".to_string(),
        }
    );
}

fn write(directory: &str, path: &str, content: &str) -> Effect {
    Effect::WriteFile {
        directory: Some(PathBuf::from(directory)),
        path: PathBuf::from(path),
        content: content.to_string(),
    }
}

#[test]
fn save_without_picker_writes_to_the_default_place() {
    let mut app = note("Shopping List", "milk\neggs", false);
    let effect = app.update(Event::SaveClicked, docs());
    assert_eq!(
        effect,
        write(
            "/home/alice/Documents/rust_notes",
            "/home/alice/Documents/rust_notes/Shopping List.txt",
            "milk\neggs"
        )
    );
    assert_eq!(app, note("Shopping List", "milk\neggs", false));
}

#[test]
fn save_without_documents_directory_writes_below_working_directory() {
    let mut app = note("todo", "call", false);
    let effect = app.update(Event::SaveClicked, None);
    assert_eq!(effect, write("./rust_notes", "./rust_notes/todo.txt", "call"));
}

#[test]
fn chosen_save_path_is_written() {
    let mut app = note("Shopping List", "milk\neggs", true);
    let chosen = PathBuf::from("/tmp/elsewhere/list.txt");
    let effect = app.update(Event::SavePathChosen(Some(chosen)), docs());
    assert_eq!(effect, write("/tmp/elsewhere", "/tmp/elsewhere/list.txt", "milk\neggs"));
}

#[test]
fn cancelled_save_dialog_falls_back_to_the_default_place() {
    let mut app = note("Shopping List", "milk\neggs", true);
    let effect = app.update(Event::SavePathChosen(None), docs());
    assert_eq!(
        effect,
        write(
            "/home/alice/Documents/rust_notes",
            "/home/alice/Documents/rust_notes/Shopping List.txt",
            "milk\neggs"
        )
    );
}

#[test]
fn save_target_prefers_the_chosen_path() {
    let app = note("a", "b", true);
    assert_eq!(
        app.save_target(Some(PathBuf::from("/x/y.txt")), docs()),
        Target::Picked(PathBuf::from("/x/y.txt"))
    );
    assert_eq!(
        app.save_target(None, docs()),
        Target::Default(place("/home/alice/Documents", "a.txt"))
    );
    assert_eq!(app.save_target(None, None), Target::Default(place(".", "a.txt")));
}

#[test]
fn load_with_picker_asks_for_a_path() {
    let mut app = note("Shopping List", "old", true);
    let effect = app.update(Event::LoadClicked, None);
    assert_eq!(
        effect,
        Effect::AskOpenPath { filter_name: "Text".to_string(), extension: "txt".to_string() }
    );
    assert_eq!(NotesApp::open_prompt(), effect);
    assert_eq!(app, note("Shopping List", "old", true));
}

#[test]
fn load_without_picker_reads_the_default_place() {
    let mut app = note("Shopping List", "old", false);
    let effect = app.update(Event::LoadClicked, docs());
    assert_eq!(
        effect,
        Effect::ReadFile {
            path: PathBuf::from("/home/alice/Documents/rust_notes/Shopping List.txt"),
        }
    );
    assert_eq!(app, note("Shopping List", "old", false));
}

#[test]
fn chosen_open_path_is_read() {
    let mut app = note("Shopping List", "old", true);
    let chosen = PathBuf::from("/tmp/elsewhere/list.txt");
    let effect = app.update(Event::OpenPathChosen(Some(chosen.clone())), None);
    assert_eq!(effect, Effect::ReadFile { path: chosen });
}

#[test]
fn cancelled_open_dialog_skips_the_load() {
    let mut app = note("Shopping List", "old", true);
    let effect = app.update(Event::OpenPathChosen(None), None);
    assert_eq!(effect, Effect::Nothing);
    assert_eq!(app, note("Shopping List", "old", true));
}

#[test]
fn text_that_was_read_replaces_the_note() {
    let mut app = note("Shopping List", "old", false);
    let effect = app.update(Event::FileRead(Some("milk\neggs".to_string())), None);
    assert_eq!(effect, Effect::Nothing);
    assert_eq!(app, note("Shopping List", "milk\neggs", false));
}

#[test]
fn failed_read_leaves_the_note_untouched() {
    let mut app = note("Shopping List", "sentinel", false);
    let effect = app.update(Event::FileRead(None), None);
    assert_eq!(effect, Effect::Nothing);
    assert_eq!(app, note("Shopping List", "sentinel", false));
}

#[test]
fn finish_load_takes_text_or_keeps_the_note() {
    let mut app = note("t", "sentinel", true);
    app.finish_load(None);
    assert_eq!(app, note("t", "sentinel", true));
    app.finish_load(Some(String::new()));
    assert_eq!(app, note("t", "", true));
    app.finish_load(Some("new".to_string()));
    assert_eq!(app, note("t", "new", true));
}

#[test]
fn needs_documents_only_for_the_default_place() {
    let with_picker = note("t", "c", true);
    let without = note("t", "c", false);
    assert!(!with_picker.needs_documents(&Event::SaveClicked));
    assert!(!with_picker.needs_documents(&Event::LoadClicked));
    assert!(without.needs_documents(&Event::SaveClicked));
    assert!(without.needs_documents(&Event::LoadClicked));
    assert!(with_picker.needs_documents(&Event::SavePathChosen(None)));
    assert!(!with_picker.needs_documents(&Event::SavePathChosen(Some(PathBuf::from("/a")))));
    assert!(!without.needs_documents(&Event::OpenPathChosen(None)));
    assert!(!without.needs_documents(&Event::FileRead(None)));
    assert!(!without.needs_documents(&Event::ClearClicked));
}

#[test]
fn answer_is_the_same_whatever_the_documents_where_they_are_not_needed() {
    let events = || {
        vec![
            Event::ClearClicked,
            Event::FileRead(None),
            Event::FileRead(Some("read".to_string())),
            Event::OpenPathChosen(None),
            Event::OpenPathChosen(Some(PathBuf::from("/a/b.txt"))),
            Event::SavePathChosen(Some(PathBuf::from("/a/b.txt"))),
            Event::SaveClicked,
            Event::LoadClicked,
        ]
    };
    for (with, without) in events().into_iter().zip(events()) {
        let mut first = note("Shopping List", "milk", true);
        let mut second = note("Shopping List", "milk", true);
        assert!(!first.needs_documents(&with));
        assert_eq!(first.update(with, docs()), second.update(without, None));
        assert_eq!(first, second);
    }
}

#[test]
fn answer_follows_the_documents_where_they_are_needed() {
    let mut app = note("Shopping List", "milk", false);
    assert!(app.needs_documents(&Event::LoadClicked));
    assert_eq!(
        app.update(Event::LoadClicked, docs()),
        Effect::ReadFile {
            path: PathBuf::from("/home/alice/Documents/rust_notes/Shopping List.txt"),
        }
    );
    assert_eq!(
        app.update(Event::LoadClicked, None),
        Effect::ReadFile { path: PathBuf::from("./rust_notes/Shopping List.txt") }
    );
}

#[test]
fn target_gives_its_path() {
    assert_eq!(
        Target::Picked(PathBuf::from("/tmp/elsewhere/list.txt")).into_path_buf(),
        PathBuf::from("/tmp/elsewhere/list.txt")
    );
    assert_eq!(
        Target::Default(place("/home/alice/Documents", "Shopping List.txt")).into_path_buf(),
        PathBuf::from("/home/alice/Documents/rust_notes/Shopping List.txt")
    );
}

#[test]
fn title_with_separator_is_not_cleaned() {
    let mut app = note("work/plan", "x", false);
    assert_eq!(
        app.update(Event::SaveClicked, docs()),
        write(
            "/home/alice/Documents/rust_notes/work",
            "/home/alice/Documents/rust_notes/work/plan.txt",
            "x"
        )
    );
}

#[test]
fn write_names_the_directory_that_holds_the_file() {
    let app = note("n", "text", true);
    assert_eq!(
        app.write_to(Target::Picked(PathBuf::from("/a/b/c.txt"))),
        write("/a/b", "/a/b/c.txt", "text")
    );
    assert_eq!(
        app.write_to(Target::Picked(PathBuf::from("c.txt"))),
        write("", "c.txt", "text")
    );
    assert_eq!(
        app.write_to(Target::Default(place(".", "n.txt"))),
        write("./rust_notes", "./rust_notes/n.txt", "text")
    );
}

#[test]
fn write_to_a_path_in_no_directory_names_none() {
    let app = note("n", "text", true);
    assert_eq!(
        app.write_to(Target::Picked(PathBuf::from("/"))),
        Effect::WriteFile {
            directory: None,
            path: PathBuf::from("/"),
            content: "text".to_string(),
        }
    );
}
