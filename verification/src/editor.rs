//! The editor's state and what each button does to it.
//!
//! The editor never touches a file, a dialog or the platform's settings.
//! `NotesApp::update` takes an `Event`, changes the state, and answers with
//! the `Effect` that is due next. The caller carries the effect out and comes
//! back with the event that tells how it went, until the answer is
//! `Effect::Nothing`. Where a note goes to its default place, the caller also
//! says where the user's documents directory is; `NotesApp::needs_documents`
//! tells when that is so.

use crate::paths::{
    default_note_path, file_name_of, note_file_name, note_path_of, parent_dir, parent_of,
    NotePath, NotePathView,
};
use std::path::PathBuf;
use vstd::prelude::*;

verus! {

/// The editor's state: the note's title, its text, and whether Save and Load
/// ask the user for a path or go to the note's default place.
#[derive(Clone, Debug, PartialEq, Eq)]
pub struct NotesApp {
    pub title: String,
    pub content: String,
    pub use_file_picker: bool,
}

/// A `NotesApp` with its texts as sequences of characters.
pub struct NotesAppView {
    pub title: Seq<char>,
    pub content: Seq<char>,
    pub use_file_picker: bool,
}

impl View for NotesApp {
    type V = NotesAppView;

    open spec fn view(&self) -> NotesAppView {
        NotesAppView {
            title: self.title@,
            content: self.content@,
            use_file_picker: self.use_file_picker,
        }
    }
}

/// The file that a Save writes or a Load reads.
#[derive(Debug, PartialEq, Eq)]
pub enum Target {
    /// The path that the user chose in a dialog.
    Picked(PathBuf),
    /// The note's default place, derived from its title.
    Default(NotePath),
}

/// A `Target` with its texts as sequences of characters.
pub enum TargetView {
    Picked(PathBuf),
    Default(NotePathView),
}

impl View for Target {
    type V = TargetView;

    open spec fn view(&self) -> TargetView {
        match self {
            Target::Picked(path) => TargetView::Picked(*path),
            Target::Default(place) => TargetView::Default(place@),
        }
    }
}

impl TargetView {
    /// The path of the file.
    pub open spec fn location(self) -> PathBuf {
        match self {
            TargetView::Picked(path) => path,
            TargetView::Default(place) => place.location(),
        }
    }
}

impl Target {
    /// The path of the file: the chosen path as it is, or the parts of the
    /// default place joined.
    pub fn into_path_buf(self) -> (path: PathBuf)
        ensures
            path == self@.location(),
    {
        match self {
            Target::Picked(path) => path,
            Target::Default(place) => place.into_path_buf(),
        }
    }
}

/// What happened: a button was pressed, or work that the editor asked for
/// has ended.
#[derive(Debug, PartialEq, Eq)]
pub enum Event {
    /// The Save button was pressed.
    SaveClicked,
    /// The Load button was pressed.
    LoadClicked,
    /// The Clear button was pressed.
    ClearClicked,
    /// The save dialog closed, with the chosen path or `None` when the user
    /// cancelled.
    SavePathChosen(Option<PathBuf>),
    /// The open dialog closed, with the chosen path or `None` when the user
    /// cancelled.
    OpenPathChosen(Option<PathBuf>),
    /// A read ended, with the file's text or `None` when it failed for any
    /// reason.
    FileRead(Option<String>),
}

/// What a read brought, as a sequence of characters.
pub open spec fn text_of(outcome: Option<String>) -> Option<Seq<char>> {
    match outcome {
        Some(text) => Some(text@),
        None => None,
    }
}

/// An `Event` with its texts as sequences of characters.
pub enum EventView {
    SaveClicked,
    LoadClicked,
    ClearClicked,
    SavePathChosen(Option<PathBuf>),
    OpenPathChosen(Option<PathBuf>),
    FileRead(Option<Seq<char>>),
}

impl View for Event {
    type V = EventView;

    open spec fn view(&self) -> EventView {
        match self {
            Event::SaveClicked => EventView::SaveClicked,
            Event::LoadClicked => EventView::LoadClicked,
            Event::ClearClicked => EventView::ClearClicked,
            Event::SavePathChosen(picked) => EventView::SavePathChosen(*picked),
            Event::OpenPathChosen(picked) => EventView::OpenPathChosen(*picked),
            Event::FileRead(outcome) => EventView::FileRead(text_of(*outcome)),
        }
    }
}

/// The work that is due next. The caller performs it.
#[derive(Debug, PartialEq, Eq)]
pub enum Effect {
    /// There is nothing left to do.
    Nothing,
    /// Show a save dialog that offers files of one extension and proposes
    /// `file_name`; answer with `Event::SavePathChosen`.
    AskSavePath { filter_name: String, extension: String, file_name: String },
    /// Show an open dialog that offers files of one extension; answer with
    /// `Event::OpenPathChosen`.
    AskOpenPath { filter_name: String, extension: String },
    /// Create `directory` and every directory above it that is missing, then
    /// write `content` to `path` in place of what the file held. `directory`
    /// is the one that holds the file; it is `None` for a path that lies in
    /// no directory. Whether the two steps succeed is not asked: no event
    /// answers this effect.
    WriteFile { directory: Option<PathBuf>, path: PathBuf, content: String },
    /// Read the file at `path` as text; answer with `Event::FileRead`.
    ReadFile { path: PathBuf },
}

/// An `Effect` with its texts as sequences of characters.
pub enum EffectView {
    Nothing,
    AskSavePath { filter_name: Seq<char>, extension: Seq<char>, file_name: Seq<char> },
    AskOpenPath { filter_name: Seq<char>, extension: Seq<char> },
    WriteFile { directory: Option<PathBuf>, path: PathBuf, content: Seq<char> },
    ReadFile { path: PathBuf },
}

impl View for Effect {
    type V = EffectView;

    open spec fn view(&self) -> EffectView {
        match self {
            Effect::Nothing => EffectView::Nothing,
            Effect::AskSavePath { filter_name, extension, file_name } => EffectView::AskSavePath {
                filter_name: filter_name@,
                extension: extension@,
                file_name: file_name@,
            },
            Effect::AskOpenPath { filter_name, extension } => EffectView::AskOpenPath {
                filter_name: filter_name@,
                extension: extension@,
            },
            Effect::WriteFile { directory, path, content } => EffectView::WriteFile {
                directory: *directory,
                path: *path,
                content: content@,
            },
            Effect::ReadFile { path } => EffectView::ReadFile { path: *path },
        }
    }
}

/// The state of an editor that has just been opened.
pub open spec fn initial_state() -> NotesAppView {
    NotesAppView { title: "New note"@, content: Seq::empty(), use_file_picker: true }
}

/// The name under which the dialogs list text files.
pub open spec fn filter_name() -> Seq<char> {
    "Text"@
}

/// The extension that the dialogs offer.
pub open spec fn filter_extension() -> Seq<char> {
    "txt"@
}

/// The save dialog for a note called `title`.
pub open spec fn save_prompt_of(title: Seq<char>) -> EffectView {
    EffectView::AskSavePath {
        filter_name: filter_name(),
        extension: filter_extension(),
        file_name: file_name_of(title),
    }
}

/// The open dialog.
pub open spec fn open_prompt_of() -> EffectView {
    EffectView::AskOpenPath { filter_name: filter_name(), extension: filter_extension() }
}

/// The file that a Save writes: the chosen path, or the default place of
/// the note when no path was chosen.
pub open spec fn save_target_of(
    picked: Option<PathBuf>,
    documents: Option<PathBuf>,
    title: Seq<char>,
) -> TargetView {
    match picked {
        Some(path) => TargetView::Picked(path),
        None => TargetView::Default(note_path_of(documents, title)),
    }
}

/// The write of `content` to `target`: the file's path, and the directory
/// that holds it as the one to create first.
pub open spec fn write_of(target: TargetView, content: Seq<char>) -> EffectView {
    EffectView::WriteFile {
        directory: parent_of(target.location()),
        path: target.location(),
        content,
    }
}

/// The read of `target`.
pub open spec fn read_of(target: TargetView) -> EffectView {
    EffectView::ReadFile { path: target.location() }
}

/// The state with its text replaced.
pub open spec fn with_content(app: NotesAppView, content: Seq<char>) -> NotesAppView {
    NotesAppView { title: app.title, content, use_file_picker: app.use_file_picker }
}

/// The state after a read has ended: the file's text replaces the note's
/// text when the read went well, and nothing changes when it failed.
pub open spec fn after_read(app: NotesAppView, outcome: Option<Seq<char>>) -> NotesAppView {
    match outcome {
        Some(text) => with_content(app, text),
        None => app,
    }
}

/// Whether the answer to `event` depends on where the documents directory is.
pub open spec fn needs_default_path(app: NotesAppView, event: EventView) -> bool {
    match event {
        EventView::SaveClicked => !app.use_file_picker,
        EventView::LoadClicked => !app.use_file_picker,
        EventView::SavePathChosen(picked) => picked is None,
        _ => false,
    }
}

/// The editor as a function: the state after `event` and the effect that is
/// due, given what is known of the documents directory.
pub open spec fn step(app: NotesAppView, event: EventView, documents: Option<PathBuf>) -> (
    NotesAppView,
    EffectView,
) {
    match event {
        EventView::SaveClicked => if app.use_file_picker {
            (app, save_prompt_of(app.title))
        } else {
            (app, write_of(save_target_of(None, documents, app.title), app.content))
        },
        EventView::SavePathChosen(picked) => (
            app,
            write_of(save_target_of(picked, documents, app.title), app.content),
        ),
        EventView::LoadClicked => if app.use_file_picker {
            (app, open_prompt_of())
        } else {
            (app, read_of(TargetView::Default(note_path_of(documents, app.title))))
        },
        EventView::OpenPathChosen(picked) => match picked {
            Some(path) => (app, read_of(TargetView::Picked(path))),
            None => (app, EffectView::Nothing),
        },
        EventView::FileRead(outcome) => (after_read(app, outcome), EffectView::Nothing),
        EventView::ClearClicked => (with_content(app, Seq::empty()), EffectView::Nothing),
    }
}

impl Default for NotesApp {
    /// An editor that has just been opened: the title "New note", no text,
    /// and the file picker switched on.
    fn default() -> (app: Self)
        ensures
            app@ == initial_state(),
    {
        NotesApp {
            title: String::from_str("New note"),
            content: String::new(),
            use_file_picker: true,
        }
    }
}

impl NotesApp {
    /// Empties the note's text. The title and the picker switch stay.
    pub fn clear(&mut self)
        ensures
            final(self)@ == with_content(old(self)@, Seq::empty()),
            final(self)@.content == Seq::<char>::empty(),
    {
        self.content = String::new();
    }

    /// The save dialog to show for this note: text files, with the title
    /// followed by `.txt` as the proposed file name.
    pub fn save_prompt(&self) -> (effect: Effect)
        ensures
            effect@ == save_prompt_of(self@.title),
    {
        Effect::AskSavePath {
            filter_name: String::from_str("Text"),
            extension: String::from_str("txt"),
            file_name: note_file_name(self.title.as_str()),
        }
    }

    /// The open dialog to show: text files.
    pub fn open_prompt() -> (effect: Effect)
        ensures
            effect@ == open_prompt_of(),
    {
        Effect::AskOpenPath {
            filter_name: String::from_str("Text"),
            extension: String::from_str("txt"),
        }
    }

    /// The file that a Save writes: `picked` when the user chose a path, else
    /// the note's default place below `documents`.
    pub fn save_target(&self, picked: Option<PathBuf>, documents: Option<PathBuf>) -> (target:
        Target)
        ensures
            target@ == save_target_of(picked, documents, self@.title),
    {
        match picked {
            Some(path) => Target::Picked(path),
            None => Target::Default(default_note_path(documents, self.title.as_str())),
        }
    }

    /// The write of the note's whole text to `target`, with the directory
    /// that holds the file as the one to create first.
    pub fn write_to(&self, target: Target) -> (effect: Effect)
        ensures
            effect@ == write_of(target@, self@.content),
    {
        let path = target.into_path_buf();
        let directory = parent_dir(&path);
        Effect::WriteFile { directory, path, content: self.content.clone() }
    }

    /// Takes in the outcome of a read: the file's text replaces the note's
    /// text, or, when the read failed, the note stays as it is.
    pub fn finish_load(&mut self, outcome: Option<String>)
        ensures
            final(self)@ == after_read(old(self)@, text_of(outcome)),
            outcome is None ==> final(self)@ == old(self)@,
    {
        match outcome {
            Some(text) => {
                self.content = text;
            },
            None => {},
        }
    }

    /// Whether the answer to `event` depends on where the documents directory
    /// is: a Save or a Load that goes to the note's default place. Where it
    /// is `false`, `update` gives the same answer whatever `documents` it is
    /// handed, so the caller need not look the directory up.
    pub fn needs_documents(&self, event: &Event) -> (needed: bool)
        ensures
            needed == needs_default_path(self@, event@),
    {
        match event {
            Event::SaveClicked => !self.use_file_picker,
            Event::LoadClicked => !self.use_file_picker,
            Event::SavePathChosen(picked) => picked.is_none(),
            _ => false,
        }
    }

    /// Takes in `event` and answers with the effect that is due, with
    /// `documents` as the user's documents directory, `None` when there is
    /// none or when `needs_documents` says that it does not matter.
    ///
    /// - Save pressed: the save dialog when the picker is on, else a write of
    ///   the whole text to the note's default place.
    /// - Save dialog closed: a write of the whole text to the chosen path, or
    ///   to the default place when the user cancelled.
    /// - Load pressed: the open dialog when the picker is on, else a read of
    ///   the note's default place.
    /// - Open dialog closed: a read of the chosen path, or nothing when the
    ///   user cancelled.
    /// - Read ended: the file's text replaces the note's text; a failed read
    ///   changes nothing.
    /// - Clear pressed: the note's text becomes empty.
    pub fn update(&mut self, event: Event, documents: Option<PathBuf>) -> (effect: Effect)
        ensures
            (final(self)@, effect@) == step(old(self)@, event@, documents),
            final(self)@.title == old(self)@.title,
            final(self)@.use_file_picker == old(self)@.use_file_picker,
    {
        match event {
            Event::SaveClicked => {
                if self.use_file_picker {
                    self.save_prompt()
                } else {
                    let target = self.save_target(None, documents);
                    self.write_to(target)
                }
            },
            Event::SavePathChosen(picked) => {
                let target = self.save_target(picked, documents);
                self.write_to(target)
            },
            Event::LoadClicked => {
                if self.use_file_picker {
                    NotesApp::open_prompt()
                } else {
                    let place = default_note_path(documents, self.title.as_str());
                    Effect::ReadFile { path: place.into_path_buf() }
                }
            },
            Event::OpenPathChosen(picked) => {
                match picked {
                    Some(path) => Effect::ReadFile { path },
                    None => Effect::Nothing,
                }
            },
            Event::FileRead(outcome) => {
                self.finish_load(outcome);
                Effect::Nothing
            },
            Event::ClearClicked => {
                self.clear();
                Effect::Nothing
            },
        }
    }
}

} // verus!
