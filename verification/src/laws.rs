//! What holds of the editor when the files behave.
//!
//! The editor only asks for reads and writes. Here the files are a map from
//! paths to texts: a write puts its text at its path, and a read gives the
//! text at its path or fails when there is none. Over such files, a pressed
//! button is followed through to the end, and the laws say what the note and
//! the files are then.

use crate::editor::{
    needs_default_path, step, with_content, EffectView, EventView, NotesAppView,
};
use crate::paths::{note_path_of, parent_of};
use std::path::PathBuf;
use vstd::prelude::*;

verus! {

/// The files once `effect` has been carried out: a write puts its text at
/// its target, and no other effect changes a file.
pub open spec fn files_after(files: Map<PathBuf, Seq<char>>, effect: EffectView) -> Map<
    PathBuf,
    Seq<char>,
> {
    match effect {
        EffectView::WriteFile { path, content, .. } => files.insert(path, content),
        _ => files,
    }
}

/// What a read of `path` gives: the text there, or `None` when no file is
/// there.
pub open spec fn read_from(files: Map<PathBuf, Seq<char>>, path: PathBuf) -> Option<Seq<char>> {
    if files.dom().contains(path) {
        Some(files[path])
    } else {
        None
    }
}

/// The event that answers `effect`: a dialog closes with `choice`, a read
/// ends with what the files hold, and nothing answers a write.
pub open spec fn answer_of(
    files: Map<PathBuf, Seq<char>>,
    effect: EffectView,
    choice: Option<PathBuf>,
) -> Option<EventView> {
    match effect {
        EffectView::Nothing => None,
        EffectView::WriteFile { .. } => None,
        EffectView::AskSavePath { .. } => Some(EventView::SavePathChosen(choice)),
        EffectView::AskOpenPath { .. } => Some(EventView::OpenPathChosen(choice)),
        EffectView::ReadFile { path } => Some(EventView::FileRead(read_from(files, path))),
    }
}

/// How many events, `event` included, the editor may have to take in before
/// it comes to rest.
pub open spec fn events_left(event: EventView) -> nat {
    match event {
        EventView::SaveClicked => 2,
        EventView::LoadClicked => 3,
        EventView::OpenPathChosen(_) => 2,
        EventView::SavePathChosen(_) => 1,
        EventView::FileRead(_) => 1,
        EventView::ClearClicked => 1,
    }
}

/// Follows `event` to the end: each effect is carried out on `files` and
/// answered, until no event is left. Gives the note and the files at rest.
/// Every dialog on the way closes with `choice`. The test on `events_left`
/// is there for the recursion to be well-founded; it never fails, as
/// `lemma_every_answer_brings_rest_nearer` shows.
pub open spec fn run(
    app: NotesAppView,
    files: Map<PathBuf, Seq<char>>,
    event: EventView,
    documents: Option<PathBuf>,
    choice: Option<PathBuf>,
) -> (NotesAppView, Map<PathBuf, Seq<char>>)
    decreases events_left(event),
{
    let (next, effect) = step(app, event, documents);
    let files_next = files_after(files, effect);
    match answer_of(files_next, effect, choice) {
        Some(reply) => if events_left(reply) < events_left(event) {
            run(next, files_next, reply, documents, choice)
        } else {
            (next, files_next)
        },
        None => (next, files_next),
    }
}

/// Whatever the editor is told, the event that answers its effect has fewer
/// events left to follow than the one before: a caller that carries out each
/// effect and hands back the answer is done after three events at most.
pub proof fn lemma_every_answer_brings_rest_nearer(
    app: NotesAppView,
    files: Map<PathBuf, Seq<char>>,
    event: EventView,
    documents: Option<PathBuf>,
    choice: Option<PathBuf>,
)
    ensures
        events_left(event) <= 3,
        answer_of(files, step(app, event, documents).1, choice) matches Some(reply)
            ==> events_left(reply) < events_left(event),
{
}

/// Where the answer to an event is said not to depend on the documents
/// directory, it does not: the editor answers alike for any two.
pub proof fn lemma_documents_matter_only_for_the_default_place(
    app: NotesAppView,
    event: EventView,
    documents: Option<PathBuf>,
    other: Option<PathBuf>,
)
    requires
        !needs_default_path(app, event),
    ensures
        step(app, event, documents) == step(app, event, other),
{
}

/// Whatever the editor is told, a write that it asks for is of the note's
/// whole text, and the directory it asks to be created first is the one that
/// holds the file written.
pub proof fn lemma_every_write_is_whole_and_makes_its_directory(
    app: NotesAppView,
    event: EventView,
    documents: Option<PathBuf>,
)
    ensures
        step(app, event, documents).1 matches EffectView::WriteFile { directory, path, content }
            ==> content == app.content && directory == parent_of(path),
{
}

/// Whatever the editor is told, the title and the picker switch stay as they
/// are, and the text changes only when a read has brought a file's text or
/// Clear was pressed.
pub proof fn lemma_only_a_read_or_clear_changes_the_note(
    app: NotesAppView,
    event: EventView,
    documents: Option<PathBuf>,
)
    ensures
        step(app, event, documents).0.title == app.title,
        step(app, event, documents).0.use_file_picker == app.use_file_picker,
        step(app, event, documents).0.content != app.content ==> {
            ||| event is ClearClicked
            ||| event matches EventView::FileRead(Some(_))
        },
{
}

/// A Save to the default place puts the note's whole text there and leaves
/// the note as it was.
pub proof fn lemma_save_writes_whole_text(
    app: NotesAppView,
    files: Map<PathBuf, Seq<char>>,
    documents: Option<PathBuf>,
    choice: Option<PathBuf>,
)
    requires
        !app.use_file_picker,
    ensures
        run(app, files, EventView::SaveClicked, documents, choice) == (
            app,
            files.insert(note_path_of(documents, app.title).location(), app.content),
        ),
{
}

/// Save, then Load, both to the default place and under the same title:
/// the note's text after the Load is the text that was saved, whatever the
/// loading note held before.
pub proof fn lemma_save_then_load_round_trips(
    saved: NotesAppView,
    loading: NotesAppView,
    files: Map<PathBuf, Seq<char>>,
    documents: Option<PathBuf>,
    choice: Option<PathBuf>,
)
    requires
        !saved.use_file_picker,
        !loading.use_file_picker,
        loading.title == saved.title,
    ensures
        ({
            let (_, files_saved) = run(saved, files, EventView::SaveClicked, documents, choice);
            let (loaded, files_loaded) = run(
                loading,
                files_saved,
                EventView::LoadClicked,
                documents,
                choice,
            );
            &&& loaded == with_content(loading, saved.content)
            &&& loaded.content == saved.content
            &&& files_loaded == files_saved
        }),
{
    lemma_save_writes_whole_text(saved, files, documents, choice);
    let place = note_path_of(documents, saved.title).location();
    let files_saved = files.insert(place, saved.content);
    let reply = EventView::FileRead(read_from(files_saved, place));
    assert(run(loading, files_saved, reply, documents, choice) == (
        with_content(loading, saved.content),
        files_saved,
    ));
}

/// A Load from the default place when no file is there leaves the note and
/// the files as they were.
pub proof fn lemma_load_of_missing_file_changes_nothing(
    app: NotesAppView,
    files: Map<PathBuf, Seq<char>>,
    documents: Option<PathBuf>,
    choice: Option<PathBuf>,
)
    requires
        !app.use_file_picker,
        !files.dom().contains(note_path_of(documents, app.title).location()),
    ensures
        run(app, files, EventView::LoadClicked, documents, choice) == (app, files),
{
    assert(run(app, files, EventView::FileRead(None), documents, choice) == (app, files));
}

/// Clear empties the note's text whatever the note held, and touches no
/// file.
pub proof fn lemma_clear_empties_text(
    app: NotesAppView,
    files: Map<PathBuf, Seq<char>>,
    documents: Option<PathBuf>,
    choice: Option<PathBuf>,
)
    ensures
        run(app, files, EventView::ClearClicked, documents, choice) == (
            with_content(app, Seq::empty()),
            files,
        ),
        run(app, files, EventView::ClearClicked, documents, choice).0.content == Seq::<
            char,
        >::empty(),
{
}

} // verus!
