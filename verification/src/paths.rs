//! Where a note is kept: `<documents>/rust_notes/<title>.txt`, or the same
//! below the working directory when the documents directory is unknown.
//!
//! The caller finds the documents directory and hands it in: nothing here
//! asks the platform for it.
//!
//! A title is used as it is typed. Nothing is removed from it or escaped, so
//! a title that holds a path separator names a file elsewhere.

use std::path::PathBuf;
use vstd::prelude::*;

verus! {

/// `std::path::PathBuf`, carried through as a value that is never looked into.
#[verifier::external_type_specification]
#[verifier::external_body]
pub struct ExPathBuf(std::path::PathBuf);

/// The path that `PathBuf::from` makes of `text`.
pub uninterp spec fn path_of_text(text: Seq<char>) -> PathBuf;

/// The path that `PathBuf::push` leaves when `part` is pushed onto `base`,
/// by the path rules of the platform the crate is built for.
pub uninterp spec fn path_with(base: PathBuf, part: Seq<char>) -> PathBuf;

/// The directory that `Path::parent` gives for `path`: the path without its
/// last component, or `None` when the path is empty or ends in a root.
pub uninterp spec fn parent_of(path: PathBuf) -> Option<PathBuf>;

/// Calls `PathBuf::from` on a string slice. Trusted: the result is a function
/// of the text alone, written `path_of_text`.
#[verifier::external_body]
fn path_from_text(text: &str) -> (path: PathBuf)
    ensures
        path == path_of_text(text@),
{
    PathBuf::from(text)
}

/// Calls `PathBuf::push` with a string slice. Trusted: the path afterwards is
/// a function of the path before and of the text pushed, written `path_with`.
#[verifier::external_body]
fn push_component(path: &mut PathBuf, part: &str)
    ensures
        *final(path) == path_with(*old(path), part@),
{
    path.push(part);
}

/// Calls `Path::parent` and gives the directory as a path of its own.
/// Trusted: the result is a function of the path alone, written `parent_of`.
#[verifier::external_body]
pub(crate) fn parent_dir(path: &PathBuf) -> (dir: Option<PathBuf>)
    ensures
        dir == parent_of(*path),
{
    path.parent().map(PathBuf::from)
}

/// The text of the directory that holds all notes.
pub open spec fn notes_folder() -> Seq<char> {
    "rust_notes"@
}

/// The text that follows a title in a note's file name.
pub open spec fn note_extension() -> Seq<char> {
    ".txt"@
}

/// The text of the directory used when the documents directory is unknown.
pub open spec fn working_dir_text() -> Seq<char> {
    "."@
}

/// The file name of the note called `title`.
pub open spec fn file_name_of(title: Seq<char>) -> Seq<char> {
    title + note_extension()
}

/// The directory below which the notes folder lies: the documents directory
/// when there is one, else the working directory.
pub open spec fn base_dir_of(documents: Option<PathBuf>) -> PathBuf {
    match documents {
        Some(dir) => dir,
        None => path_of_text(working_dir_text()),
    }
}

/// The place of a note, part by part.
#[derive(Debug, PartialEq, Eq)]
pub struct NotePath {
    /// The directory below which the notes folder lies.
    pub base: PathBuf,
    /// The folder that holds all notes.
    pub folder: String,
    /// The note's file name.
    pub file_name: String,
}

/// A `NotePath` with its texts as sequences of characters.
pub struct NotePathView {
    pub base: PathBuf,
    pub folder: Seq<char>,
    pub file_name: Seq<char>,
}

impl View for NotePath {
    type V = NotePathView;

    open spec fn view(&self) -> NotePathView {
        NotePathView { base: self.base, folder: self.folder@, file_name: self.file_name@ }
    }
}

impl NotePathView {
    /// The one path that the parts make: the folder pushed onto the base,
    /// and the file name pushed onto that.
    pub open spec fn location(self) -> PathBuf {
        path_with(path_with(self.base, self.folder), self.file_name)
    }
}

/// The place of the note called `title`, given what is known of the
/// documents directory.
pub open spec fn note_path_of(documents: Option<PathBuf>, title: Seq<char>) -> NotePathView {
    NotePathView {
        base: base_dir_of(documents),
        folder: notes_folder(),
        file_name: file_name_of(title),
    }
}

/// Builds the file name of a note: the title, unchanged, followed by `.txt`.
pub fn note_file_name(title: &str) -> (name: String)
    ensures
        name@ == file_name_of(title@),
{
    let mut name = String::from_str(title);
    name.append(".txt");
    name
}

/// Places the note called `title` below `documents`, the user's documents
/// directory as the caller found it, or below the working directory when
/// `documents` is `None`. The note lies in the notes folder and its file
/// name is the title followed by `.txt`.
pub fn default_note_path(documents: Option<PathBuf>, title: &str) -> (path: NotePath)
    ensures
        path@ == note_path_of(documents, title@),
        path@.folder == notes_folder(),
        path@.file_name == file_name_of(title@),
{
    let base = match documents {
        Some(dir) => dir,
        None => path_from_text("."),
    };
    NotePath { base, folder: String::from_str("rust_notes"), file_name: note_file_name(title) }
}

impl NotePath {
    /// Joins the parts into one path.
    pub fn into_path_buf(self) -> (path: PathBuf)
        ensures
            path == self@.location(),
    {
        let mut path = self.base;
        push_component(&mut path, self.folder.as_str());
        push_component(&mut path, self.file_name.as_str());
        path
    }
}

} // verus!
