//! Persistence of the note: one text file under the application's
//! per-user data directory, written whole and read whole.
use vstd::prelude::*;
use vstd::string::StringExecFns;

use crate::error::{CommandError, IoStage};

verus! {

/// The name of the note file inside the application's data directory.
pub const NOTE_FILE_NAME: &'static str = "note.txt";

/// What the note file holds: `None` while it does not exist.
pub type NoteFile = Option<Seq<char>>;

/// The note file after a save of `text`, whatever it held before.
pub open spec fn file_after_save(prior: NoteFile, text: Seq<char>) -> NoteFile {
    Some(text)
}

/// The text a load yields from a readable note file: a missing file
/// reads as the empty note.
pub open spec fn loaded_text(file: NoteFile) -> Seq<char> {
    match file {
        Some(text) => text,
        None => Seq::empty(),
    }
}

/// Decides the result of a load from what reading the file gave:
/// `None` when the file does not exist, else the outcome of reading it
/// whole as UTF-8 text.
pub fn load_outcome(read: Option<Result<String, String>>) -> (r: Result<String, CommandError>)
    ensures
        match read {
            None => r matches Ok(text) && text@ == loaded_text(None),
            Some(Ok(content)) => r matches Ok(text) && text@ == loaded_text(Some(content@)),
            Some(Err(e)) => r matches Err(err) && err == (CommandError::Io {
                stage: IoStage::Load,
                detail: e,
            }),
        },
{
    match read {
        None => Ok(String::new()),
        Some(outcome) => crate::error::io_step(IoStage::Load, outcome),
    }
}

/// Decides the result of a save from the outcome of writing the file.
pub fn save_outcome(written: Result<(), String>) -> (r: Result<(), CommandError>)
    ensures
        match written {
            Ok(()) => r == Ok::<(), CommandError>(()),
            Err(e) => r matches Err(err) && err == (CommandError::Io {
                stage: IoStage::Save,
                detail: e,
            }),
        },
{
    crate::error::io_step(IoStage::Save, written)
}

/// Loading after a save yields exactly the saved text, whatever the file
/// held before: empty text and any characters included.
pub proof fn lemma_load_after_save(prior: NoteFile, text: Seq<char>)
    ensures
        loaded_text(file_after_save(prior, text)) == text,
{
}

/// Before the first save the note file does not exist, and a load yields
/// the empty note rather than an error.
pub proof fn lemma_first_load_is_empty()
    ensures
        loaded_text(None) == Seq::<char>::empty(),
{
}

} // verus!
