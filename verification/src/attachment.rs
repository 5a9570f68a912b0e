//! File attachments: under which name and media type a file goes to a room.

use vstd::prelude::*;
use crate::error::Error;
use crate::outside::{
    file_name_of, guess_mime, guessed_mime, octet_stream, octet_stream_text, path_file_name,
    room_id_accepted, room_id_parses,
};
use crate::text::text_of;

verus! {

/// A file ready to be read and sent to a room as an attachment.
#[derive(Clone, Debug)]
pub struct OutgoingFile {
    /// The identifier of the room the file goes to.
    pub room: String,
    /// The path of the file to read.
    pub path: String,
    /// The name under which the attachment is shown.
    pub label: String,
    /// The media type of the attachment.
    pub mime: String,
}

/// What an [`OutgoingFile`] holds, as mathematical values.
pub ghost struct OutgoingFileView {
    pub room: Seq<char>,
    pub path: Seq<char>,
    pub label: Seq<char>,
    pub mime: Seq<char>,
}

impl View for OutgoingFile {
    type V = OutgoingFileView;

    open spec fn view(&self) -> OutgoingFileView {
        OutgoingFileView {
            room: self.room@,
            path: self.path@,
            label: self.label@,
            mime: self.mime@,
        }
    }
}

/// The view of the result of planning an attachment.
pub open spec fn planned_file(r: Result<OutgoingFile, Error>) -> Result<OutgoingFileView, Error> {
    match r {
        Ok(f) => Ok(f@),
        Err(e) => Err(e),
    }
}

/// The media type of an attachment: the explicit one, else the guess, else
/// the type for arbitrary binary data.
pub open spec fn mime_of(explicit: Option<Seq<char>>, guess: Option<Seq<char>>) -> Seq<char> {
    match explicit {
        Some(m) => m,
        None => match guess {
            Some(g) => g,
            None => octet_stream_text(),
        },
    }
}

/// The display name of an attachment: the explicit one, else the final
/// component of the path, if there is one.
pub open spec fn label_of(explicit: Option<Seq<char>>, file_name: Option<Seq<char>>) -> Option<
    Seq<char>,
> {
    match explicit {
        Some(l) => Some(l),
        None => file_name,
    }
}

/// What is sent, given whether a session is established, whether the room
/// identifier is well formed, the final component of the path and the guess
/// of its media type.
pub open spec fn file_plan(
    connected: bool,
    path: Seq<char>,
    room: Seq<char>,
    room_ok: bool,
    label: Option<Seq<char>>,
    file_name: Option<Seq<char>>,
    mime: Option<Seq<char>>,
    guess: Option<Seq<char>>,
) -> Result<OutgoingFileView, Error> {
    if !connected {
        Err(Error::InvalidClientConnection)
    } else if !room_ok {
        Err(Error::InvalidRoom)
    } else {
        match label_of(label, file_name) {
            None => Err(Error::InvalidFile),
            Some(l) => Ok(OutgoingFileView { room, path, label: l, mime: mime_of(mime, guess) }),
        }
    }
}

/// Picks the media type: the explicit one, else the guess, else the type for
/// arbitrary binary data.
pub fn resolve_mime(explicit: Option<String>, guess: Option<String>) -> (mime: String)
    ensures
        mime@ == mime_of(text_of(explicit), text_of(guess)),
{
    match explicit {
        Some(m) => m,
        None => match guess {
            Some(g) => g,
            None => octet_stream(),
        },
    }
}

/// Picks the display name: the explicit one, else the final component of the
/// path; fails with `InvalidFile` exactly when there is neither.
pub fn resolve_label(explicit: Option<String>, file_name: Option<String>) -> (r: Result<
    String,
    Error,
>)
    ensures
        match label_of(text_of(explicit), text_of(file_name)) {
            Some(l) => r matches Ok(s) && s@ == l,
            None => r == Err::<String, Error>(Error::InvalidFile),
        },
{
    match explicit {
        Some(l) => Ok(l),
        None => match file_name {
            Some(n) => Ok(n),
            None => Err(Error::InvalidFile),
        },
    }
}

/// Decides what is sent once the room identifier has been checked, the final
/// component of the path taken and the media type guessed: without a session
/// nothing is, to a malformed room nothing is, and a file without a
/// derivable name is refused.
pub fn compose_file(
    connected: bool,
    path: String,
    room: String,
    room_ok: bool,
    label: Option<String>,
    file_name: Option<String>,
    mime: Option<String>,
    guess: Option<String>,
) -> (r: Result<OutgoingFile, Error>)
    ensures
        planned_file(r) == file_plan(
            connected,
            path@,
            room@,
            room_ok,
            text_of(label),
            text_of(file_name),
            text_of(mime),
            text_of(guess),
        ),
{
    if !connected {
        return Err(Error::InvalidClientConnection);
    }
    if !room_ok {
        return Err(Error::InvalidRoom);
    }
    match resolve_label(label, file_name) {
        Err(e) => Err(e),
        Ok(l) => Ok(OutgoingFile { room, path, label: l, mime: resolve_mime(mime, guess) }),
    }
}

/// Plans sending the file at `filename` to `room`.
///
/// Fails with `InvalidClientConnection` when no session is established,
/// before the room is looked at, with `InvalidRoom` when the room identifier
/// is malformed, and with `InvalidFile` when no label is given and the path
/// has no final component. Otherwise the attachment carries the explicit
/// label or else that final component, and the explicit media type or else
/// the one guessed from the path or else the type for arbitrary binary data.
/// A room that is planned for starts with the sigil `!` and holds a colon.
pub fn file(
    connected: bool,
    filename: String,
    room: String,
    label: Option<String>,
    mime: Option<String>,
) -> (r: Result<OutgoingFile, Error>)
    ensures
        planned_file(r) == file_plan(
            connected,
            filename@,
            room@,
            room_id_accepted(room@),
            text_of(label),
            path_file_name(filename@),
            text_of(mime),
            guessed_mime(filename@),
        ),
        r is Ok ==> room@.len() > 0 && room@[0] == '!' && room@.contains(':'),
{
    if !connected {
        return Err(Error::InvalidClientConnection);
    }
    let room_ok = room_id_parses(room.as_str());
    let file_name = file_name_of(filename.as_str());
    let guess = guess_mime(filename.as_str());
    compose_file(connected, filename, room, room_ok, label, file_name, mime, guess)
}

/// An explicit media type always wins, and without one the type for
/// arbitrary binary data is used exactly when nothing is guessed.
pub proof fn mime_falls_back_in_order(explicit: Option<Seq<char>>, guess: Option<Seq<char>>)
    ensures
        explicit matches Some(m) ==> mime_of(explicit, guess) == m,
        explicit is None ==> (guess matches Some(g) ==> mime_of(explicit, guess) == g),
        explicit is None && guess is None ==> mime_of(explicit, guess) == octet_stream_text(),
{
}

} // verus!
