//! The calls this library makes into other crates.
//!
//! Nothing in this file is proved. Each function below makes one call and
//! hands its result on as a plain value; its contract is what the library
//! takes on trust from the crate that is called.

use vstd::prelude::*;
use matrix_sdk::ruma::events::room::message::FormattedBody;
use matrix_sdk::ruma::RoomId;
use std::path::Path;

verus! {

/// Whether `RoomId::parse` of ruma accepts `room` as a room identifier.
pub uninterp spec fn room_id_accepted(room: Seq<char>) -> bool;

/// The HTML that `FormattedBody::markdown` of ruma renders for `body`, or
/// `None` where it finds no markdown formatting in it.
pub uninterp spec fn markdown_html(body: Seq<char>) -> Option<Seq<char>>;

/// The first media type that `mime_guess::from_path` guesses for `path`, or
/// `None` where it has no guess.
pub uninterp spec fn guessed_mime(path: Seq<char>) -> Option<Seq<char>>;

/// The final component of `path` as `Path::file_name` of std gives it, or
/// `None` where the path has none.
pub uninterp spec fn path_file_name(path: Seq<char>) -> Option<Seq<char>>;

/// The text of the media type for arbitrary binary data.
pub open spec fn octet_stream_text() -> Seq<char> {
    "application/octet-stream"@
}

/// Asks `RoomId::parse` of ruma whether `room` is a well-formed room
/// identifier. The answer depends on the text alone. Of an accepted
/// identifier the contract claims only what ruma's validation checks first:
/// it starts with the sigil `!` and holds a colon before its server name.
#[verifier::external_body]
pub(crate) fn room_id_parses(room: &str) -> (ok: bool)
    ensures
        ok == room_id_accepted(room@),
        ok ==> room@.len() > 0 && room@[0] == '!' && room@.contains(':'),
{
    RoomId::parse(room).is_ok()
}

/// Renders `body` with `FormattedBody::markdown` of ruma and hands back the
/// HTML, or `None` where ruma found nothing to format. The result depends on
/// the text alone; the contract gives it a name and claims nothing else.
#[verifier::external_body]
pub(crate) fn render_markdown(body: &str) -> (html: Option<String>)
    ensures
        html is Some <==> markdown_html(body@) is Some,
        html matches Some(h) ==> markdown_html(body@) == Some(h@),
{
    FormattedBody::markdown(body).map(|formatted| formatted.body)
}

/// Guesses the media type of `path` with `mime_guess::from_path` and takes
/// the first guess, as text. The guess goes by the extension of the path
/// alone, which std finds by the path rules of the target, looked up in the
/// table that mime_guess was built with; no disk is read. The contract
/// gives the guess a name and claims nothing else.
#[verifier::external_body]
pub(crate) fn guess_mime(path: &str) -> (guess: Option<String>)
    ensures
        guess is Some <==> guessed_mime(path@) is Some,
        guess matches Some(m) ==> guessed_mime(path@) == Some(m@),
{
    mime_guess::from_path(path).first().map(|m| m.as_ref().to_owned())
}

/// The constant `mime::APPLICATION_OCTET_STREAM` as text. The contract
/// claims the text that the mime crate defines the constant with.
#[verifier::external_body]
pub(crate) fn octet_stream() -> (m: String)
    ensures
        m@ == octet_stream_text(),
{
    mime::APPLICATION_OCTET_STREAM.as_ref().to_owned()
}

/// Takes the final component of `path` with `Path::file_name` of std, which
/// goes by the text of the path and the path rules of the target; no disk
/// is read. The path is valid text, so its final component is too and is
/// handed back unchanged. The contract gives it a name and claims nothing else.
#[verifier::external_body]
pub(crate) fn file_name_of(path: &str) -> (name: Option<String>)
    ensures
        name is Some <==> path_file_name(path@) is Some,
        name matches Some(n) ==> path_file_name(path@) == Some(n@),
{
    Path::new(path).file_name().map(|n| n.to_string_lossy().into_owned())
}

} // verus!
