//! Text messages: which content goes to which room.

use vstd::prelude::*;
use vstd::string::*;
use crate::error::Error;
use crate::outside::{markdown_html, render_markdown, room_id_accepted, room_id_parses};

verus! {

/// The message type under which a text is sent.
#[derive(Clone, Copy, Debug, PartialEq, Eq, Structural)]
pub enum MessageKind {
    /// An ordinary text message.
    Text,
    /// A notice, as sent by bots and automated clients.
    Notice,
    /// An emote, describing an action of the sender.
    Emote,
}

/// A text message ready to be sent to a room.
#[derive(Clone, Debug)]
pub struct OutgoingMessage {
    /// The identifier of the room the message goes to.
    pub room: String,
    /// The message type.
    pub kind: MessageKind,
    /// The plain body of the message.
    pub body: String,
    /// The HTML rendering of the body, where there is one.
    pub formatted: Option<String>,
}

/// What an [`OutgoingMessage`] holds, as mathematical values.
pub ghost struct OutgoingMessageView {
    pub room: Seq<char>,
    pub kind: MessageKind,
    pub body: Seq<char>,
    pub formatted: Option<Seq<char>>,
}

impl View for OutgoingMessage {
    type V = OutgoingMessageView;

    open spec fn view(&self) -> OutgoingMessageView {
        OutgoingMessageView {
            room: self.room@,
            kind: self.kind,
            body: self.body@,
            formatted: match self.formatted {
                Some(html) => Some(html@),
                None => None,
            },
        }
    }
}

/// The view of the result of planning a message.
pub open spec fn planned(r: Result<OutgoingMessage, Error>) -> Result<OutgoingMessageView, Error> {
    match r {
        Ok(m) => Ok(m@),
        Err(e) => Err(e),
    }
}

/// The three backticks that open and close a code block.
pub open spec fn fence() -> Seq<char> {
    seq!['`', '`', '`']
}

/// `msg` as a fenced code block: the opening fence on a line of its own, the
/// text, a line break unless the text already ends the line, and the closing fence.
pub open spec fn fenced(msg: Seq<char>) -> Seq<char> {
    let opened = fence().push('\n') + msg;
    if opened.last() == '\n' {
        opened + fence()
    } else {
        opened.push('\n') + fence()
    }
}

/// The body that is sent for `msg`: the fenced block when a code block is
/// asked for, the text itself otherwise.
pub open spec fn body_of(msg: Seq<char>, code: bool) -> Seq<char> {
    if code {
        fenced(msg)
    } else {
        msg
    }
}

/// Exactly one message type applies: notice before emote before plain text.
pub open spec fn kind_of(notice: bool, emote: bool) -> MessageKind {
    if notice {
        MessageKind::Notice
    } else if emote {
        MessageKind::Emote
    } else {
        MessageKind::Text
    }
}

/// Whether the body is rendered as markdown: a code block never is.
pub open spec fn renders_markdown(code: bool, markdown: bool) -> bool {
    !code && markdown
}

/// What is sent, given whether a session is established, whether the room
/// identifier is well formed, and the HTML that rendering the body gives.
pub open spec fn message_plan(
    connected: bool,
    room: Seq<char>,
    room_ok: bool,
    msg: Seq<char>,
    code: bool,
    markdown: bool,
    notice: bool,
    emote: bool,
    html: Option<Seq<char>>,
) -> Result<OutgoingMessageView, Error> {
    if !connected {
        Err(Error::InvalidClientConnection)
    } else if !room_ok {
        Err(Error::InvalidRoom)
    } else {
        Ok(
            OutgoingMessageView {
                room,
                kind: kind_of(notice, emote),
                body: body_of(msg, code),
                formatted: if renders_markdown(code, markdown) {
                    html
                } else {
                    None
                },
            },
        )
    }
}

/// Wraps `msg` into a fenced code block.
pub fn fence_code(msg: &str) -> (block: String)
    ensures
        block@ == fenced(msg@),
{
    proof {
        reveal_strlit("```\n");
        reveal_strlit("```");
        reveal_strlit("\n");
        assert("```\n"@ =~= fence().push('\n'));
        assert("```"@ =~= fence());
        assert("\n"@ =~= seq!['\n']);
    }
    let mut block = String::from_str("```\n");
    block.append(msg);
    let n = msg.unicode_len();
    let line_ended = if n == 0 {
        true
    } else {
        msg.get_char(n - 1) == '\n'
    };
    assert(line_ended == ((fence().push('\n') + msg@).last() == '\n'));
    if !line_ended {
        block.append("\n");
        assert(block@ =~= (fence().push('\n') + msg@).push('\n'));
    }
    block.append("```");
    block
}

/// The body that is sent for `msg`.
pub fn message_body(msg: String, code: bool) -> (body: String)
    ensures
        body@ == body_of(msg@, code),
{
    if code {
        fence_code(msg.as_str())
    } else {
        msg
    }
}

/// The message type that the two flags select.
pub fn message_kind(notice: bool, emote: bool) -> (kind: MessageKind)
    ensures
        kind == kind_of(notice, emote),
{
    if notice {
        MessageKind::Notice
    } else if emote {
        MessageKind::Emote
    } else {
        MessageKind::Text
    }
}

/// Decides what is sent once the room identifier has been checked and the
/// body has been rendered: without a session nothing is, to a malformed room
/// nothing is, and the rendering is kept only where markdown applies.
pub fn compose_message(
    connected: bool,
    room: String,
    room_ok: bool,
    msg: String,
    code: bool,
    markdown: bool,
    notice: bool,
    emote: bool,
    html: Option<String>,
) -> (r: Result<OutgoingMessage, Error>)
    ensures
        planned(r) == message_plan(
            connected,
            room@,
            room_ok,
            msg@,
            code,
            markdown,
            notice,
            emote,
            match html {
                Some(h) => Some(h@),
                None => None,
            },
        ),
{
    if !connected {
        return Err(Error::InvalidClientConnection);
    }
    if !room_ok {
        return Err(Error::InvalidRoom);
    }
    let formatted = if !code && markdown {
        html
    } else {
        None
    };
    Ok(
        OutgoingMessage {
            room,
            kind: message_kind(notice, emote),
            body: message_body(msg, code),
            formatted,
        },
    )
}

/// Plans a text message to `room`.
///
/// Fails with `InvalidClientConnection` when no session is established,
/// before the room is looked at, and with `InvalidRoom` when the room
/// identifier is malformed. Otherwise the message has the type that the
/// flags select and the body of [`body_of`]; a code block is sent as plain
/// text whatever the markdown flag says, and any other text carries its HTML
/// rendering when markdown is asked for and the renderer found formatting.
/// A room that is planned for starts with the sigil `!` and holds a colon.
pub fn message(
    connected: bool,
    msg: String,
    room: String,
    code: bool,
    markdown: bool,
    notice: bool,
    emote: bool,
) -> (r: Result<OutgoingMessage, Error>)
    ensures
        planned(r) == message_plan(
            connected,
            room@,
            room_id_accepted(room@),
            msg@,
            code,
            markdown,
            notice,
            emote,
            markdown_html(msg@),
        ),
        r is Ok ==> room@.len() > 0 && room@[0] == '!' && room@.contains(':'),
{
    if !connected {
        return Err(Error::InvalidClientConnection);
    }
    let room_ok = room_id_parses(room.as_str());
    let html = if room_ok && !code && markdown {
        render_markdown(msg.as_str())
    } else {
        None
    };
    compose_message(connected, room, room_ok, msg, code, markdown, notice, emote, html)
}

/// A code block overrides markdown: with the code flag set the body is the
/// fenced block and carries no rendering, whatever the markdown flag and the
/// renderer say.
pub proof fn code_overrides_markdown(
    room: Seq<char>,
    msg: Seq<char>,
    markdown: bool,
    notice: bool,
    emote: bool,
    html: Option<Seq<char>>,
)
    ensures
        message_plan(true, room, true, msg, true, markdown, notice, emote, html) matches Ok(m)
            && m.body == fenced(msg) && m.formatted is None,
{
}

/// Without an established session every message fails the same way, before
/// the room is considered.
pub proof fn no_session_no_message(
    room: Seq<char>,
    room_ok: bool,
    msg: Seq<char>,
    code: bool,
    markdown: bool,
    notice: bool,
    emote: bool,
    html: Option<Seq<char>>,
)
    ensures
        message_plan(false, room, room_ok, msg, code, markdown, notice, emote, html) == Err::<
            OutgoingMessageView,
            Error,
        >(Error::InvalidClientConnection),
{
}

} // verus!
