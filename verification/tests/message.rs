use matrix_session::delivery::{deliver, deliver_step, delivery_outcome, DeliveryStep, Payload};
use matrix_session::error::Error;
use matrix_session::message::{
    compose_message, fence_code, message, message_body, message_kind, MessageKind,
};

const ROOM: &str = "!abc:example.org";

fn plan(msg: &str, code: bool, markdown: bool, notice: bool, emote: bool) -> matrix_session::message::OutgoingMessage {
    message(true, msg.to_string(), ROOM.to_string(), code, markdown, notice, emote).unwrap()
}

#[test]
fn code_overrides_markdown() {
    let m = plan("**x** = 1", true, true, false, false);
    assert_eq!(m.body, "```\n**x** = 1\n```");
    assert_eq!(m.formatted, None);
    assert_eq!(m.kind, MessageKind::Text);
    assert_eq!(m.room, ROOM);
}

#[test]
fn code_without_markdown_is_the_same_block() {
    let m = plan("**x** = 1", true, false, false, false);
    assert_eq!(m.body, "```\n**x** = 1\n```");
    assert_eq!(m.formatted, None);
}

#[test]
fn fence_adds_a_line_break_only_where_one_is_missing() {
    assert_eq!(fence_code("let x = 1;"), "```\nlet x = 1;\n```");
    assert_eq!(fence_code("let x = 1;\n"), "```\nlet x = 1;\n```");
    assert_eq!(fence_code("a\nb"), "```\na\nb\n```");
    assert_eq!(fence_code("a\n\n"), "```\na\n\n```");
}

#[test]
fn fence_of_nothing_is_two_fences() {
    assert_eq!(fence_code(""), "```\n```");
}

#[test]
fn body_is_the_text_unless_code_is_asked_for() {
    assert_eq!(message_body("hi".to_string(), false), "hi");
    assert_eq!(message_body("hi".to_string(), true), "```\nhi\n```");
}

#[test]
fn markdown_is_rendered_to_html() {
    let m = plan("**bold** move", false, true, false, false);
    assert_eq!(m.body, "**bold** move");
    assert_eq!(m.formatted, Some("<p><strong>bold</strong> move</p>\n".to_string()));
}

#[test]
fn markdown_without_formatting_stays_plain() {
    let m = plan("hi", false, true, false, false);
    assert_eq!(m.body, "hi");
    assert_eq!(m.formatted, None);
}

#[test]
fn plain_text_is_not_rendered() {
    let m = plan("**bold** move", false, false, false, false);
    assert_eq!(m.body, "**bold** move");
    assert_eq!(m.formatted, None);
}

#[test]
fn notice_comes_before_emote_before_text() {
    assert_eq!(message_kind(true, true), MessageKind::Notice);
    assert_eq!(message_kind(true, false), MessageKind::Notice);
    assert_eq!(message_kind(false, true), MessageKind::Emote);
    assert_eq!(message_kind(false, false), MessageKind::Text);
    assert_eq!(plan("x", false, false, true, true).kind, MessageKind::Notice);
    assert_eq!(plan("x", false, false, false, true).kind, MessageKind::Emote);
}

#[test]
fn notice_and_emote_may_carry_markdown() {
    let n = plan("*waves*", false, true, true, false);
    assert_eq!(n.kind, MessageKind::Notice);
    assert_eq!(n.formatted, Some("<p><em>waves</em></p>\n".to_string()));
    let e = plan("*waves*", false, true, false, true);
    assert_eq!(e.kind, MessageKind::Emote);
    assert_eq!(e.formatted, Some("<p><em>waves</em></p>\n".to_string()));
}

#[test]
fn without_a_session_nothing_is_planned() {
    let r = message(false, "hi".to_string(), ROOM.to_string(), false, false, false, false);
    assert_eq!(r.unwrap_err(), Error::InvalidClientConnection);
}

#[test]
fn a_missing_session_is_reported_before_a_bad_room() {
    let r = message(false, "hi".to_string(), "not a room".to_string(), true, true, true, true);
    assert_eq!(r.unwrap_err(), Error::InvalidClientConnection);
}

#[test]
fn a_malformed_room_is_an_invalid_room() {
    for room in ["", "room", "#alias:example.org", "!nocolon", "!room:", "!room:bad host"] {
        let r = message(true, "hi".to_string(), room.to_string(), false, false, false, false);
        assert_eq!(r.unwrap_err(), Error::InvalidRoom, "room {:?}", room);
    }
}

#[test]
fn well_formed_rooms_are_accepted() {
    for room in ["!abc:example.org", "!unknown:server", "!a:b:8448", "!x:[::1]:80"] {
        let r = message(true, "hi".to_string(), room.to_string(), false, false, false, false);
        assert_eq!(r.unwrap().room, room);
    }
}

#[test]
fn an_unknown_room_is_an_invalid_room_not_a_transport_error() {
    let planned = message(
        true,
        "hi".to_string(),
        "!unknown:server".to_string(),
        false,
        false,
        false,
        false,
    );
    assert!(planned.is_ok());
    let first = deliver(Payload::Message);
    assert_eq!(first, DeliveryStep::ResolveRoom);
    let next = deliver_step(first, false);
    assert_eq!(next, DeliveryStep::Failed(Error::InvalidRoom));
    assert_eq!(delivery_outcome(next), Some(Err(Error::InvalidRoom)));
    assert_ne!(delivery_outcome(next), Some(Err(Error::Transport)));
}

#[test]
fn compose_keeps_the_rendering_only_for_markdown() {
    let html = Some("<b>x</b>".to_string());
    let m = compose_message(
        true, ROOM.to_string(), true, "x".to_string(), false, true, false, false, html.clone(),
    )
    .unwrap();
    assert_eq!(m.formatted, html);
    let m = compose_message(
        true, ROOM.to_string(), true, "x".to_string(), false, false, false, false, html.clone(),
    )
    .unwrap();
    assert_eq!(m.formatted, None);
    let m = compose_message(
        true, ROOM.to_string(), true, "x".to_string(), true, true, false, false, html.clone(),
    )
    .unwrap();
    assert_eq!(m.formatted, None);
    assert_eq!(m.body, "```\nx\n```");
    let r = compose_message(
        true, ROOM.to_string(), false, "x".to_string(), false, true, false, false, html.clone(),
    );
    assert_eq!(r.unwrap_err(), Error::InvalidRoom);
    let r = compose_message(
        false, ROOM.to_string(), true, "x".to_string(), false, true, false, false, html,
    );
    assert_eq!(r.unwrap_err(), Error::InvalidClientConnection);
}

#[test]
fn a_message_is_delivered_in_two_steps() {
    let s = deliver(Payload::Message);
    assert_eq!(delivery_outcome(s), None);
    let s = deliver_step(s, true);
    assert_eq!(s, DeliveryStep::Send);
    let s = deliver_step(s, true);
    assert_eq!(s, DeliveryStep::Delivered);
    assert_eq!(delivery_outcome(s), Some(Ok(())));
    assert_eq!(deliver_step(s, false), DeliveryStep::Delivered);
}

#[test]
fn a_failed_send_is_a_transport_failure() {
    let s = deliver_step(DeliveryStep::Send, false);
    assert_eq!(s, DeliveryStep::Failed(Error::Transport));
    assert_eq!(deliver_step(s, true), DeliveryStep::Failed(Error::Transport));
}

#[test]
fn a_file_is_read_before_its_room_is_resolved() {
    let s = deliver(Payload::File);
    assert_eq!(s, DeliveryStep::ReadFile);
    assert_eq!(deliver_step(s, false), DeliveryStep::Failed(Error::Store));
    assert_eq!(deliver_step(s, true), DeliveryStep::ResolveRoom);
}
