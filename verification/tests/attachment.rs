use matrix_session::attachment;
use matrix_session::attachment::{compose_file, resolve_label, resolve_mime};
use matrix_session::error::Error;

const ROOM: &str = "!abc:example.org";

fn plan(path: &str, label: Option<&str>, mime: Option<&str>) -> Result<matrix_session::attachment::OutgoingFile, Error> {
    attachment::file(
        true,
        path.to_string(),
        ROOM.to_string(),
        label.map(|l| l.to_string()),
        mime.map(|m| m.to_string()),
    )
}

#[test]
fn png_is_guessed_from_the_path() {
    let f = plan("/tmp/pictures/cat.png", None, None).unwrap();
    assert_eq!(f.mime, "image/png");
    assert_eq!(f.label, "cat.png");
    assert_eq!(f.path, "/tmp/pictures/cat.png");
    assert_eq!(f.room, ROOM);
}

#[test]
fn the_guess_ignores_the_case_of_the_extension() {
    assert_eq!(plan("CAT.PNG", None, None).unwrap().mime, "image/png");
    assert_eq!(plan("notes.txt", None, None).unwrap().mime, "text/plain");
}

#[test]
fn an_unknown_extension_is_an_octet_stream() {
    let f = plan("/tmp/data.zzzunknown", None, None).unwrap();
    assert_eq!(f.mime, "application/octet-stream");
}

#[test]
fn no_extension_is_an_octet_stream() {
    assert_eq!(plan("/tmp/README", None, None).unwrap().mime, "application/octet-stream");
}

#[test]
fn an_explicit_mime_wins_over_the_guess() {
    let f = plan("/tmp/cat.png", None, Some("text/plain")).unwrap();
    assert_eq!(f.mime, "text/plain");
    let f = plan("/tmp/data.zzzunknown", None, Some("image/jpeg")).unwrap();
    assert_eq!(f.mime, "image/jpeg");
}

#[test]
fn the_label_falls_back_to_the_base_name() {
    assert_eq!(plan("/tmp/pictures/cat.png", None, None).unwrap().label, "cat.png");
    assert_eq!(plan("cat.png", None, None).unwrap().label, "cat.png");
    assert_eq!(plan("dir/sub/", None, None).unwrap().label, "sub");
}

#[test]
fn an_explicit_label_wins_over_the_base_name() {
    let f = plan("/tmp/pictures/cat.png", Some("my cat"), None).unwrap();
    assert_eq!(f.label, "my cat");
    assert_eq!(f.mime, "image/png");
}

#[test]
fn a_path_without_final_component_is_an_invalid_file() {
    assert_eq!(plan("/", None, None).unwrap_err(), Error::InvalidFile);
    assert_eq!(plan("..", None, None).unwrap_err(), Error::InvalidFile);
    assert_eq!(plan("/tmp/..", None, None).unwrap_err(), Error::InvalidFile);
    assert_eq!(plan("", None, None).unwrap_err(), Error::InvalidFile);
}

#[test]
fn an_explicit_label_rescues_a_path_without_final_component() {
    let f = plan("..", Some("parent"), None).unwrap();
    assert_eq!(f.label, "parent");
    assert_eq!(f.mime, "application/octet-stream");
}

#[test]
fn without_a_session_no_file_is_planned() {
    let r = attachment::file(false, "/tmp/cat.png".to_string(), ROOM.to_string(), None, None);
    assert_eq!(r.unwrap_err(), Error::InvalidClientConnection);
    let r = attachment::file(false, "..".to_string(), "bad room".to_string(), None, None);
    assert_eq!(r.unwrap_err(), Error::InvalidClientConnection);
}

#[test]
fn a_malformed_room_is_reported_before_a_nameless_file() {
    let r = attachment::file(true, "..".to_string(), "bad room".to_string(), None, None);
    assert_eq!(r.unwrap_err(), Error::InvalidRoom);
    let r = attachment::file(true, "/tmp/cat.png".to_string(), "!nocolon".to_string(), None, None);
    assert_eq!(r.unwrap_err(), Error::InvalidRoom);
}

#[test]
fn resolve_mime_falls_back_in_order() {
    let s = |t: &str| Some(t.to_string());
    assert_eq!(resolve_mime(s("a/b"), s("c/d")), "a/b");
    assert_eq!(resolve_mime(s("a/b"), None), "a/b");
    assert_eq!(resolve_mime(None, s("c/d")), "c/d");
    assert_eq!(resolve_mime(None, None), "application/octet-stream");
}

#[test]
fn resolve_label_fails_only_without_any_name() {
    let s = |t: &str| Some(t.to_string());
    assert_eq!(resolve_label(s("l"), s("n")), Ok("l".to_string()));
    assert_eq!(resolve_label(s("l"), None), Ok("l".to_string()));
    assert_eq!(resolve_label(None, s("n")), Ok("n".to_string()));
    assert_eq!(resolve_label(None, None), Err(Error::InvalidFile));
}

#[test]
fn compose_file_decides_on_what_it_is_given() {
    let s = |t: &str| Some(t.to_string());
    let f = compose_file(
        true, "p".to_string(), ROOM.to_string(), true, None, s("name"), None, s("x/y"),
    )
    .unwrap();
    assert_eq!((f.label.as_str(), f.mime.as_str(), f.path.as_str()), ("name", "x/y", "p"));
    let r = compose_file(true, "p".to_string(), ROOM.to_string(), true, None, None, None, None);
    assert_eq!(r.unwrap_err(), Error::InvalidFile);
    let r = compose_file(true, "p".to_string(), ROOM.to_string(), false, s("l"), None, None, None);
    assert_eq!(r.unwrap_err(), Error::InvalidRoom);
    let r = compose_file(false, "p".to_string(), ROOM.to_string(), true, s("l"), None, None, None);
    assert_eq!(r.unwrap_err(), Error::InvalidClientConnection);
}
