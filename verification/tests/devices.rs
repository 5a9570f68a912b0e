use matrix_session::devices::{describe, devices, Device};
use matrix_session::error::Error;

fn device(id: &str, name: Option<&str>) -> Device {
    Device { device_id: id.to_string(), display_name: name.map(|n| n.to_string()) }
}

#[test]
fn each_device_is_one_line() {
    let listing = vec![device("ABCDEF", Some("Alice's phone")), device("GHIJKL", None)];
    let lines = devices(true, &listing).unwrap();
    assert_eq!(lines, vec!["Device: ABCDEF Alice's phone".to_string(), "Device: GHIJKL ".to_string()]);
}

#[test]
fn a_device_without_name_has_an_empty_name() {
    assert_eq!(describe(&device("X", None)), "Device: X ");
    assert_eq!(describe(&device("X", Some(""))), "Device: X ");
    assert_eq!(describe(&device("", Some("n"))), "Device:  n");
}

#[test]
fn an_empty_listing_has_no_lines() {
    assert_eq!(devices(true, &vec![]), Ok(vec![]));
}

#[test]
fn devices_need_a_session() {
    let listing = vec![device("ABCDEF", None)];
    assert_eq!(devices(false, &listing), Err(Error::NotLoggedIn));
    assert_eq!(devices(false, &vec![]), Err(Error::NotLoggedIn));
}

#[test]
fn every_error_has_a_text_of_its_own() {
    let all = [
        Error::NotLoggedIn,
        Error::MalformedCredentials,
        Error::LoginFailed,
        Error::InvalidClientConnection,
        Error::InvalidRoom,
        Error::InvalidFile,
        Error::VerificationFailed,
        Error::VerificationRejected,
        Error::VerificationTimeout,
        Error::Transport,
        Error::Store,
    ];
    for (i, a) in all.iter().enumerate() {
        assert!(!a.message().is_empty());
        for b in all.iter().skip(i + 1) {
            assert_ne!(a.message(), b.message());
        }
    }
    assert_eq!(Error::NotLoggedIn.message(), "not logged in");
    assert_eq!(Error::InvalidRoom.message(), "invalid room");
    assert_eq!(Error::VerificationRejected.message(), "verification rejected");
    assert_eq!(Error::VerificationTimeout.message(), "verification timed out");
}
