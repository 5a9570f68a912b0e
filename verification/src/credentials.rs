//! The stored record of one authenticated session.
//!
//! The record is kept as a line record of five or six fields: homeserver,
//! user, access token, device, default room, and the refresh token where
//! there is one. Reading and writing the file is the caller's part; what the
//! file holds is decided here.

use vstd::prelude::*;
use crate::error::Error;
use crate::record::{
    lines, lines_inverts_parse, parse_inverts_lines, parsed, read_lines, texts, write_lines,
};
use crate::text::text_of;

verus! {

/// The credentials of one session: enough to restore it without a password.
#[derive(Clone, Debug)]
pub struct Credentials {
    /// The URL of the homeserver.
    pub homeserver: String,
    /// The identifier of the user.
    pub user_id: String,
    /// The access token of the session.
    pub access_token: String,
    /// The identifier of the device.
    pub device_id: String,
    /// The room that is used where none is named.
    pub room_default: String,
    /// The refresh token of the session, where the homeserver gave one.
    pub refresh_token: Option<String>,
}

/// What a [`Credentials`] value holds, as mathematical values.
pub ghost struct CredentialsView {
    pub homeserver: Seq<char>,
    pub user_id: Seq<char>,
    pub access_token: Seq<char>,
    pub device_id: Seq<char>,
    pub room_default: Seq<char>,
    pub refresh_token: Option<Seq<char>>,
}

impl View for Credentials {
    type V = CredentialsView;

    open spec fn view(&self) -> CredentialsView {
        CredentialsView {
            homeserver: self.homeserver@,
            user_id: self.user_id@,
            access_token: self.access_token@,
            device_id: self.device_id@,
            room_default: self.room_default@,
            refresh_token: text_of(self.refresh_token),
        }
    }
}

/// The fields of the record, in the order in which they are written.
pub open spec fn fields_of(c: CredentialsView) -> Seq<Seq<char>> {
    let fixed = seq![c.homeserver, c.user_id, c.access_token, c.device_id, c.room_default];
    match c.refresh_token {
        Some(token) => fixed.push(token),
        None => fixed,
    }
}

/// The credentials that a sequence of fields stands for: five fields are a
/// record without refresh token, six a record with one, and any other
/// number is no record.
pub open spec fn from_fields(fields: Seq<Seq<char>>) -> Option<CredentialsView> {
    if fields.len() == 5 || fields.len() == 6 {
        Some(
            CredentialsView {
                homeserver: fields[0],
                user_id: fields[1],
                access_token: fields[2],
                device_id: fields[3],
                room_default: fields[4],
                refresh_token: if fields.len() == 6 {
                    Some(fields[5])
                } else {
                    None
                },
            },
        )
    } else {
        None
    }
}

/// The text of the credentials file.
pub open spec fn encoded(c: CredentialsView) -> Seq<char> {
    lines(fields_of(c))
}

/// The credentials that the text of a file holds, or the error for a file
/// that holds no complete record.
pub open spec fn decoded(text: Seq<char>) -> Result<CredentialsView, Error> {
    match parsed(text) {
        Some(fields) => match from_fields(fields) {
            Some(c) => Ok(c),
            None => Err(Error::MalformedCredentials),
        },
        None => Err(Error::MalformedCredentials),
    }
}

/// What loading comes to, given the contents of the file or `None` where
/// there is no file.
pub open spec fn loaded(contents: Option<Seq<char>>) -> Result<CredentialsView, Error> {
    match contents {
        Some(text) => decoded(text),
        None => Err(Error::NotLoggedIn),
    }
}

/// The view of the result of loading.
pub open spec fn load_view(r: Result<Credentials, Error>) -> Result<CredentialsView, Error> {
    match r {
        Ok(c) => Ok(c@),
        Err(e) => Err(e),
    }
}

impl Credentials {
    /// The credentials of a session that has just been established.
    pub fn new(
        homeserver: String,
        user_id: String,
        access_token: String,
        device_id: String,
        room_default: String,
        refresh_token: Option<String>,
    ) -> (c: Credentials)
        ensures
            c@ == (CredentialsView {
                homeserver: homeserver@,
                user_id: user_id@,
                access_token: access_token@,
                device_id: device_id@,
                room_default: room_default@,
                refresh_token: text_of(refresh_token),
            }),
    {
        Credentials { homeserver, user_id, access_token, device_id, room_default, refresh_token }
    }

    /// The text to write to the credentials file.
    pub fn save(&self) -> (text: String)
        ensures
            text@ == encoded(self@),
    {
        let mut fields: Vec<String> = Vec::new();
        fields.push(self.homeserver.clone());
        fields.push(self.user_id.clone());
        fields.push(self.access_token.clone());
        fields.push(self.device_id.clone());
        fields.push(self.room_default.clone());
        match &self.refresh_token {
            Some(token) => {
                fields.push(token.clone());
            },
            None => {},
        }
        assert(texts(fields@) =~= fields_of(self@));
        write_lines(&fields)
    }

    /// Loads credentials from the contents of the credentials file, `None`
    /// standing for a file that is not there.
    ///
    /// Fails with `NotLoggedIn` exactly when there is no file, and with
    /// `MalformedCredentials` exactly when the file does not hold the text
    /// that [`Credentials::save`] writes for some credentials.
    pub fn load(contents: Option<&str>) -> (r: Result<Credentials, Error>)
        ensures
            load_view(r) == loaded(
                match contents {
                    Some(text) => Some(text@),
                    None => None,
                },
            ),
    {
        let text = match contents {
            Some(text) => text,
            None => {
                return Err(Error::NotLoggedIn);
            },
        };
        let mut fields = match read_lines(text) {
            Some(fields) => fields,
            None => {
                return Err(Error::MalformedCredentials);
            },
        };
        let ghost all = texts(fields@);
        let n = fields.len();
        if n != 5 && n != 6 {
            return Err(Error::MalformedCredentials);
        }
        let refresh_token = if n == 6 {
            fields.pop()
        } else {
            None
        };
        let room_default = fields.pop().unwrap();
        let device_id = fields.pop().unwrap();
        let access_token = fields.pop().unwrap();
        let user_id = fields.pop().unwrap();
        let homeserver = fields.pop().unwrap();
        let c = Credentials {
            homeserver,
            user_id,
            access_token,
            device_id,
            room_default,
            refresh_token,
        };
        assert(Some(c@) == from_fields(all));
        Ok(c)
    }
}

/// Loading what was saved gives back the credentials that were saved.
pub proof fn load_inverts_save(c: CredentialsView)
    ensures
        loaded(Some(encoded(c))) == Ok::<CredentialsView, Error>(c),
{
    parse_inverts_lines(fields_of(c));
}

/// A file that loads holds exactly the text that saving the loaded
/// credentials writes: a file is refused as malformed if and only if no
/// credentials are saved as its text.
pub proof fn save_inverts_load(text: Seq<char>)
    ensures
        decoded(text) matches Ok(c) ==> encoded(c) == text,
        decoded(text) is Err <==> forall|c: CredentialsView| encoded(c) != text,
{
    if decoded(text) is Ok {
        lines_inverts_parse(text);
        let c = decoded(text)->Ok_0;
        assert(fields_of(c) =~= parsed(text)->Some_0);
        assert(encoded(c) == text);
    } else {
        assert forall|c: CredentialsView| encoded(c) != text by {
            if encoded(c) == text {
                parse_inverts_lines(fields_of(c));
                assert(from_fields(fields_of(c)) is Some);
            }
        }
    }
}

/// A missing file and a malformed file fail differently: `NotLoggedIn` is
/// the answer to a missing file and to nothing else.
pub proof fn absent_differs_from_malformed(contents: Option<Seq<char>>)
    ensures
        loaded(contents) == Err::<CredentialsView, Error>(Error::NotLoggedIn) <==> contents is None,
        contents is Some && loaded(contents) is Err ==> loaded(contents) == Err::<
            CredentialsView,
            Error,
        >(Error::MalformedCredentials),
{
}

} // verus!
