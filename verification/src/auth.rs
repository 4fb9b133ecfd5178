//! Offline authentication and the platform's default game directory.

use vstd::prelude::*;
use crate::models::{AuthResult, UserProfile};
use crate::text::{concat_str, utf8_len};
use crate::uuid::{generate_offline_uuid, is_version3_uuid_text, offline_uuid};

verus! {

/// The message for an empty user name.
pub open spec fn empty_username_message() -> Seq<char> {
    "Username cannot be empty"@
}

/// The message for a user name of the wrong length.
pub open spec fn username_length_message() -> Seq<char> {
    "Username must be between 3 and 16 characters"@
}

/// A user name is accepted when its UTF-8 encoding has 3 to 16 bytes.
pub open spec fn username_accepted(name: Seq<char>) -> bool {
    3 <= utf8_len(name) <= 16
}

/// Authenticate offline (no network).
///
/// An empty name and a name whose UTF-8 encoding is shorter than 3 or
/// longer than 16 bytes are refused with a message; any other name gets a
/// profile carrying that name and its offline UUID.
pub fn authenticate_offline(username: String) -> (r: AuthResult)
    ensures
        r.well_formed(),
        r.success <==> username_accepted(username@),
        username@.len() == 0 ==> r.error.unwrap()@ == empty_username_message(),
        username@.len() != 0 && !username_accepted(username@) ==> r.error.unwrap()@
            == username_length_message(),
        r.success ==> {
            let p = r.profile.unwrap();
            &&& p.id.is_none()
            &&& p.username@ == username@
            &&& p.uuid@ == offline_uuid(username@)
            &&& is_version3_uuid_text(p.uuid@)
            &&& p.access_token.is_none()
            &&& p.email.is_none()
            &&& !p.email_verified
            &&& !p.banned
        },
{
    if username.as_str().is_empty() {
        proof {
            assert(vstd::utf8::encode_utf8(username@) =~= Seq::<u8>::empty()) by {
                reveal_with_fuel(vstd::utf8::encode_utf8, 1);
            }
        }
        return AuthResult {
            success: false,
            profile: None,
            error: Some(String::from_str("Username cannot be empty")),
        };
    }
    let len = username.as_str().as_bytes().len();
    if len < 3 || len > 16 {
        return AuthResult {
            success: false,
            profile: None,
            error: Some(String::from_str("Username must be between 3 and 16 characters")),
        };
    }
    let uuid = generate_offline_uuid(username.as_str());
    AuthResult {
        success: true,
        profile: Some(
            UserProfile {
                id: None,
                username: username.clone(),
                uuid: uuid.clone(),
                access_token: None,
                email: None,
                email_verified: false,
                banned: false,
            },
        ),
        error: None,
    }
}

/// The operating systems the launcher knows a game directory for.
pub enum Platform {
    Windows,
    MacOs,
    Linux,
    Other,
}

/// The environment variable whose value roots the default game directory:
/// `APPDATA` on Windows, `HOME` on macOS and Linux, none elsewhere.
pub open spec fn directory_variable_name(platform: Platform) -> Option<Seq<char>> {
    match platform {
        Platform::Windows => Some("APPDATA"@),
        Platform::MacOs => Some("HOME"@),
        Platform::Linux => Some("HOME"@),
        Platform::Other => None,
    }
}

/// The default game directory under the variable's value.
pub open spec fn default_directory(platform: Platform, value: Option<Seq<char>>) -> Seq<char> {
    match (platform, value) {
        (Platform::Windows, Some(v)) => v + "/.minecraft"@,
        (Platform::MacOs, Some(v)) => v + "/Library/Application Support/minecraft"@,
        (Platform::Linux, Some(v)) => v + "/.minecraft"@,
        _ => Seq::empty(),
    }
}

/// Name of the environment variable to read for [`default_game_directory`].
pub fn game_directory_variable(platform: &Platform) -> (r: Option<String>)
    ensures
        match r {
            Some(s) => directory_variable_name(*platform) == Some(s@),
            None => directory_variable_name(*platform).is_none(),
        },
{
    match platform {
        Platform::Windows => Some(String::from_str("APPDATA")),
        Platform::MacOs => Some(String::from_str("HOME")),
        Platform::Linux => Some(String::from_str("HOME")),
        Platform::Other => None,
    }
}

/// Default game directory for `platform`, given the value of its variable
/// (`None` when the variable is unset or unreadable): `<APPDATA>/.minecraft`
/// on Windows, `<HOME>/Library/Application Support/minecraft` on macOS,
/// `<HOME>/.minecraft` on Linux, and the empty string otherwise.
pub fn default_game_directory(platform: &Platform, value: Option<String>) -> (r: String)
    ensures
        r@ == default_directory(*platform, match value { Some(v) => Some(v@), None => None }),
{
    match (platform, value) {
        (Platform::Windows, Some(v)) => concat_str(v.as_str(), "/.minecraft"),
        (Platform::MacOs, Some(v)) => concat_str(v.as_str(), "/Library/Application Support/minecraft"),
        (Platform::Linux, Some(v)) => concat_str(v.as_str(), "/.minecraft"),
        _ => String::new(),
    }
}

} // verus!
