//! Locating the files that the tool reads, where `~` in a path stands for
//! the home directory of the user who runs it, and reading a signing keypair
//! from the content of a key file.

use vstd::prelude::*;
use crate::crypto::{check_signing_keypair, is_signing_keypair};
use crate::error::StealthLaunchError;

verus! {

/// Whether the components of `base` are the leading components of `path`,
/// as `std::path::Path::starts_with` decides it.
pub uninterp spec fn path_starts_with(path: Seq<char>, base: Seq<char>) -> bool;

/// What is left of `path` once the leading components `base` are taken off,
/// as `std::path::Path::strip_prefix` gives it.
pub uninterp spec fn path_strip_prefix(path: Seq<char>, base: Seq<char>) -> Option<Seq<char>>;

/// `rest` appended to `base` as `std::path::Path::join` appends it.
pub uninterp spec fn path_join(base: Seq<char>, rest: Seq<char>) -> Seq<char>;

/// `std::path::Path::starts_with`: true when `base` is a prefix of `path`,
/// compared whole component by whole component.
#[verifier::external_body]
fn starts_with(path: &str, base: &str) -> (r: bool)
    ensures
        r == path_starts_with(path@, base@),
{
    std::path::Path::new(path).starts_with(base)
}

/// `std::path::Path::strip_prefix`: the path without `base`; it fails exactly
/// when `starts_with` is false for the same arguments.
#[verifier::external_body]
fn strip_prefix(path: &str, base: &str) -> (r: Option<String>)
    ensures
        r is Some == path_starts_with(path@, base@),
        r matches Some(s) ==> path_strip_prefix(path@, base@) == Some(s@),
        r is None ==> path_strip_prefix(path@, base@) is None,
{
    match std::path::Path::new(path).strip_prefix(base) {
        Ok(rest) => Some(rest.to_string_lossy().into_owned()),
        Err(_) => None,
    }
}

/// `std::path::Path::join`: `base` extended by `rest`.
#[verifier::external_body]
fn join(base: &str, rest: &str) -> (r: String)
    ensures
        r@ == path_join(base@, rest@),
{
    std::path::Path::new(base).join(rest).to_string_lossy().into_owned()
}

/// `dirs::home_dir`: the home directory of the current user, if the
/// environment gives one, as text. Nothing is promised of the result.
#[verifier::external_body]
fn home_dir() -> (r: Option<String>)
{
    dirs::home_dir().map(|home| home.to_string_lossy().into_owned())
}

/// The path that `path` stands for when the home directory is `home`.
pub open spec fn spec_expand_tilde(path: Seq<char>, home: Option<Seq<char>>) -> Seq<char> {
    if path_starts_with(path, "~"@) && home is Some {
        path_join(home->0, path_strip_prefix(path, "~"@)->0)
    } else {
        path
    }
}

/// View of an optional string as an optional sequence of characters.
pub open spec fn opt_view(s: Option<String>) -> Option<Seq<char>> {
    match s {
        Some(text) => Some(text@),
        None => None,
    }
}

/// Replaces a leading `~` component by `home`. A path that does not start
/// with `~`, and any path when no home directory is known, comes back as it is.
pub fn expand_tilde(path: &str, home: Option<String>) -> (r: String)
    ensures
        r@ == spec_expand_tilde(path@, opt_view(home)),
{
    if starts_with(path, "~") {
        if let Some(home) = home {
            match strip_prefix(path, "~") {
                Some(rest) => {
                    return join(home.as_str(), rest.as_str());
                },
                None => {},
            }
        }
    }
    path.to_owned()
}

/// Expands `~` with the home directory of the current user, whatever the
/// environment gives for it.
pub fn expand_path(path: &str) -> (r: String)
    ensures
        exists|home: Option<Seq<char>>| r@ == spec_expand_tilde(path@, home),
        !path_starts_with(path@, "~"@) ==> r@ == path@,
{
    let home = home_dir();
    let r = expand_tilde(path, home);
    assert(r@ == spec_expand_tilde(path@, opt_view(home)));
    r
}

/// The bytes that `serde_json::from_str` reads from a text as a JSON array
/// of numbers below 256; `None` where it reports an error.
pub uninterp spec fn json_byte_array(text: Seq<char>) -> Option<Seq<u8>>;

/// `serde_json::from_str::<Vec<u8>>`: the bytes of a JSON array of bytes.
#[verifier::external_body]
fn parse_json_bytes(text: &str) -> (r: Option<Vec<u8>>)
    ensures
        r is Some == json_byte_array(text@) is Some,
        r matches Some(bytes) ==> json_byte_array(text@) == Some(bytes@),
{
    serde_json::from_str::<Vec<u8>>(text).ok()
}

/// Reads a signing keypair from the content of a key file: a JSON array of
/// the 64 bytes of the keypair. Anything else is `InvalidKeypair`.
pub fn load_keypair(data: &str) -> (r: Result<Vec<u8>, StealthLaunchError>)
    ensures
        r is Ok <==> (json_byte_array(data@) matches Some(bytes) && is_signing_keypair(bytes)),
        r matches Ok(keypair) ==> json_byte_array(data@) == Some(keypair@) && keypair@.len() == 64,
        r matches Err(e) ==> e is InvalidKeypair,
{
    match parse_json_bytes(data) {
        Some(bytes) => {
            if check_signing_keypair(bytes.as_slice()) {
                Ok(bytes)
            } else {
                Err(StealthLaunchError::InvalidKeypair)
            }
        },
        None => Err(StealthLaunchError::InvalidKeypair),
    }
}

} // verus!
