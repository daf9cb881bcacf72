//! Playlist identifiers: telling a valid identifier from other text, and
//! reading the identifier out of a playlist's web address.

use crate::text::{owned, same_text};
use rspotify::model::PlaylistId;
use url::Url;
use vstd::prelude::*;

verus! {

/// Why some text was not accepted as the name of a playlist.
#[derive(Debug, Clone, Copy, PartialEq, Eq)]
pub enum InputError {
    /// The text is not the web address of a playlist.
    UnrecognizedUrl,
    /// The address names a playlist by an identifier that is not valid.
    InvalidId,
}

/// The model of a list of strings.
pub open spec fn texts_view(texts: Seq<String>) -> Seq<Seq<char>> {
    texts.map_values(|text: String| text@)
}

/// The model of an optional string.
pub open spec fn text_option_view(text: Option<String>) -> Option<Seq<char>> {
    match text {
        Some(text) => Some(text@),
        None => None,
    }
}

/// The model of the outcome of reading an identifier.
pub open spec fn id_result_view(id: Result<String, InputError>) -> Result<Seq<char>, InputError> {
    match id {
        Ok(id) => Ok(id@),
        Err(error) => Err(error),
    }
}

/// Whether `c` is an ASCII letter or digit.
pub open spec fn is_ascii_alphanumeric(c: char) -> bool {
    ('0' <= c && c <= '9') || ('a' <= c && c <= 'z') || ('A' <= c && c <= 'Z')
}

/// Whether `id` is made of ASCII letters and digits only.
pub open spec fn valid_id(id: Seq<char>) -> bool {
    forall|i: int| 0 <= i < id.len() ==> is_ascii_alphanumeric(#[trigger] id[i])
}

/// Calls `rspotify::model::PlaylistId::id_is_valid`, which accepts a string
/// exactly when all its characters are ASCII letters or digits.
#[verifier::external_body]
fn id_is_valid(id: &str) -> (valid: bool)
    ensures
        valid == valid_id(id@),
{
    PlaylistId::id_is_valid(id)
}

/// The path segments of the absolute URL that `url` spells: `None` if the
/// text does not parse as an absolute URL or the URL cannot be a base.
pub uninterp spec fn url_path_segments(url: Seq<char>) -> Option<Seq<Seq<char>>>;

/// Calls `url::Url::parse` and, on the URL it gives, `Url::path_segments`,
/// and collects the segments. Both failures, of parsing and of a URL without
/// segments, come back as `None`. What the URL parser makes of a text is
/// taken on trust as `url_path_segments`.
#[verifier::external_body]
fn path_segments(url: &str) -> (segments: Option<Vec<String>>)
    ensures
        match segments {
            Some(parts) => Some(texts_view(parts@)) == url_path_segments(url@),
            None => url_path_segments(url@) is None,
        },
{
    match Url::parse(url) {
        Ok(parsed) => match parsed.path_segments() {
            Some(parts) => Some(parts.map(String::from).collect()),
            None => None,
        },
        Err(_) => None,
    }
}

/// The identifier that a playlist address holds: the second path segment,
/// where the first is `playlist`.
pub open spec fn playlist_segment(segments: Option<Seq<Seq<char>>>) -> Option<Seq<char>> {
    match segments {
        Some(parts) => if parts.len() >= 2 && parts[0] == "playlist"@ {
            Some(parts[1])
        } else {
            None
        },
        None => None,
    }
}

/// Picks the playlist identifier out of the path segments of an address.
pub fn playlist_from_segments(segments: Option<Vec<String>>) -> (id: Option<String>)
    ensures
        text_option_view(id) == playlist_segment(
            match segments {
                Some(parts) => Some(texts_view(parts@)),
                None => None,
            },
        ),
{
    match segments {
        Some(parts) => {
            if parts.len() >= 2 && same_text(parts[0].as_str(), "playlist") {
                Some(parts[1].clone())
            } else {
                None
            }
        },
        None => None,
    }
}

/// Reads the playlist identifier out of the web address of a playlist, such
/// as `https://open.spotify.com/playlist/37i9dQZF1DXcBWIGoYBM5M`.
pub fn parse_url(url: &str) -> (id: Option<String>)
    ensures
        text_option_view(id) == playlist_segment(url_path_segments(url@)),
{
    playlist_from_segments(path_segments(url))
}

/// The playlist that the address `url` names.
pub open spec fn url_playlist(url: Seq<char>) -> Result<Seq<char>, InputError> {
    match playlist_segment(url_path_segments(url)) {
        Some(id) => if valid_id(id) {
            Ok(id)
        } else {
            Err(InputError::InvalidId)
        },
        None => Err(InputError::UnrecognizedUrl),
    }
}

/// The playlist that `input` names, be it an identifier or an address.
pub open spec fn named_playlist(input: Seq<char>) -> Result<Seq<char>, InputError> {
    if valid_id(input) {
        Ok(input)
    } else {
        url_playlist(input)
    }
}

/// Accepts the identifier read out of an address if it is valid.
pub fn checked_id(id: Option<String>) -> (checked: Result<String, InputError>)
    ensures
        id_result_view(checked) == match text_option_view(id) {
            Some(id) => if valid_id(id) {
                Ok(id)
            } else {
                Err(InputError::InvalidId)
            },
            None => Err(InputError::UnrecognizedUrl),
        },
{
    match id {
        Some(id) => {
            if id_is_valid(id.as_str()) {
                Ok(id)
            } else {
                Err(InputError::InvalidId)
            }
        },
        None => Err(InputError::UnrecognizedUrl),
    }
}

/// The identifier of the playlist at the address `url`.
pub fn playlist_from_url(url: &str) -> (id: Result<String, InputError>)
    ensures
        id_result_view(id) == url_playlist(url@),
{
    checked_id(parse_url(url))
}

/// The identifier of the playlist that `input` names: `input` itself where
/// it is a valid identifier, else the identifier in the address it spells.
pub fn resolve_playlist(input: &str) -> (id: Result<String, InputError>)
    ensures
        id_result_view(id) == named_playlist(input@),
{
    if id_is_valid(input) {
        Ok(owned(input))
    } else {
        playlist_from_url(input)
    }
}

} // verus!
