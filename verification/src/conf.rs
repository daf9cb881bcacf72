//! The configuration of the archive: the credentials of the application, as
//! a JSON document holds them.

use serde_json::Value;
use vstd::prelude::*;

verus! {

/// The key under which the configuration holds the application's identifier.
pub const CONF_ARCHIFY_ID: &'static str = "archify_id";

/// The key under which the configuration holds the application's secret.
pub const CONF_ARCHIFY_SECRET: &'static str = "archify_secret";

/// The capture time of a version that has none: that of the placeholder.
pub const CONF_TIMESTAMP_NULL: u64 = 0;

/// The position of a version that was not stored yet.
pub const CONF_DEFAULT_COUNT: u64 = 0;

/// The credentials under which the application talks to the provider.
#[derive(Debug, Clone, PartialEq, Eq)]
pub struct ArchifyConf {
    /// The identifier of the application.
    pub archify_id: String,
    /// The secret of the application.
    pub archify_secret: String,
}

/// Mathematical model of an [`ArchifyConf`].
pub struct ArchifyConfView {
    pub archify_id: Seq<char>,
    pub archify_secret: Seq<char>,
}

impl View for ArchifyConf {
    type V = ArchifyConfView;

    open spec fn view(&self) -> ArchifyConfView {
        ArchifyConfView { archify_id: self.archify_id@, archify_secret: self.archify_secret@ }
    }
}

/// Why a document gives no configuration.
#[derive(Debug, Clone, Copy, PartialEq, Eq)]
pub enum ConfError {
    /// The document is not JSON.
    Malformed,
    /// The document lacks the identifier or the secret, or holds `null` for it.
    MissingField,
    /// The identifier or the secret is not a string.
    NotText,
}

/// What a JSON document holds under a key, as far as the configuration
/// cares: nothing, a string, or something else.
#[derive(Debug, PartialEq, Eq)]
pub enum JsonMember {
    /// `null`, also where the document is no object or lacks the key.
    Null,
    /// A string.
    Text(String),
    /// A boolean, a number, an array or an object.
    Other,
}

/// Mathematical model of a [`JsonMember`].
pub enum JsonMemberView {
    Null,
    Text(Seq<char>),
    Other,
}

impl View for JsonMember {
    type V = JsonMemberView;

    open spec fn view(&self) -> JsonMemberView {
        match *self {
            JsonMember::Null => JsonMemberView::Null,
            JsonMember::Text(text) => JsonMemberView::Text(text@),
            JsonMember::Other => JsonMemberView::Other,
        }
    }
}

/// The model of a member that may be missing for want of a document.
pub open spec fn member_view(member: Option<JsonMember>) -> Option<JsonMemberView> {
    match member {
        Some(member) => Some(member@),
        None => None,
    }
}

/// What the JSON document `text` holds under `key`; `None` if `text` is not
/// a JSON document.
pub uninterp spec fn json_member(text: Seq<char>, key: Seq<char>) -> Option<JsonMemberView>;

/// Calls `serde_json::from_str` to parse `text` as a `serde_json::Value`, and
/// indexes the value with `key`, which gives `Value::Null` where the value
/// is no object or has no such key. The kind of the member, and its text if
/// it is a string, are handed back. What the parser reads is taken on trust
/// as `json_member`.
#[verifier::external_body]
fn read_member(text: &str, key: &str) -> (member: Option<JsonMember>)
    ensures
        member_view(member) == json_member(text@, key@),
{
    match serde_json::from_str::<Value>(text) {
        Ok(document) => match &document[key] {
            Value::Null => Some(JsonMember::Null),
            Value::Bool(_) => Some(JsonMember::Other),
            Value::Number(_) => Some(JsonMember::Other),
            Value::String(text) => Some(JsonMember::Text(text.clone())),
            Value::Array(_) => Some(JsonMember::Other),
            Value::Object(_) => Some(JsonMember::Other),
        },
        Err(_) => None,
    }
}

/// The configuration that the two members of a document give.
pub open spec fn configuration_of(
    id: Option<JsonMemberView>,
    secret: Option<JsonMemberView>,
) -> Result<ArchifyConfView, ConfError> {
    match (id, secret) {
        (Some(id), Some(secret)) => match (id, secret) {
            (JsonMemberView::Null, _) => Err(ConfError::MissingField),
            (_, JsonMemberView::Null) => Err(ConfError::MissingField),
            (JsonMemberView::Text(id), JsonMemberView::Text(secret)) => Ok(
                ArchifyConfView { archify_id: id, archify_secret: secret },
            ),
            _ => Err(ConfError::NotText),
        },
        _ => Err(ConfError::Malformed),
    }
}

/// The model of the outcome of reading a configuration.
pub open spec fn conf_view(conf: Result<ArchifyConf, ConfError>) -> Result<
    ArchifyConfView,
    ConfError,
> {
    match conf {
        Ok(conf) => Ok(conf@),
        Err(error) => Err(error),
    }
}

impl ArchifyConf {
    /// Makes the configuration out of what a document holds as identifier
    /// and as secret: both have to be there, and to be strings.
    pub fn from_members(id: Option<JsonMember>, secret: Option<JsonMember>) -> (conf: Result<
        ArchifyConf,
        ConfError,
    >)
        ensures
            conf_view(conf) == configuration_of(member_view(id), member_view(secret)),
    {
        match (id, secret) {
            (Some(id), Some(secret)) => match (id, secret) {
                (JsonMember::Null, _) => Err(ConfError::MissingField),
                (_, JsonMember::Null) => Err(ConfError::MissingField),
                (JsonMember::Text(id), JsonMember::Text(secret)) => Ok(
                    ArchifyConf { archify_id: id, archify_secret: secret },
                ),
                _ => Err(ConfError::NotText),
            },
            _ => Err(ConfError::Malformed),
        }
    }
}

/// Reads the configuration out of the JSON document `text`.
pub fn extract_configuration(text: &str) -> (conf: Result<ArchifyConf, ConfError>)
    ensures
        conf_view(conf) == configuration_of(
            json_member(text@, CONF_ARCHIFY_ID@),
            json_member(text@, CONF_ARCHIFY_SECRET@),
        ),
{
    let id = read_member(text, CONF_ARCHIFY_ID);
    let secret = read_member(text, CONF_ARCHIFY_SECRET);
    ArchifyConf::from_members(id, secret)
}

} // verus!
