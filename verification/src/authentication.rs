//! The credential of the application: the token that the provider issues,
//! the header values that carry credentials, and the cache of the token.

use crate::conf::{ArchifyConf, ArchifyConfView};
use crate::text::{owned, same_text};
use base64::engine::general_purpose;
use base64::Engine;
use vstd::prelude::*;
use vstd::string::*;
use vstd::utf8::*;

verus! {

/// A bearer credential as the provider issues it.
#[derive(Debug, Clone, PartialEq, Eq)]
pub struct AppToken {
    /// The credential itself.
    pub access_token: String,
    /// For how many seconds after it was issued the credential is good.
    pub expires_in: u64,
    /// The kind of the credential, such as `Bearer`.
    pub token_type: String,
}

/// A credential with the time it was received and the application it was
/// issued to.
#[derive(Debug, Clone, PartialEq, Eq)]
pub struct Token {
    /// The credential.
    pub token: AppToken,
    /// Unix time, in seconds, at which the credential was received.
    pub received_at: u64,
    /// The identifier of the application that the credential was issued to.
    pub client_id: String,
}

/// Mathematical model of an [`AppToken`].
pub struct AppTokenView {
    pub access_token: Seq<char>,
    pub expires_in: u64,
    pub token_type: Seq<char>,
}

/// Mathematical model of a [`Token`].
pub struct TokenView {
    pub token: AppTokenView,
    pub received_at: u64,
    pub client_id: Seq<char>,
}

impl View for AppToken {
    type V = AppTokenView;

    open spec fn view(&self) -> AppTokenView {
        AppTokenView {
            access_token: self.access_token@,
            expires_in: self.expires_in,
            token_type: self.token_type@,
        }
    }
}

impl View for Token {
    type V = TokenView;

    open spec fn view(&self) -> TokenView {
        TokenView { token: self.token@, received_at: self.received_at, client_id: self.client_id@ }
    }
}

impl TokenView {
    /// Whether the credential is no longer good at time `now`: its time to
    /// live has passed since it was received.
    pub open spec fn is_expired(self, now: u64) -> bool {
        self.received_at + self.token.expires_in <= now
    }

    /// The value of the header that authorises a request with this credential.
    pub open spec fn authorization(self) -> Seq<char> {
        self.token.token_type + " "@ + self.token.access_token
    }
}

impl Token {
    /// Whether the credential is no longer good at time `now`.
    pub fn is_expired(&self, now: u64) -> (expired: bool)
        ensures
            expired == self@.is_expired(now),
    {
        match self.received_at.checked_add(self.token.expires_in) {
            Some(end) => end <= now,
            None => false,
        }
    }

    /// The value of the header that authorises a request with this
    /// credential: its kind, a space, and the credential.
    pub fn authorization(&self) -> (value: String)
        ensures
            value@ == self@.authorization(),
    {
        let mut value = self.token.token_type.clone();
        value.append(" ");
        value.append(self.token.access_token.as_str());
        value
    }
}

/// The base64 encoding of `data`, in the standard alphabet and with padding.
pub uninterp spec fn base64_standard(data: Seq<u8>) -> Seq<char>;

/// Calls `encode` of `base64::engine::general_purpose::STANDARD`, which
/// returns the padded base64 text of the bytes. The encoder panics where the
/// length of that text overflows; the bound on the input rules that out. The
/// text is taken on trust as `base64_standard` of the input.
#[verifier::external_body]
fn encode_base64(data: &[u8]) -> (encoded: String)
    requires
        data@.len() <= usize::MAX / 2,
    ensures
        encoded@ == base64_standard(data@),
{
    general_purpose::STANDARD.encode(data)
}

/// The text that is encoded for the provider: identifier, colon, secret.
pub open spec fn credential_pair_of(conf: ArchifyConfView) -> Seq<char> {
    conf.archify_id + ":"@ + conf.archify_secret
}

/// Joins identifier and secret with a colon.
pub fn credential_pair(conf: &ArchifyConf) -> (pair: String)
    ensures
        pair@ == credential_pair_of(conf@),
{
    let mut pair = conf.archify_id.clone();
    pair.append(":");
    pair.append(conf.archify_secret.as_str());
    pair
}

/// Makes the value of a basic authorization header out of the encoded
/// credentials: `Basic`, a space, and the encoded text.
pub fn basic_header(encoded: &str) -> (value: String)
    ensures
        value@ == "Basic "@ + encoded@,
{
    let mut value = owned("Basic ");
    value.append(encoded);
    value
}

/// The value of the header by which the application presents its
/// credentials to ask for a token.
pub open spec fn basic_authorization_value(conf: ArchifyConfView) -> Seq<char> {
    "Basic "@ + base64_standard(encode_utf8(credential_pair_of(conf)))
}

/// Whether the credentials are short enough for the encoder: their bytes
/// are no more than half of what can be addressed.
pub open spec fn encodable(conf: ArchifyConfView) -> bool {
    encode_utf8(credential_pair_of(conf)).len() <= usize::MAX / 2
}

/// Makes the value of the header by which the application presents its
/// credentials: `Basic`, a space, and the base64 text of identifier, colon
/// and secret. There is none where the credentials are too long to encode.
pub fn basic_authorization(conf: &ArchifyConf) -> (value: Option<String>)
    ensures
        match value {
            Some(value) => encodable(conf@) && value@ == basic_authorization_value(conf@),
            None => !encodable(conf@),
        },
{
    let pair = credential_pair(conf);
    let bytes = pair.as_str().as_bytes();
    if bytes.len() > usize::MAX / 2 {
        return None;
    }
    let encoded = encode_base64(bytes);
    Some(basic_header(encoded.as_str()))
}

/// The cache of the application's credential: at most one token, that of the
/// application it was issued to.
pub struct TokenCache {
    token: Option<Token>,
}

impl View for TokenCache {
    type V = Option<TokenView>;

    closed spec fn view(&self) -> Option<TokenView> {
        match self.token {
            Some(token) => Some(token@),
            None => None,
        }
    }
}

/// The token that `cache` holds for the application `client_id`.
pub open spec fn cached_for(cache: Option<TokenView>, client_id: Seq<char>) -> Option<TokenView> {
    match cache {
        Some(token) => if token.client_id == client_id {
            Some(token)
        } else {
            None
        },
        None => None,
    }
}

/// The token that `cache` holds for the application `client_id` and that is
/// still good at time `now`.
pub open spec fn usable_at(cache: Option<TokenView>, client_id: Seq<char>, now: u64) -> Option<
    TokenView,
> {
    match cached_for(cache, client_id) {
        Some(token) => if token.is_expired(now) {
            None
        } else {
            Some(token)
        },
        None => None,
    }
}

impl TokenCache {
    /// A cache that holds no token.
    pub fn new() -> (cache: TokenCache)
        ensures
            cache@ is None,
    {
        TokenCache { token: None }
    }

    /// The cached token, if there is one and it was issued to `client_id`.
    pub fn get(&self, client_id: &str) -> (found: Option<&Token>)
        ensures
            match found {
                Some(token) => Some(token@) == cached_for(self@, client_id@),
                None => cached_for(self@, client_id@) is None,
            },
    {
        match &self.token {
            Some(token) => {
                if same_text(token.client_id.as_str(), client_id) {
                    Some(token)
                } else {
                    None
                }
            },
            None => None,
        }
    }

    /// The cached token of `client_id` if it is still good at time `now`.
    /// `None` tells the caller to ask the provider for a new token and to
    /// put it into the cache with [`replace`](TokenCache::replace).
    pub fn usable(&self, client_id: &str, now: u64) -> (found: Option<&Token>)
        ensures
            match found {
                Some(token) => Some(token@) == usable_at(self@, client_id@, now),
                None => usable_at(self@, client_id@, now) is None,
            },
    {
        match self.get(client_id) {
            Some(token) => {
                if token.is_expired(now) {
                    None
                } else {
                    Some(token)
                }
            },
            None => None,
        }
    }

    /// Puts `token` in the place of whatever the cache held.
    pub fn replace(&mut self, token: Token)
        ensures
            final(self)@ == Some(token@),
    {
        self.token = Some(token);
    }
}

} // verus!
