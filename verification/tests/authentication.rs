use archify::authentication::{
    basic_authorization, basic_header, credential_pair, AppToken, Token, TokenCache,
};
use archify::conf::ArchifyConf;

fn token(client_id: &str, received_at: u64, expires_in: u64) -> Token {
    Token {
        token: AppToken {
            access_token: "NgCXRK...MzYjw".to_string(),
            expires_in,
            token_type: "Bearer".to_string(),
        },
        received_at,
        client_id: client_id.to_string(),
    }
}

#[test]
fn basic_authorization_encodes_id_and_secret() {
    let conf = ArchifyConf {
        archify_id: "Aladdin".to_string(),
        archify_secret: "open sesame".to_string(),
    };
    assert_eq!(
        basic_authorization(&conf),
        Some("Basic QWxhZGRpbjpvcGVuIHNlc2FtZQ==".to_string())
    );
    let conf = ArchifyConf { archify_id: "id".to_string(), archify_secret: "secret".to_string() };
    assert_eq!(basic_authorization(&conf), Some("Basic aWQ6c2VjcmV0".to_string()));
    let conf = ArchifyConf { archify_id: String::new(), archify_secret: String::new() };
    assert_eq!(basic_authorization(&conf), Some("Basic Og==".to_string()));
}

#[test]
fn authorization_is_kind_space_credential() {
    assert_eq!(token("app", 0, 3600).authorization(), "Bearer NgCXRK...MzYjw");
}

#[test]
fn token_expires_when_its_time_to_live_has_passed() {
    let issued = token("app", 1000, 3600);
    assert!(!issued.is_expired(0));
    assert!(!issued.is_expired(1000));
    assert!(!issued.is_expired(4599));
    assert!(issued.is_expired(4600));
    assert!(issued.is_expired(u64::MAX));
    assert!(token("app", 1000, 0).is_expired(1000));
    // A life that ends beyond the range of the clock never ends.
    assert!(!token("app", u64::MAX, 1).is_expired(u64::MAX));
    assert!(!token("app", 1, u64::MAX).is_expired(u64::MAX));
    assert!(token("app", 0, u64::MAX).is_expired(u64::MAX));
}

#[test]
fn cache_holds_the_last_token_that_was_put_in() {
    let mut cache = TokenCache::new();
    assert_eq!(cache.get("app"), None);
    assert_eq!(cache.usable("app", 0), None);
    cache.replace(token("app", 1000, 3600));
    assert_eq!(cache.get("app"), Some(&token("app", 1000, 3600)));
    assert_eq!(cache.get("other"), None);
    cache.replace(token("app", 5000, 60));
    assert_eq!(cache.get("app"), Some(&token("app", 5000, 60)));
    cache.replace(token("other", 1, 1));
    assert_eq!(cache.get("app"), None);
    assert_eq!(cache.get("other"), Some(&token("other", 1, 1)));
}

#[test]
fn cache_gives_a_usable_token_until_it_expires() {
    let mut cache = TokenCache::new();
    cache.replace(token("app", 1000, 3600));
    assert_eq!(cache.usable("app", 2000), Some(&token("app", 1000, 3600)));
    assert_eq!(cache.usable("app", 4600), None);
    assert_eq!(cache.usable("other", 2000), None);
}

#[test]
fn credential_pair_joins_id_and_secret_with_a_colon() {
    let conf = ArchifyConf { archify_id: "id".to_string(), archify_secret: "se:cret".to_string() };
    assert_eq!(credential_pair(&conf), "id:se:cret");
    let conf = ArchifyConf { archify_id: String::new(), archify_secret: String::new() };
    assert_eq!(credential_pair(&conf), ":");
}

#[test]
fn basic_header_puts_the_scheme_before_the_encoded_text() {
    assert_eq!(basic_header("aWQ6c2VjcmV0"), "Basic aWQ6c2VjcmV0");
    assert_eq!(basic_header(""), "Basic ");
}
