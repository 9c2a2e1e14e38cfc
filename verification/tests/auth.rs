use spinploy::auth::{
    basic_payload, classify_reply, extract_api_key, key_from_decoded, password_of, ApiKeyError,
    AuthCache, AuthDecision, AuthVerdict, ValidationReply,
};

#[test]
fn the_key_header_is_taken_as_it_is() {
    assert_eq!(extract_api_key(Some("secret"), None), Ok("secret".to_string()));
    assert_eq!(
        extract_api_key(Some("secret"), Some("Basic dXNlcjpvdGhlcg==")),
        Ok("secret".to_string())
    );
    assert_eq!(extract_api_key(Some(""), Some("Basic dXNlcjpvdGhlcg==")), Ok("".to_string()));
}

#[test]
fn the_password_of_basic_auth_is_the_key() {
    // "user:secret"
    assert_eq!(extract_api_key(None, Some("Basic dXNlcjpzZWNyZXQ=")), Ok("secret".to_string()));
    assert_eq!(extract_api_key(None, Some("basic dXNlcjpzZWNyZXQ=")), Ok("secret".to_string()));
    assert_eq!(
        extract_api_key(None, Some("  Basic dXNlcjpzZWNyZXQ=\t")),
        Ok("secret".to_string())
    );
    // ":secret"
    assert_eq!(extract_api_key(None, Some("Basic OnNlY3JldA==")), Ok("secret".to_string()));
    // "user:a:b"
    assert_eq!(extract_api_key(None, Some("Basic dXNlcjphOmI=")), Ok("a:b".to_string()));
}

#[test]
fn a_request_without_a_key_is_turned_away() {
    assert_eq!(extract_api_key(None, None), Err(ApiKeyError::Missing));
    assert_eq!(extract_api_key(None, Some("")), Err(ApiKeyError::Missing));
    assert_eq!(extract_api_key(None, Some("Bearer abc")), Err(ApiKeyError::Missing));
    assert_eq!(extract_api_key(None, Some("BASIC dXNlcjpzZWNyZXQ=")), Err(ApiKeyError::Missing));
    // not base64
    assert_eq!(extract_api_key(None, Some("Basic !!!")), Err(ApiKeyError::Missing));
    // padding left out
    assert_eq!(extract_api_key(None, Some("Basic dXNlcjpzZWNyZXQ")), Err(ApiKeyError::Missing));
    // "user:" and "user"
    assert_eq!(extract_api_key(None, Some("Basic dXNlcjo=")), Err(ApiKeyError::Missing));
    assert_eq!(extract_api_key(None, Some("Basic dXNlcg==")), Err(ApiKeyError::Missing));
    // bytes that are no text: ff 3a 61
    assert_eq!(extract_api_key(None, Some("Basic /zph")), Err(ApiKeyError::Missing));
}

#[test]
fn the_missing_key_has_a_message() {
    assert_eq!(ApiKeyError::Missing.message(), "missing x-api-key or Basic auth password");
}

#[test]
fn basic_payload_is_what_follows_the_scheme() {
    assert_eq!(basic_payload("Basic abc"), Some("abc".to_string()));
    assert_eq!(basic_payload("basic abc"), Some("abc".to_string()));
    assert_eq!(basic_payload(" Basic abc "), Some("abc".to_string()));
    assert_eq!(basic_payload("Basic  abc"), Some(" abc".to_string()));
    assert_eq!(basic_payload("Basic"), None);
    assert_eq!(basic_payload("Basicabc"), None);
    assert_eq!(basic_payload("Digest abc"), None);
}

#[test]
fn the_password_follows_the_first_colon() {
    assert_eq!(password_of("user:pw"), Some("pw".to_string()));
    assert_eq!(password_of(":pw"), Some("pw".to_string()));
    assert_eq!(password_of("a:b:c"), Some("b:c".to_string()));
    assert_eq!(password_of("a::"), Some(":".to_string()));
    assert_eq!(password_of("user:"), None);
    assert_eq!(password_of("user"), None);
    assert_eq!(password_of(""), None);
}

#[test]
fn decoded_credentials_must_be_text() {
    assert_eq!(key_from_decoded(Some("u:p".as_bytes().to_vec())), Some("p".to_string()));
    assert_eq!(key_from_decoded(Some("u:\u{e9}".as_bytes().to_vec())), Some("\u{e9}".to_string()));
    assert_eq!(key_from_decoded(Some(vec![0xff, 0x3a, 0x61])), None);
    assert_eq!(key_from_decoded(Some(vec![])), None);
    assert_eq!(key_from_decoded(None), None);
}

#[test]
fn a_new_cache_remembers_nothing() {
    let cache = AuthCache::new(300, 30, 4);
    assert_eq!(cache.len(), 0);
    assert_eq!(cache.get("k", 0), None);
}

#[test]
fn a_valid_decision_lives_until_its_ttl_is_over() {
    let mut cache = AuthCache::new(300, 30, 4);
    cache.insert("k", AuthDecision::Valid, 1000);
    assert_eq!(cache.get("k", 1000), Some(AuthDecision::Valid));
    assert_eq!(cache.get("k", 1299), Some(AuthDecision::Valid));
    assert_eq!(cache.get("k", 1300), None);
    assert_eq!(cache.get("k", 1301), None);
    assert_eq!(cache.get("k", u64::MAX), None);
    assert_eq!(cache.get("other", 1000), None);
}

#[test]
fn an_invalid_decision_lives_for_the_shorter_ttl() {
    let mut cache = AuthCache::new(300, 30, 4);
    cache.insert("k", AuthDecision::Invalid, 1000);
    assert_eq!(cache.get("k", 1029), Some(AuthDecision::Invalid));
    assert_eq!(cache.get("k", 1030), None);
}

#[test]
fn an_expired_decision_stays_until_it_is_replaced() {
    let mut cache = AuthCache::new(10, 5, 4);
    cache.insert("k", AuthDecision::Valid, 0);
    assert_eq!(cache.get("k", 10), None);
    assert_eq!(cache.len(), 1);
    cache.insert("k", AuthDecision::Invalid, 20);
    assert_eq!(cache.len(), 1);
    assert_eq!(cache.get("k", 24), Some(AuthDecision::Invalid));
    assert_eq!(cache.get("k", 25), None);
}

#[test]
fn a_ttl_past_the_end_of_time_does_not_wrap() {
    let mut cache = AuthCache::new(u64::MAX, 30, 4);
    cache.insert("k", AuthDecision::Valid, u64::MAX);
    assert_eq!(cache.get("k", u64::MAX), Some(AuthDecision::Valid));
    assert_eq!(cache.get("k", 0), Some(AuthDecision::Valid));
}

#[test]
fn a_ttl_of_zero_remembers_nothing() {
    let mut cache = AuthCache::new(0, 0, 4);
    cache.insert("k", AuthDecision::Valid, 7);
    assert_eq!(cache.get("k", 7), None);
    assert_eq!(cache.get("k", 6), Some(AuthDecision::Valid));
}

#[test]
fn a_full_cache_is_cleared_for_a_newcomer() {
    let mut cache = AuthCache::new(300, 30, 3);
    cache.insert("a", AuthDecision::Valid, 0);
    cache.insert("b", AuthDecision::Invalid, 0);
    cache.insert("c", AuthDecision::Valid, 0);
    assert_eq!(cache.len(), 3);
    assert_eq!(cache.get("a", 1), Some(AuthDecision::Valid));
    cache.insert("d", AuthDecision::Valid, 1);
    assert_eq!(cache.len(), 1);
    assert_eq!(cache.get("a", 1), None);
    assert_eq!(cache.get("b", 1), None);
    assert_eq!(cache.get("c", 1), None);
    assert_eq!(cache.get("d", 1), Some(AuthDecision::Valid));
}

#[test]
fn a_full_cache_is_cleared_even_for_a_key_it_holds() {
    let mut cache = AuthCache::new(300, 30, 2);
    cache.insert("a", AuthDecision::Valid, 0);
    cache.insert("b", AuthDecision::Valid, 0);
    cache.insert("a", AuthDecision::Invalid, 5);
    assert_eq!(cache.len(), 1);
    assert_eq!(cache.get("a", 6), Some(AuthDecision::Invalid));
    assert_eq!(cache.get("b", 6), None);
}

#[test]
fn a_cache_with_room_keeps_the_others() {
    let mut cache = AuthCache::new(300, 30, 3);
    cache.insert("a", AuthDecision::Valid, 0);
    cache.insert("b", AuthDecision::Invalid, 0);
    cache.insert("a", AuthDecision::Invalid, 10);
    assert_eq!(cache.len(), 2);
    assert_eq!(cache.get("a", 11), Some(AuthDecision::Invalid));
    assert_eq!(cache.get("b", 11), Some(AuthDecision::Invalid));
    assert_eq!(cache.get("a", 40), None);
}

#[test]
fn a_cache_of_no_capacity_holds_the_last_decision_only() {
    let mut cache = AuthCache::new(300, 30, 0);
    cache.insert("a", AuthDecision::Valid, 0);
    assert_eq!(cache.get("a", 1), Some(AuthDecision::Valid));
    cache.insert("b", AuthDecision::Valid, 0);
    assert_eq!(cache.len(), 1);
    assert_eq!(cache.get("a", 1), None);
    assert_eq!(cache.get("b", 1), Some(AuthDecision::Valid));
}

#[test]
fn replies_are_classified() {
    assert_eq!(classify_reply(ValidationReply::Success), Some(AuthDecision::Valid));
    assert_eq!(classify_reply(ValidationReply::Status(401)), Some(AuthDecision::Invalid));
    assert_eq!(classify_reply(ValidationReply::Status(403)), Some(AuthDecision::Invalid));
    assert_eq!(classify_reply(ValidationReply::Status(400)), None);
    assert_eq!(classify_reply(ValidationReply::Status(404)), None);
    assert_eq!(classify_reply(ValidationReply::Status(500)), None);
    assert_eq!(classify_reply(ValidationReply::Status(503)), None);
    assert_eq!(classify_reply(ValidationReply::NoAnswer), None);
}

#[test]
fn an_acceptance_is_remembered() {
    let mut cache = AuthCache::new(300, 30, 4);
    assert_eq!(cache.record("k", ValidationReply::Success, 100), AuthVerdict::Authorized);
    assert_eq!(cache.get("k", 399), Some(AuthDecision::Valid));
    assert_eq!(cache.get("k", 400), None);
}

#[test]
fn a_rejection_is_remembered_for_a_shorter_while() {
    let mut cache = AuthCache::new(300, 30, 4);
    assert_eq!(cache.record("k", ValidationReply::Status(401), 100), AuthVerdict::Unauthorized);
    assert_eq!(cache.get("k", 129), Some(AuthDecision::Invalid));
    assert_eq!(cache.get("k", 130), None);
    assert_eq!(cache.record("j", ValidationReply::Status(403), 100), AuthVerdict::Unauthorized);
    assert_eq!(cache.get("j", 100), Some(AuthDecision::Invalid));
}

#[test]
fn a_failure_to_validate_is_not_remembered() {
    let mut cache = AuthCache::new(300, 30, 1);
    cache.insert("a", AuthDecision::Valid, 0);
    assert_eq!(cache.record("k", ValidationReply::Status(500), 1), AuthVerdict::UnableToValidate);
    assert_eq!(cache.record("k", ValidationReply::NoAnswer, 1), AuthVerdict::UnableToValidate);
    assert_eq!(cache.get("k", 1), None);
    assert_eq!(cache.len(), 1);
    assert_eq!(cache.get("a", 1), Some(AuthDecision::Valid));
}

#[test]
fn verdicts_map_to_statuses() {
    assert_eq!(AuthVerdict::Authorized.status(), None);
    assert_eq!(AuthVerdict::Unauthorized.status(), Some(401));
    assert_eq!(AuthVerdict::UnableToValidate.status(), Some(503));
    assert_eq!(AuthVerdict::Unauthorized.message(), "invalid api key");
    assert_eq!(AuthVerdict::UnableToValidate.message(), "unable to validate api key");
    assert_eq!(AuthVerdict::Authorized.message(), "authorized");
    assert_eq!(ApiKeyError::Missing.status(), 400);
}

#[test]
fn a_lookup_answers_from_memory_or_not_at_all() {
    let mut cache = AuthCache::new(300, 30, 4);
    assert_eq!(cache.lookup("k", 0), None);
    cache.insert("k", AuthDecision::Valid, 0);
    cache.insert("j", AuthDecision::Invalid, 0);
    assert_eq!(cache.lookup("k", 299), Some(AuthVerdict::Authorized));
    assert_eq!(cache.lookup("k", 300), None);
    assert_eq!(cache.lookup("j", 29), Some(AuthVerdict::Unauthorized));
    assert_eq!(cache.lookup("j", 30), None);
}
