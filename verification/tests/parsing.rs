use token_relay::credential::parse_token_response;

fn token_of(body: &str) -> Option<(String, u64)> {
    parse_token_response(body)
        .map(|r| (r.client_secret.value, r.client_secret.expires_at))
}

#[test]
fn parses_the_minimal_shape() {
    assert_eq!(
        token_of("{\"client_secret\":{\"value\":\"abc\",\"expires_at\":4102444800}}"),
        Some(("abc".to_string(), 4102444800))
    );
}

#[test]
fn tolerates_whitespace_and_member_order() {
    let body = " \t\r\n{ \"client_secret\" : { \"expires_at\" : 99 , \"value\" : \"t\" } } \n";
    assert_eq!(token_of(body), Some(("t".to_string(), 99)));
}

#[test]
fn ignores_extra_members_of_any_shape() {
    let body = "{\"id\":\"sess_1\",\"flags\":[1,2,{\"deep\":[true,null]}],\"client_secret\":{\"note\":{\"a\":false},\"value\":\"tok\",\"expires_at\":5,\"more\":-1.5e3},\"after\":\"x\"}";
    assert_eq!(token_of(body), Some(("tok".to_string(), 5)));
}

#[test]
fn decodes_string_escapes() {
    let body = "{\"client_secret\":{\"value\":\"a\\\"b\\\\c\\u0041\\n\\t\\u00e9\",\"expires_at\":1}}";
    assert_eq!(token_of(body), Some(("a\"b\\cA\n\t\u{e9}".to_string(), 1)));
}

#[test]
fn rejects_surrogate_unicode_escapes() {
    let body = "{\"client_secret\":{\"value\":\"\\ud800\",\"expires_at\":1}}";
    assert_eq!(token_of(body), None);
}

#[test]
fn rejects_missing_fields() {
    assert_eq!(token_of("{}"), None);
    assert_eq!(token_of("{\"client_secret\":{}}"), None);
    assert_eq!(token_of("{\"client_secret\":{\"value\":\"t\"}}"), None);
    assert_eq!(token_of("{\"client_secret\":{\"expires_at\":1}}"), None);
    assert_eq!(token_of("{\"other\":1}"), None);
}

#[test]
fn rejects_wrong_field_types() {
    assert_eq!(token_of("{\"client_secret\":{\"value\":5,\"expires_at\":1}}"), None);
    assert_eq!(
        token_of("{\"client_secret\":{\"value\":\"t\",\"expires_at\":\"1\"}}"),
        None
    );
    assert_eq!(
        token_of("{\"client_secret\":{\"value\":\"t\",\"expires_at\":1.5}}"),
        None
    );
    assert_eq!(
        token_of("{\"client_secret\":{\"value\":\"t\",\"expires_at\":-1}}"),
        None
    );
    assert_eq!(token_of("{\"client_secret\":[1]}"), None);
    assert_eq!(token_of("{\"client_secret\":\"t\"}"), None);
}

#[test]
fn rejects_malformed_json() {
    assert_eq!(token_of(""), None);
    assert_eq!(token_of("not json"), None);
    assert_eq!(token_of("{\"client_secret\":{\"value\":\"t\",\"expires_at\":1}}garbage"), None);
    assert_eq!(token_of("{\"client_secret\":{\"value\":\"t\",\"expires_at\":1}"), None);
    assert_eq!(token_of("{\"client_secret\":{\"value\":\"t\" \"expires_at\":1}}"), None);
    assert_eq!(token_of("{\"client_secret\":{\"value\":\"t\",\"expires_at\":1},}"), None);
    assert_eq!(token_of("[{\"client_secret\":{\"value\":\"t\",\"expires_at\":1}}]"), None);
}

#[test]
fn first_occurrence_of_a_recognized_key_wins() {
    let body = "{\"client_secret\":{\"value\":\"first\",\"value\":\"second\",\"expires_at\":1,\"expires_at\":2},\"client_secret\":{\"value\":\"third\",\"expires_at\":3}}";
    assert_eq!(token_of(body), Some(("first".to_string(), 1)));
}

#[test]
fn expiry_bounds_are_exact() {
    assert_eq!(
        token_of("{\"client_secret\":{\"value\":\"t\",\"expires_at\":18446744073709551615}}"),
        Some(("t".to_string(), u64::MAX))
    );
    assert_eq!(
        token_of("{\"client_secret\":{\"value\":\"t\",\"expires_at\":18446744073709551616}}"),
        None
    );
    assert_eq!(
        token_of("{\"client_secret\":{\"value\":\"t\",\"expires_at\":0}}"),
        Some(("t".to_string(), 0))
    );
}

#[test]
fn empty_token_string_is_accepted_as_opaque() {
    assert_eq!(
        token_of("{\"client_secret\":{\"value\":\"\",\"expires_at\":1}}"),
        Some(("".to_string(), 1))
    );
}
