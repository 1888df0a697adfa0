use check_for_license::models::{AccessTokenResponse, Config};

#[test]
fn access_token_from_json() {
    let s = r#"{"access_token":"a","token_type":"b","expires_in":1,"scope":"c"}"#;
    let a: AccessTokenResponse = AccessTokenResponse::from_json(s).unwrap();

    assert_eq!(a.token, "a");
    assert_eq!(a.token_type, "b");
    assert_eq!(a.expires_in, 1);
    assert_eq!(a.scope, "c");
}

#[test]
fn access_token_with_missing_field_is_rejected() {
    let s = r#"{"access_token":"a","token_type":"b","scope":"c"}"#;
    assert!(AccessTokenResponse::from_json(s).is_none());
    assert!(AccessTokenResponse::from_json("not json").is_none());
}

#[test]
fn config_holds_plain_fields() {
    let c = Config {
        username: "a".to_owned(),
        password: "b".to_owned(),
        user_agent: "c".to_owned(),
        client_id: "d".to_owned(),
        client_secret: "e".to_owned(),
        github_username: "f".to_owned(),
    };
    let d = c.clone();
    assert_eq!(d.username, "a");
    assert_eq!(d.github_username, "f");
}
