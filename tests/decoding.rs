use repo_list::decimal::parse_unsigned;
use repo_list::decode::{decode_repositories, decode_user, repo_from_json, repositories_from_json, user_from_json};
use repo_list::model::Error;

#[test]
fn missing_name_is_invalid_response() {
    let body = r#"[{"name":"a","description":null,"stargazers_count":1},{"description":"d","stargazers_count":2}]"#;
    assert_eq!(decode_repositories(body).err(), Some(Error::InvalidResponse));
}

#[test]
fn absent_description_decodes_to_none() {
    let body = r#"[{"name":"a","stargazers_count":3},{"name":"b","description":null,"stargazers_count":4},{"name":"c","description":"text","stargazers_count":5}]"#;
    let repos = decode_repositories(body).unwrap();
    assert_eq!(repos.len(), 3);
    assert_eq!(repos[0].name, "a");
    assert_eq!(repos[0].description, None);
    assert_eq!(repos[0].stargazers_count, 3);
    assert_eq!(repos[1].description, None);
    assert_eq!(repos[2].description, Some("text".to_string()));
    assert_eq!(repos[2].stargazers_count, 5);
}

#[test]
fn extra_members_are_ignored() {
    let body = r#"[{"id":7,"name":"a","owner":{"login":"o"},"stargazers_count":0,"fork":false}]"#;
    let repos = decode_repositories(body).unwrap();
    assert_eq!(repos.len(), 1);
    assert_eq!(repos[0].name, "a");
}

#[test]
fn listing_keeps_element_order() {
    let body = r#"[{"name":"first","stargazers_count":1},{"name":"second","stargazers_count":9}]"#;
    let repos = decode_repositories(body).unwrap();
    assert_eq!(repos[0].name, "first");
    assert_eq!(repos[1].name, "second");
}

#[test]
fn empty_listing_decodes() {
    assert_eq!(decode_repositories("[]").unwrap().len(), 0);
}

#[test]
fn malformed_listings_are_invalid() {
    let bad = [
        "",
        "not json",
        r#"{"message":"Not Found"}"#,
        r#"[{"name":"a","stargazers_count":65536}]"#,
        r#"[{"name":"a","stargazers_count":-1}]"#,
        r#"[{"name":"a","stargazers_count":1.5}]"#,
        r#"[{"name":"a"}]"#,
        r#"[{"name":3,"stargazers_count":1}]"#,
        r#"[{"name":"a","description":5,"stargazers_count":1}]"#,
        r#"[1]"#,
        r#"[{"name":"a","stargazers_count":1}"#,
    ];
    for body in bad.iter() {
        assert_eq!(decode_repositories(body).err(), Some(Error::InvalidResponse), "{}", body);
    }
}

#[test]
fn largest_star_count_decodes() {
    let repos = decode_repositories(r#"[{"name":"a","stargazers_count":65535}]"#).unwrap();
    assert_eq!(repos[0].stargazers_count, 65535);
}

#[test]
fn decode_from_parsed_value() {
    let v: serde_json::Value =
        serde_json::from_str(r#"[{"name":"n","description":"d","stargazers_count":12}]"#).unwrap();
    let repos = repositories_from_json(&v).unwrap();
    assert_eq!(repos[0].name, "n");
    assert_eq!(repos[0].description, Some("d".to_string()));
    assert_eq!(repos[0].stargazers_count, 12);
    let one: serde_json::Value = serde_json::from_str(r#"{"name":"m","stargazers_count":2}"#).unwrap();
    assert_eq!(repo_from_json(&one).unwrap().name, "m");
    let not_object: serde_json::Value = serde_json::from_str("null").unwrap();
    assert!(repo_from_json(&not_object).is_none());
}

#[test]
fn profile_decodes() {
    let body = r#"{"login":"octocat","id":1,"avatar_url":"https://avatars.example/u/1"}"#;
    let user = decode_user(body).unwrap();
    assert_eq!(user.login, "octocat");
    assert_eq!(user.avatar_url, "https://avatars.example/u/1");
    let v: serde_json::Value = serde_json::from_str(body).unwrap();
    assert_eq!(user_from_json(&v).unwrap().login, "octocat");
}

#[test]
fn profile_without_avatar_is_invalid() {
    assert_eq!(decode_user(r#"{"login":"octocat"}"#).err(), Some(Error::InvalidResponse));
    assert_eq!(decode_user(r#"{"login":"o","avatar_url":null}"#).err(), Some(Error::InvalidResponse));
    assert_eq!(decode_user("[]").err(), Some(Error::InvalidResponse));
    assert_eq!(decode_user("{").err(), Some(Error::InvalidResponse));
}

#[test]
fn unsigned_numbers_parse() {
    assert_eq!(parse_unsigned("42", 65535), Some(42));
    assert_eq!(parse_unsigned("+7", 65535), Some(7));
    assert_eq!(parse_unsigned("0", 0), Some(0));
    assert_eq!(parse_unsigned("65535", 65535), Some(65535));
    assert_eq!(parse_unsigned("18446744073709551615", u64::MAX), Some(u64::MAX));
}

#[test]
fn malformed_numbers_are_rejected() {
    assert_eq!(parse_unsigned("65536", 65535), None);
    assert_eq!(parse_unsigned("18446744073709551616", u64::MAX), None);
    assert_eq!(parse_unsigned("", 10), None);
    assert_eq!(parse_unsigned("+", 10), None);
    assert_eq!(parse_unsigned("-1", 10), None);
    assert_eq!(parse_unsigned("4a", 100), None);
    assert_eq!(parse_unsigned(" 1", 10), None);
    assert_eq!(parse_unsigned("99999999999999999999x", u64::MAX), None);
}
