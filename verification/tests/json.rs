use torbox_client::json::{
    extract_download_link, extract_torrent_id, JsonMember, JsonNumber, JsonValue, Numeral,
};

fn text(content: &str) -> JsonValue {
    JsonValue::Text(content.to_string())
}

fn number(value: u64) -> JsonValue {
    JsonValue::Number(JsonNumber::Unsigned(value))
}

fn numeral(text: &str) -> Numeral {
    Numeral::new(text.to_string()).unwrap()
}

fn object(members: Vec<(&str, JsonValue)>) -> JsonValue {
    JsonValue::Object(
        members
            .into_iter()
            .map(|(key, value)| JsonMember { key: key.to_string(), value })
            .collect(),
    )
}

fn id(value: JsonValue) -> Option<String> {
    extract_torrent_id(&value)
}

fn link(value: JsonValue) -> Option<String> {
    extract_download_link(Some(&value))
}

#[test]
fn numbers_are_written_in_decimal() {
    assert_eq!(JsonNumber::Unsigned(0).to_text(), "0");
    assert_eq!(JsonNumber::Unsigned(u64::MAX).to_text(), "18446744073709551615");
    assert_eq!(JsonNumber::Signed(-7).to_text(), "-7");
    assert_eq!(JsonNumber::Signed(i64::MIN).to_text(), "-9223372036854775808");
    assert_eq!(JsonNumber::Signed(12).to_text(), "12");
    assert_eq!(JsonNumber::Decimal(numeral("1.5")).to_text(), "1.5");
}

#[test]
fn plain_id_is_taken_as_it_is() {
    assert_eq!(id(text(" 12 ")), Some(" 12 ".to_string()));
    assert_eq!(id(number(12)), Some("12".to_string()));
    assert_eq!(id(JsonValue::Number(JsonNumber::Signed(-3))), Some("-3".to_string()));
    assert_eq!(id(JsonValue::Number(JsonNumber::Decimal(numeral("0.5")))), Some("0.5".to_string()));
}

#[test]
fn nothing_is_found_where_there_is_nothing() {
    assert_eq!(id(JsonValue::Null), None);
    assert_eq!(id(JsonValue::Bool(true)), None);
    assert_eq!(id(text(" \n")), None);
    assert_eq!(id(JsonValue::Array(vec![])), None);
    assert_eq!(id(object(vec![("torrent_id", text("")), ("x", JsonValue::Null)])), None);
    assert_eq!(link(JsonValue::Null), None);
    assert_eq!(link(number(5)), None);
    assert_eq!(extract_download_link(None), None);
}

#[test]
fn preferred_keys_decide_in_their_order() {
    let data = object(vec![
        ("aaa", number(1)),
        ("id", number(2)),
        ("torrentID", number(3)),
        ("torrentId", number(4)),
        ("torrent_id", number(5)),
    ]);
    assert_eq!(id(data), Some("5".to_string()));
    let data = object(vec![("aaa", number(1)), ("id", number(2)), ("torrentID", number(3))]);
    assert_eq!(id(data), Some("2".to_string()));
    let data = object(vec![("torrent_id", text(" ")), ("id", JsonValue::Null), ("torrentID", number(3))]);
    assert_eq!(id(data), Some("3".to_string()));
}

#[test]
fn other_members_come_in_their_order() {
    let data = object(vec![("a", JsonValue::Null), ("b", text("first")), ("c", text("second"))]);
    assert_eq!(id(data), Some("first".to_string()));
}

#[test]
fn search_goes_as_deep_as_it_must() {
    let inner = object(vec![("detail", JsonValue::Bool(false)), ("torrent_id", number(77))]);
    let data = JsonValue::Array(vec![JsonValue::Null, JsonValue::Array(vec![inner]), number(1)]);
    assert_eq!(id(data), Some("77".to_string()));
}

#[test]
fn links_are_text_under_their_own_keys() {
    let data = object(vec![
        ("aaa", text("no")),
        ("data", text("five")),
        ("url", text("four")),
        ("link", text("three")),
        ("downloadLink", text("two")),
        ("download_link", text("one")),
    ]);
    assert_eq!(link(data), Some("one".to_string()));
    let data = object(vec![("aaa", text("no")), ("data", text("five")), ("url", number(4))]);
    assert_eq!(link(data), Some("five".to_string()));
    let data = object(vec![("id", number(9)), ("name", text("file"))]);
    assert_eq!(link(data), Some("file".to_string()));
    let data = JsonValue::Array(vec![number(1), text(""), text("https://x")]);
    assert_eq!(link(data), Some("https://x".to_string()));
}

#[test]
fn numerals_are_not_blank() {
    assert!(Numeral::new(" \t".to_string()).is_none());
    assert!(Numeral::new(String::new()).is_none());
    assert_eq!(numeral("-1e-7").to_text(), "-1e-7");
}
