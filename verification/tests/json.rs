use wechat_client::json::Json;

fn text(s: &str) -> Json {
    Json::Text(s.to_string())
}

#[test]
fn parse_reads_scalars() {
    assert_eq!(Json::parse("null"), Some(Json::Null));
    assert_eq!(Json::parse("true"), Some(Json::Bool(true)));
    assert_eq!(Json::parse("false"), Some(Json::Bool(false)));
    assert_eq!(Json::parse("0"), Some(Json::Unsigned(0)));
    assert_eq!(Json::parse("5010"), Some(Json::Unsigned(5010)));
    assert_eq!(Json::parse("18446744073709551615"), Some(Json::Unsigned(u64::MAX)));
    assert_eq!(Json::parse("-1"), Some(Json::Signed(-1)));
    assert_eq!(Json::parse("-9223372036854775808"), Some(Json::Signed(i64::MIN)));
    assert_eq!(Json::parse("\"hello\""), Some(text("hello")));
    assert_eq!(Json::parse("  \"\"  "), Some(text("")));
}

#[test]
fn parse_reads_numbers_that_are_no_integers_as_their_text() {
    assert_eq!(Json::parse("1.5"), Some(Json::Real("1.5".to_string())));
    assert_eq!(Json::parse("1.50"), Some(Json::Real("1.5".to_string())));
    assert_eq!(Json::parse("-0.25"), Some(Json::Real("-0.25".to_string())));
    assert_eq!(Json::parse("1.0"), Some(Json::Real("1.0".to_string())));
}

#[test]
fn parse_reads_escapes_in_strings() {
    assert_eq!(Json::parse(r#""a\"b\\c\n""#), Some(text("a\"b\\c\n")));
    assert_eq!(Json::parse(r#""小9菜""#), Some(text("小9菜")));
}

#[test]
fn parse_reads_arrays_in_order() {
    assert_eq!(
        Json::parse(r#"[1, "two", [3], null]"#),
        Some(Json::Array(vec![
            Json::Unsigned(1),
            text("two"),
            Json::Array(vec![Json::Unsigned(3)]),
            Json::Null,
        ]))
    );
    assert_eq!(Json::parse("[]"), Some(Json::Array(vec![])));
}

#[test]
fn parse_reads_objects_member_by_member() {
    let doc = Json::parse(r#"{"b": {"c": [true]}, "a": 7}"#).unwrap();
    assert_eq!(doc.get("a"), Some(&Json::Unsigned(7)));
    assert_eq!(
        doc.get("b").and_then(|b| b.get("c")),
        Some(&Json::Array(vec![Json::Bool(true)]))
    );
    assert_eq!(doc.get("c"), None);
    assert_eq!(Json::parse("{}"), Some(Json::Object(vec![])));
}

#[test]
fn parse_keeps_one_member_for_a_key_written_twice() {
    let doc = Json::parse(r#"{"a": 1, "a": 2}"#).unwrap();
    assert_eq!(doc, Json::Object(vec![("a".to_string(), Json::Unsigned(2))]));
}

#[test]
fn parse_refuses_what_is_not_json() {
    assert_eq!(Json::parse(""), None);
    assert_eq!(Json::parse("not-json-at-all"), None);
    assert_eq!(Json::parse("{"), None);
    assert_eq!(Json::parse("{\"a\": }"), None);
    assert_eq!(Json::parse("[1, 2,]"), None);
    assert_eq!(Json::parse("1 2"), None);
    assert_eq!(Json::parse("pong"), None);
}

#[test]
fn get_finds_the_first_entry_with_the_key() {
    let doc = Json::Object(vec![
        ("a".to_string(), Json::Unsigned(1)),
        ("b".to_string(), Json::Unsigned(2)),
        ("a".to_string(), Json::Unsigned(3)),
    ]);
    assert_eq!(doc.get("a"), Some(&Json::Unsigned(1)));
    assert_eq!(doc.get("b"), Some(&Json::Unsigned(2)));
    assert_eq!(doc.get(""), None);
    assert_eq!(doc.get("A"), None);
}

#[test]
fn get_finds_nothing_in_what_is_no_object() {
    assert_eq!(Json::Null.get("a"), None);
    assert_eq!(text("a").get("a"), None);
    assert_eq!(Json::Array(vec![text("a")]).get("a"), None);
    assert_eq!(Json::Object(vec![]).get("a"), None);
}

#[test]
fn render_writes_compact_text() {
    assert_eq!(Json::Null.render(), Some("null".to_string()));
    assert_eq!(Json::Bool(true).render(), Some("true".to_string()));
    assert_eq!(Json::Unsigned(u64::MAX).render(), Some("18446744073709551615".to_string()));
    assert_eq!(Json::Signed(-42).render(), Some("-42".to_string()));
    assert_eq!(Json::Signed(42).render(), Some("42".to_string()));
    assert_eq!(text("a\"b").render(), Some(r#""a\"b""#.to_string()));
    assert_eq!(
        Json::Array(vec![Json::Unsigned(1), Json::Null, text("x")]).render(),
        Some(r#"[1,null,"x"]"#.to_string())
    );
}

#[test]
fn render_writes_members_by_key() {
    let doc = Json::Object(vec![
        ("b".to_string(), Json::Unsigned(2)),
        ("a".to_string(), Json::Object(vec![("z".to_string(), Json::Null)])),
    ]);
    assert_eq!(doc.render(), Some(r#"{"a":{"z":null},"b":2}"#.to_string()));
}

#[test]
fn render_writes_the_first_entry_of_a_key() {
    let doc = Json::Object(vec![
        ("a".to_string(), Json::Unsigned(1)),
        ("a".to_string(), Json::Unsigned(2)),
    ]);
    assert_eq!(doc.render(), Some(r#"{"a":1}"#.to_string()));
}

#[test]
fn render_passes_over_an_entry_that_does_not_count() {
    let doc = Json::Object(vec![
        ("a".to_string(), Json::Unsigned(1)),
        ("a".to_string(), Json::Real("no number".to_string())),
    ]);
    assert_eq!(doc.render(), Some(r#"{"a":1}"#.to_string()));
}

#[test]
fn render_writes_a_real_from_its_text() {
    assert_eq!(Json::Real("1.5".to_string()).render(), Some("1.5".to_string()));
    assert_eq!(
        Json::Array(vec![Json::Real("-0.25".to_string())]).render(),
        Some("[-0.25]".to_string())
    );
}

#[test]
fn render_refuses_a_real_whose_text_is_not_its_number() {
    assert_eq!(Json::Real("1.50".to_string()).render(), None);
    assert_eq!(Json::Real("12".to_string()).render(), None);
    assert_eq!(Json::Real("abc".to_string()).render(), None);
    assert_eq!(Json::Real("".to_string()).render(), None);
    assert_eq!(Json::Real("\"1.5\"".to_string()).render(), None);
    assert_eq!(Json::Array(vec![Json::Null, Json::Real("x".to_string())]).render(), None);
    assert_eq!(
        Json::Object(vec![("k".to_string(), Json::Real("x".to_string()))]).render(),
        None
    );
}

#[test]
fn parse_reads_back_what_render_wrote() {
    let doc = Json::Object(vec![
        ("list".to_string(), Json::Array(vec![Json::Signed(-3), Json::Real("2.5".to_string())])),
        ("name".to_string(), text("小9菜 \"quoted\"")),
        ("none".to_string(), Json::Null),
        ("yes".to_string(), Json::Bool(true)),
    ]);
    let written = doc.render().unwrap();
    assert_eq!(Json::parse(&written), Some(doc));
}

#[test]
fn duplicate_copies_the_whole_document() {
    let doc = Json::parse(r#"{"a": [1, {"b": "c"}], "d": -2, "e": 0.5}"#).unwrap();
    assert_eq!(doc.duplicate(), doc);
}

#[test]
fn add_member_appends_an_entry() {
    let mut entries: Vec<(String, Json)> = Vec::new();
    Json::add_member(&mut entries, "a", Json::Unsigned(1));
    Json::add_member(&mut entries, "b", text("x"));
    assert_eq!(
        entries,
        vec![("a".to_string(), Json::Unsigned(1)), ("b".to_string(), text("x"))]
    );
}
