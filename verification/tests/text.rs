use wechat_client::text::chars_of;
use wechat_client::text::matches_at;
use wechat_client::text::str_contains;
use wechat_client::text::str_ends_with;

#[test]
fn chars_of_lists_the_characters() {
    assert_eq!(chars_of(""), Vec::<char>::new());
    assert_eq!(chars_of("a小b"), vec!['a', '小', 'b']);
}

#[test]
fn matches_at_compares_in_place() {
    let text = chars_of("12345@chatroom");
    let pattern = chars_of("@chat");
    assert!(matches_at(&text, &pattern, 5));
    assert!(!matches_at(&text, &pattern, 4));
    assert!(matches_at(&text, &Vec::new(), 14));
}

#[test]
fn contains_finds_a_run_anywhere() {
    assert!(str_contains("12345@chatroom", "chatroom"));
    assert!(str_contains("gh_chatroom_helper", "chatroom"));
    assert!(str_contains("chatroom", "chatroom"));
    assert!(str_contains("operation succsessed, id=7", "succsessed"));
    assert!(!str_contains("operation failed", "succsessed"));
    assert!(!str_contains("operation successed", "succsessed"));
    assert!(!str_contains("wxid_abc", "chatroom"));
    assert!(!str_contains("chatroo", "chatroom"));
    assert!(!str_contains("", "chatroom"));
    assert!(!str_contains("chat room", "chatroom"));
}

#[test]
fn contains_finds_the_empty_text_everywhere() {
    assert!(str_contains("", ""));
    assert!(str_contains("abc", ""));
}

#[test]
fn contains_counts_characters_not_bytes() {
    assert!(str_contains("小9菜chatroom", "chatroom"));
    assert!(str_contains("小9菜", "9菜"));
    assert!(!str_contains("小9菜", "菜9"));
}

#[test]
fn ends_with_looks_at_the_end_only() {
    assert!(str_ends_with("12345@chatroom", "@chatroom"));
    assert!(str_ends_with("@chatroom", "@chatroom"));
    assert!(!str_ends_with("gh_chatroom_helper", "@chatroom"));
    assert!(!str_ends_with("12345@chatroom ", "@chatroom"));
    assert!(!str_ends_with("chatroom", "@chatroom"));
    assert!(!str_ends_with("", "@chatroom"));
    assert!(str_ends_with("abc", ""));
    assert!(str_ends_with("", ""));
}
