use twotter::feed_entry::{author_twott_parser, is_twott_member, twott_member};

#[test]
fn parser_splits_author_and_text() {
    let (author, text) = author_twott_parser(String::from("author:alice:twott:hello world"));
    assert_eq!(author, "alice");
    assert_eq!(text, "hello world");
}

#[test]
fn parser_parts_at_first_separator() {
    let (author, text) = author_twott_parser(String::from("author:bob:twott:a:twott:b"));
    assert_eq!(author, "bob");
    assert_eq!(text, "a:twott:b");
}

#[test]
fn parser_keeps_unicode() {
    let (author, text) = author_twott_parser(String::from("author:zoë:twott:héllo ☃"));
    assert_eq!(author, "zoë");
    assert_eq!(text, "héllo ☃");
}

#[test]
fn parser_cuts_seven_bytes_whatever_they_are() {
    // five ASCII bytes and a two-byte character make the seven bytes cut off
    let (author, text) = author_twott_parser(String::from("abcdeé:twott:x"));
    assert_eq!(author, "");
    assert_eq!(text, "x");
}

#[test]
fn parser_empty_text() {
    let (author, text) = author_twott_parser(String::from("author:carol:twott:"));
    assert_eq!(author, "carol");
    assert_eq!(text, "");
}

#[test]
fn member_check() {
    assert!(is_twott_member(&String::from("author:a:twott:b")));
    assert!(is_twott_member(&String::from("author::twott:")));
    assert!(!is_twott_member(&String::from("author:a:twot:b")));
    assert!(!is_twott_member(&String::from("author")));
    assert!(!is_twott_member(&String::from("")));
    // the seventh byte falls inside the three-byte euro sign
    assert!(!is_twott_member(&String::from("abcdef€:twott:x")));
}

#[test]
fn member_is_built_and_read_back() {
    let member = twott_member("dave", "first post: yay");
    assert_eq!(member, "author:dave:twott:first post: yay");
    assert!(is_twott_member(&member));
    let (author, text) = author_twott_parser(member);
    assert_eq!(author, "dave");
    assert_eq!(text, "first post: yay");
}

#[test]
fn member_read_back_differs_when_author_holds_separator() {
    let member = twott_member("x:twott", "y");
    let (author, text) = author_twott_parser(member);
    assert_eq!(author, "x");
    assert_eq!(text, "twott:y");
}
