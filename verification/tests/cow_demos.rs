//! Query-string parsing demo: borrowed fragments stay views into the
//! URL, decoded fragments become owned copies.

use std::borrow::Cow;

use httpie::cow::{format_cow, format_kv_pair, ParsedText};

fn to_parsed(c: Cow<str>) -> ParsedText {
    match c {
        Cow::Borrowed(v) => ParsedText::Borrowed(v.to_string()),
        Cow::Owned(v) => ParsedText::Owned(v),
    }
}

#[test]
fn parse_query_string() {
    let url =
        url::Url::parse("https://tyr.com/rust?page=1024&sort=desc&extra=hello%20world").unwrap();
    let mut kv_pairs = url.query_pairs();

    assert_eq!(3, kv_pairs.clone().count());

    let (mut k, v) = kv_pairs.next().unwrap();

    println!("k: {}, v: {}", k, v);

    // 修改时，k 会变为 Owned
    k.to_mut().push_str("_lala");

    println!("{}", format_kv_pair((to_parsed(k), to_parsed(v))));
    let (k2, v2) = kv_pairs.next().unwrap();
    println!("{}", format_kv_pair((to_parsed(k2), to_parsed(v2))));
    let (k3, v3) = kv_pairs.next().unwrap();
    println!("{}", format_kv_pair((to_parsed(k3), to_parsed(v3))));
}

#[test]
fn format_cow_tags_ownership() {
    assert_eq!(
        "Borrowed -- page",
        format_cow(ParsedText::Borrowed("page".to_string()))
    );
    assert_eq!(
        "Owned -- hello world",
        format_cow(ParsedText::Owned("hello world".to_string()))
    );
    assert_eq!(
        "key: Borrowed -- a, value: Owned -- b",
        format_kv_pair((
            ParsedText::Borrowed("a".to_string()),
            ParsedText::Owned("b".to_string())
        ))
    );
}
