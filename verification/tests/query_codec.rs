use eiga::{parse_query, render_query, Parameters};

fn pairs(query: &str) -> Vec<(String, Vec<u8>)> {
    parse_query(query).expect("the query should parse")
}

/// Unreserved characters stand for themselves; everything else is
/// percent-escaped, byte by byte, in uppercase hex.
#[test]
fn rendering_escapes_reserved_characters() {
    let mut parameters = Parameters::new();
    parameters.push("query", Some(&"Cruel Gun Story".to_string()));
    assert_eq!(render_query(&parameters), "query=Cruel%20Gun%20Story");

    let mut tricky = Parameters::new();
    tricky.push("q", Some(&"a&b=c%d".to_string()));
    assert_eq!(render_query(&tricky), "q=a%26b%3Dc%25d");
}

/// Characters beyond ASCII are escaped through their UTF-8 bytes.
#[test]
fn rendering_escapes_multibyte_characters() {
    let mut parameters = Parameters::new();
    parameters.push("query", Some(&"Tampopo \u{30bf}\u{30f3}\u{30dd}\u{30dd}".to_string()));
    assert_eq!(
        render_query(&parameters),
        "query=Tampopo%20%E3%82%BF%E3%83%B3%E3%83%9D%E3%83%9D"
    );
}

/// Round trip: re-parsing a rendered collection yields the same pairs, in
/// the same order, with the values percent-decoded.
#[test]
fn parsing_undoes_rendering() {
    let mut parameters = Parameters::new();
    parameters.push("query", Some(&"Cruel Gun Story".to_string()));
    parameters.push("page", Some(&600u64));
    parameters.push("note", Some(&"a&b=c".to_string()));

    let rendered = render_query(&parameters);
    let parsed = pairs(&rendered);

    assert_eq!(parsed.len(), 3);
    assert_eq!(parsed[0].0, "query");
    assert_eq!(parsed[0].1, b"Cruel Gun Story".to_vec());
    assert_eq!(parsed[1].0, "page");
    assert_eq!(parsed[1].1, b"600".to_vec());
    assert_eq!(parsed[2].0, "note");
    assert_eq!(parsed[2].1, b"a&b=c".to_vec());
}

/// Round trip through multibyte text recovers the original UTF-8 bytes.
#[test]
fn parsing_recovers_multibyte_values() {
    let text = "\u{30bf}\u{30f3}\u{30dd}\u{30dd}";
    let mut parameters = Parameters::new();
    parameters.push("query", Some(&text.to_string()));

    let parsed = pairs(&render_query(&parameters));
    assert_eq!(parsed[0].1, text.as_bytes().to_vec());
}

/// The empty query string holds no pairs; a rendered empty collection is
/// the empty string.
#[test]
fn empty_queries_round_trip() {
    assert_eq!(render_query(&Parameters::new()), "");
    assert_eq!(pairs("").len(), 0);
}

/// A segment without an equals sign parses as a key with an empty value;
/// hex escapes accept either case.
#[test]
fn parsing_is_lenient_about_shape() {
    let parsed = pairs("flag&q=a%2fb%2Fc");
    assert_eq!(parsed.len(), 2);
    assert_eq!(parsed[0].0, "flag");
    assert_eq!(parsed[0].1, Vec::<u8>::new());
    assert_eq!(parsed[1].1, b"a/b/c".to_vec());
}

/// Malformed percent escapes are rejected, not guessed at.
#[test]
fn truncated_escapes_do_not_parse() {
    assert!(parse_query("q=%2").is_none());
    assert!(parse_query("q=%zz").is_none());
    assert!(parse_query("q=100%").is_none());
}
