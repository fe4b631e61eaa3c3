use eiga::{render_query, Country, Language, Parameters, ToValue, Value};

/// Pushing an absent value leaves the collection unchanged.
#[test]
fn push_of_an_absent_value_is_a_no_op() {
    let mut parameters = Parameters::new();
    parameters.push("language", Some(&"en-US".to_string()));
    parameters.push::<String>("region", None);
    parameters.push::<bool>("include_adult", None);

    assert_eq!(parameters.len(), 1);
    assert_eq!(parameters.key_at(0), "language");
    assert_eq!(parameters.value_at(0).as_str(), "en-US");
}

/// A collection built with reserved room starts empty all the same.
#[test]
fn with_capacity_starts_empty() {
    let mut parameters = Parameters::with_capacity(4);
    assert_eq!(parameters.len(), 0);
    assert_eq!(render_query(&parameters), "");

    parameters.push("language", Some(&"en-US".to_string()));
    assert_eq!(parameters.len(), 1);
    assert_eq!(render_query(&parameters), "language=en-US");
}

/// Push does not deduplicate: the same key can appear repeatedly.
#[test]
fn push_keeps_repeated_keys() {
    let mut parameters = Parameters::new();
    parameters.push("tag", Some(&"a".to_string()));
    parameters.push("tag", Some(&"b".to_string()));

    assert_eq!(parameters.len(), 2);
    assert_eq!(parameters.value_at(0).as_str(), "a");
    assert_eq!(parameters.value_at(1).as_str(), "b");
}

/// Replacing an existing key overwrites the value in place: the length and
/// every other pair's position are unchanged.
#[test]
fn replace_overwrites_in_place() {
    let mut parameters = Parameters::new();
    parameters.push("query", Some(&"Ran".to_string()));
    parameters.push("page", Some(&1u64));
    parameters.push("year", Some(&1985u64));

    parameters.replace("page", &2u64);

    assert_eq!(parameters.len(), 3);
    assert_eq!(parameters.key_at(0), "query");
    assert_eq!(parameters.value_at(0).as_str(), "Ran");
    assert_eq!(parameters.key_at(1), "page");
    assert_eq!(parameters.value_at(1).as_str(), "2");
    assert_eq!(parameters.key_at(2), "year");
    assert_eq!(parameters.value_at(2).as_str(), "1985");
}

/// Replacing a missing key appends the pair at the end, exactly as a push
/// of a present value.
#[test]
fn replace_of_a_missing_key_appends() {
    let mut replaced = Parameters::new();
    replaced.push("page", Some(&1u64));
    replaced.replace("language", &"en-US".to_string());

    let mut pushed = Parameters::new();
    pushed.push("page", Some(&1u64));
    pushed.push("language", Some(&"en-US".to_string()));

    assert_eq!(render_query(&replaced), render_query(&pushed));
    assert_eq!(render_query(&replaced), "page=1&language=en-US");
}

/// Replace only rewrites the first pair with the key.
#[test]
fn replace_rewrites_the_first_occurrence() {
    let mut parameters = Parameters::new();
    parameters.push("tag", Some(&"a".to_string()));
    parameters.push("tag", Some(&"b".to_string()));

    parameters.replace("tag", &"c".to_string());

    assert_eq!(parameters.len(), 2);
    assert_eq!(parameters.value_at(0).as_str(), "c");
    assert_eq!(parameters.value_at(1).as_str(), "b");
}

/// Booleans render as the literal lowercase words.
#[test]
fn booleans_render_lowercase() {
    assert_eq!(true.to_value().as_str(), "true");
    assert_eq!(false.to_value().as_str(), "false");
}

/// Numbers render in decimal, without padding.
#[test]
fn numbers_render_in_decimal() {
    assert_eq!(0u64.to_value().as_str(), "0");
    assert_eq!(600u64.to_value().as_str(), "600");
    assert_eq!(1965u32.to_value().as_str(), "1965");
    assert_eq!(u64::MAX.to_value().as_str(), "18446744073709551615");
}

/// Countries and languages serialize as their two-letter codes.
#[test]
fn countries_and_languages_render_as_codes() {
    assert_eq!(Country::Us.code(), "US");
    assert_eq!(Country::Jp.code(), "JP");
    assert_eq!(Language::En.code(), "en");
    assert_eq!(Language::Ja.code(), "ja");

    let mut parameters = Parameters::new();
    parameters.push("region", Some(&Country::Us));
    parameters.push("language", Some(&Language::Ja));
    assert_eq!(render_query(&parameters), "region=US&language=ja");
}

/// A value can be handed back to the collection unchanged.
#[test]
fn values_pass_through() {
    let value: Value = "en-US".to_string().to_value();
    let mut parameters = Parameters::new();
    parameters.push("language", Some(&value));
    assert_eq!(parameters.value_at(0).as_str(), "en-US");
}
