use panic_search::encode::encode_component;
use panic_search::url::{failure_line, search_url};
use percent_encoding::{percent_decode, utf8_percent_encode, EncodeSet};

const PREFIX: &str = "https://duckduckgo.com/?q=";

/// The same choice of bytes, handed to the encoder of `percent_encoding`.
#[derive(Clone)]
struct Component;

impl EncodeSet for Component {
    fn contains(&self, byte: u8) -> bool {
        !(byte.is_ascii_alphanumeric() || b"-_.!~*'()".contains(&byte))
    }
}

fn decoded(encoded: &str) -> String {
    percent_decode(encoded.as_bytes()).decode_utf8().unwrap().into_owned()
}

#[test]
fn letters_digits_and_marks_stand_for_themselves() {
    let plain = "abcxyzABCXYZ0123456789-_.!~*'()";
    assert_eq!(encode_component(plain), plain);
}

#[test]
fn empty_text_encodes_to_nothing() {
    assert_eq!(encode_component(""), "");
}

#[test]
fn space_becomes_percent_20() {
    assert_eq!(encode_component(" "), "%20");
    assert_eq!(encode_component("a b"), "a%20b");
}

#[test]
fn characters_with_a_meaning_in_a_url_are_escaped() {
    assert_eq!(encode_component("&"), "%26");
    assert_eq!(encode_component("="), "%3D");
    assert_eq!(encode_component("?"), "%3F");
    assert_eq!(encode_component("#"), "%23");
    assert_eq!(encode_component("/"), "%2F");
    assert_eq!(encode_component("%"), "%25");
    assert_eq!(encode_component("+"), "%2B");
    assert_eq!(encode_component(":"), "%3A");
    assert_eq!(encode_component("\""), "%22");
    assert_eq!(encode_component("<>"), "%3C%3E");
}

#[test]
fn escapes_use_upper_case_digits() {
    assert_eq!(encode_component("\n"), "%0A");
    assert_eq!(encode_component("\u{7f}"), "%7F");
    assert_eq!(encode_component("\0"), "%00");
    assert_eq!(encode_component("^"), "%5E");
}

#[test]
fn text_outside_ascii_is_escaped_byte_by_byte() {
    assert_eq!(encode_component("\u{e9}"), "%C3%A9");
    assert_eq!(encode_component("\u{20ac}"), "%E2%82%AC");
    assert_eq!(encode_component("\u{1f600}"), "%F0%9F%98%80");
    assert_eq!(encode_component("na\u{ef}ve"), "na%C3%AFve");
}

#[test]
fn every_byte_below_128_is_kept_or_escaped() {
    for b in 0u8..128 {
        let text = String::from(b as char);
        let kept = b.is_ascii_alphanumeric() || b"-_.!~*'()".contains(&b);
        let expected = if kept { text.clone() } else { format!("%{:02X}", b) };
        assert_eq!(encode_component(&text), expected);
    }
}

#[test]
fn agrees_with_the_encoder_of_percent_encoding() {
    let samples = [
        "",
        "index out of range",
        "called `Option::unwrap()` on a `None` value",
        "attempt to divide by zero",
        "a&b=c?d#e/f%41+g",
        "caf\u{e9} \u{1f600} \u{4e2d}\u{6587}",
        "line\nbreak\ttab",
    ];
    for text in samples {
        assert_eq!(encode_component(text), utf8_percent_encode(text, Component).to_string());
    }
}

#[test]
fn decoding_gives_the_text_back() {
    let samples = [
        "",
        "index out of range",
        "100%",
        "%41",
        "%zz%",
        "a+b c&d=e",
        "caf\u{e9} \u{1f600} \u{4e2d}\u{6587}",
        "lang:\"oops\"",
        "\0\u{1}\u{7f}\u{80}\u{7ff}\u{800}\u{ffff}\u{10000}\u{10ffff}",
    ];
    for text in samples {
        assert_eq!(decoded(&encode_component(text)), text);
    }
}

#[test]
fn search_url_is_prefix_and_encoded_query() {
    assert_eq!(search_url("rust"), "https://duckduckgo.com/?q=rust");
    assert_eq!(
        search_url("!so index out of range"),
        "https://duckduckgo.com/?q=!so%20index%20out%20of%20range"
    );
    let samples = ["", "a b", "a&b", "\u{e9}", "x/y?z#w"];
    for query in samples {
        assert_eq!(search_url(query), format!("{}{}", PREFIX, encode_component(query)));
    }
}

#[test]
fn search_url_of_empty_query_is_the_prefix() {
    assert_eq!(search_url(""), PREFIX);
}

#[test]
fn query_part_of_search_url_decodes_to_the_query() {
    let samples = [
        "",
        "!so index out of range",
        "lang:\"oops\"",
        "50% off & more",
        "https://example.com/?q=1#top",
        "\u{1f980} panicked at 'oh no'",
    ];
    for query in samples {
        let url = search_url(query);
        assert!(url.starts_with(PREFIX));
        assert_eq!(decoded(&url[PREFIX.len()..]), query);
    }
}

#[test]
fn failure_line_names_address_and_reason() {
    assert_eq!(
        failure_line("https://duckduckgo.com/?q=oops", "No such file or directory (os error 2)"),
        "Error opening https://duckduckgo.com/?q=oops: No such file or directory (os error 2)"
    );
    assert_eq!(failure_line("", ""), "Error opening : ");
    let line = failure_line("URL", "WHY");
    assert!(line.contains("URL"));
    assert!(line.contains("WHY"));
}
