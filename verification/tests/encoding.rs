use digital_closet::encode::{url_decode, url_encode};

#[test]
fn space_encodes_to_plus() {
    assert_eq!(url_encode("party outfit"), "party+outfit");
}

#[test]
fn ampersand_encodes_to_hex() {
    assert_eq!(url_encode("H&M"), "H%26M");
}

#[test]
fn unreserved_characters_pass_through() {
    assert_eq!(url_encode("AZaz09-_.~"), "AZaz09-_.~");
}

#[test]
fn reserved_characters_use_uppercase_hex() {
    assert_eq!(url_encode("a/b?c=d"), "a%2Fb%3Fc%3Dd");
    assert_eq!(url_encode("site:x"), "site%3Ax");
    assert_eq!(url_encode("50%"), "50%25");
}

#[test]
fn low_code_points_are_zero_padded() {
    assert_eq!(url_encode("\n"), "%0A");
    assert_eq!(url_encode("\t"), "%09");
}

#[test]
fn code_points_above_one_byte_keep_all_digits() {
    assert_eq!(url_encode("é"), "%E9");
    assert_eq!(url_encode("€"), "%20AC");
}

#[test]
fn empty_string_encodes_to_empty() {
    assert_eq!(url_encode(""), "");
}

#[test]
fn plus_decodes_to_space() {
    assert_eq!(url_decode("party+outfit"), "party outfit");
}

#[test]
fn percent_sequences_decode() {
    assert_eq!(url_decode("H%26M"), "H&M");
    assert_eq!(url_decode("a%2Fb"), "a/b");
}

#[test]
fn lowercase_hex_decodes_too() {
    assert_eq!(url_decode("%2b"), "+");
}

#[test]
fn malformed_percent_stays_literal() {
    assert_eq!(url_decode("50%"), "50%");
    assert_eq!(url_decode("%G1"), "%G1");
    assert_eq!(url_decode("%2"), "%2");
}

#[test]
fn encoding_round_trips_for_letters_digits_spaces() {
    let inputs = [
        "party outfit",
        "The quick brown fox 123",
        "a",
        "men wedding formal blazer trousers shirt winter coat knit size m shoes eu 42 budget 150",
        "",
    ];
    for s in inputs {
        assert_eq!(url_decode(&url_encode(s)), s);
    }
}
