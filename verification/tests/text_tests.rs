use remi_osc::text::{
    chars_of, join_text, contains_str, decimal_string, last_segment_of, parse_i32, str_eq,
    widen_index, without_char,
};

#[test]
fn chars_of_lists_every_character() {
    assert_eq!(chars_of("aé/"), vec!['a', 'é', '/']);
    assert_eq!(chars_of(""), Vec::<char>::new());
}

#[test]
fn contains_str_finds_inner_text() {
    assert!(contains_str("Toggles/Tops/CropOn", "Top"));
    assert!(contains_str("Mat/Colors/HairHue", "Hue"));
    assert!(!contains_str("Toggles/Acc/GlovesOff", "Top"));
    assert!(contains_str("anything", ""));
    assert!(!contains_str("ab", "abc"));
    assert!(contains_str("abc", "abc"));
}

#[test]
fn str_eq_compares_text() {
    assert!(str_eq("/avatar/change", "/avatar/change"));
    assert!(!str_eq("/avatar/change", "/avatar/changes"));
}

#[test]
fn without_char_drops_quotes() {
    assert_eq!(without_char("\"Nails/Almond\"", '"'), "Nails/Almond");
    assert_eq!(without_char("a\"b\"\"c", '"'), "abc");
    assert_eq!(without_char("null", '"'), "null");
}

#[test]
fn last_segment_is_text_after_last_slash() {
    assert_eq!(last_segment_of("/avatar/parameters/OSC/State/3"), "3");
    assert_eq!(last_segment_of("/avatar/parameters/State/"), "");
    assert_eq!(last_segment_of("noslash"), "noslash");
}

#[test]
fn parse_i32_matches_std() {
    let cases = [
        "0", "42", "-7", "+5", "", "-", "+", "abc", "4a", "2147483647", "2147483648",
        "-2147483648", "-2147483649", "99999999999999999999", "007", "-0", "+-1", " 1",
    ];
    for c in cases.iter() {
        assert_eq!(parse_i32(c), c.parse::<i32>().ok(), "input {:?}", c);
    }
}

#[test]
fn widen_index_sign_extends() {
    assert_eq!(widen_index(0), 0);
    assert_eq!(widen_index(12), 12);
    assert_eq!(widen_index(-1), usize::MAX);
    assert_eq!(widen_index(-2), usize::MAX - 1);
    assert_eq!(widen_index(i32::MIN), i32::MIN as usize);
}

#[test]
fn decimal_string_writes_usize() {
    assert_eq!(decimal_string(0), "0");
    assert_eq!(decimal_string(7), "7");
    assert_eq!(decimal_string(1234567), "1234567");
    assert_eq!(decimal_string(usize::MAX), usize::MAX.to_string());
}

#[test]
fn join_text_joins() {
    assert_eq!(join_text("ab", "cd"), "abcd");
    assert_eq!(join_text("", ""), "");
}
