use shader_effects::repeat::{
    annotation_from_captures, parse_repeats, parse_u32, repeat_annotation, RepeatError, Repeats,
    REPEAT_PATTERN,
};

fn groups(whole: &str, first: Option<&str>, second: Option<&str>) -> Vec<Option<String>> {
    vec![Some(whole.to_string()), first.map(str::to_string), second.map(str::to_string)]
}

#[test]
fn decimal_numbers_are_read() {
    assert_eq!(parse_u32("0"), Some(0));
    assert_eq!(parse_u32("12"), Some(12));
    assert_eq!(parse_u32("007"), Some(7));
    assert_eq!(parse_u32("+7"), Some(7));
    assert_eq!(parse_u32("4294967295"), Some(u32::MAX));
}

#[test]
fn other_texts_are_no_numbers() {
    assert_eq!(parse_u32(""), None);
    assert_eq!(parse_u32("+"), None);
    assert_eq!(parse_u32("-1"), None);
    assert_eq!(parse_u32("++1"), None);
    assert_eq!(parse_u32("1+"), None);
    assert_eq!(parse_u32("12a"), None);
    assert_eq!(parse_u32(" 1"), None);
    assert_eq!(parse_u32("\u{0661}\u{0662}"), None);
}

#[test]
fn numbers_beyond_32_bits_are_refused() {
    assert_eq!(parse_u32("4294967296"), None);
    assert_eq!(parse_u32("4294967300"), None);
    assert_eq!(parse_u32("42949672950"), None);
    assert_eq!(parse_u32("99999999999999999999"), None);
    assert_eq!(parse_u32("00000000004294967295"), Some(u32::MAX));
}

#[test]
fn parsing_agrees_with_the_standard_library() {
    let texts = ["", "+", "-", "0", "+0", "-0", "1", "42", "+42", "4294967295", "4294967296", "1_000", "0x10", "１２"];
    for text in texts {
        assert_eq!(parse_u32(text), text.parse::<u32>().ok(), "{}", text);
    }
}

#[test]
fn repeats_hold_the_counts_and_zero_padding() {
    let r = Repeats::new(2, 3);
    assert_eq!(r.horizontal, 2);
    assert_eq!(r.vertical, 3);
    assert_eq!(r._wasm_padding1, 0);
    assert_eq!(r._wasm_padding2, 0);
    assert_eq!(Repeats::default(), Repeats::new(0, 0));
}

#[test]
fn groups_become_repeats() {
    assert_eq!(parse_repeats(&groups("[repeat: 2, 3]", Some("2"), Some("3"))), Ok(Repeats::new(2, 3)));
    assert_eq!(parse_repeats(&groups("x", Some("0"), Some("4294967295"))), Ok(Repeats::new(0, u32::MAX)));
}

#[test]
fn bad_groups_are_malformed() {
    assert_eq!(parse_repeats(&groups("x", Some("4294967296"), Some("3"))), Err(RepeatError::MalformedRepeat));
    assert_eq!(parse_repeats(&groups("x", Some("2"), Some("three"))), Err(RepeatError::MalformedRepeat));
    assert_eq!(parse_repeats(&groups("x", None, Some("3"))), Err(RepeatError::MalformedRepeat));
    assert_eq!(parse_repeats(&groups("x", Some("2"), None)), Err(RepeatError::MalformedRepeat));
    assert_eq!(parse_repeats(&vec![]), Err(RepeatError::MalformedRepeat));
    assert_eq!(parse_repeats(&vec![Some("x".to_string()), Some("1".to_string())]), Err(RepeatError::MalformedRepeat));
}

#[test]
fn no_match_is_no_annotation() {
    assert_eq!(annotation_from_captures(&None), None);
    assert_eq!(
        annotation_from_captures(&Some(groups("[repeat:1,2]", Some("1"), Some("2")))),
        Some(Ok(Repeats::new(1, 2)))
    );
    assert_eq!(
        annotation_from_captures(&Some(groups("[repeat:a,2]", Some("a"), Some("2")))),
        Some(Err(RepeatError::MalformedRepeat))
    );
}

#[test]
fn names_with_an_annotation() {
    assert_eq!(repeat_annotation("Wall [repeat: 2, 3]"), Some(Ok(Repeats::new(2, 3))));
    assert_eq!(repeat_annotation("[repeat:10,1]"), Some(Ok(Repeats::new(10, 1))));
    assert_eq!(repeat_annotation("floor[repeat:   4,\t5].001"), Some(Ok(Repeats::new(4, 5))));
    assert_eq!(repeat_annotation("[repeat: 0, 0]"), Some(Ok(Repeats::new(0, 0))));
}

#[test]
fn annotation_is_found_whatever_the_case() {
    assert_eq!(repeat_annotation("Wall [REPEAT: 2, 3]"), Some(Ok(Repeats::new(2, 3))));
    assert_eq!(repeat_annotation("[Repeat:7,8]"), Some(Ok(Repeats::new(7, 8))));
}

#[test]
fn the_first_annotation_counts() {
    assert_eq!(repeat_annotation("[repeat: 1, 2] [repeat: 3, 4]"), Some(Ok(Repeats::new(1, 2))));
}

#[test]
fn names_without_an_annotation() {
    assert_eq!(repeat_annotation(""), None);
    assert_eq!(repeat_annotation("Wall"), None);
    assert_eq!(repeat_annotation("[repeat: 2]"), None);
    assert_eq!(repeat_annotation("[repeat: a, b]"), None);
    assert_eq!(repeat_annotation("[repeat: -2, 3]"), None);
    assert_eq!(repeat_annotation("[repeat: 2 , 3]"), None);
    assert_eq!(repeat_annotation("repeat: 2, 3"), None);
}

#[test]
fn counts_that_are_no_numbers_are_malformed() {
    assert_eq!(repeat_annotation("[repeat: 4294967296, 1]"), Some(Err(RepeatError::MalformedRepeat)));
    assert_eq!(repeat_annotation("[repeat: 1, 99999999999]"), Some(Err(RepeatError::MalformedRepeat)));
    assert_eq!(
        repeat_annotation("[repeat: \u{0663}, \u{0664}]"),
        Some(Err(RepeatError::MalformedRepeat))
    );
}

#[test]
fn the_pattern_is_the_documented_one() {
    assert_eq!(REPEAT_PATTERN, r"\[repeat:\s*(\d+),\s*(\d+)\]");
}

#[test]
fn errors_have_their_messages() {
    assert_eq!(RepeatError::MalformedRepeat.message(), "Failed to parse repeat");
    assert_eq!(RepeatError::MissingMaterial.message(), "Failed to get standard material from handle");
    assert_eq!(
        RepeatError::MissingTexture.message(),
        "Failed to get texture from standard material. Is the texture missing?"
    );
}
