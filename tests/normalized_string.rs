use v1::error::AppError;
use v1::normalized_string::NormalizedString;

#[test]
fn normalizes_nfkc_differently_composed_characters() {
    let input = "\u{30c7}\u{30c6}\u{3099}";
    let result = NormalizedString::new(input, true, "name", None, None).unwrap();
    assert_ne!(result.unwrap().as_str(), input);
}

#[test]
fn normalizes_nfkc_and_trims_spaces_and_wide_chars() {
    let input = "　　　　　　１２３ａｂｃｱｲｳｴｵ①㈱㌖       ";
    let result = NormalizedString::new(input, true, "name", None, None).unwrap();
    assert_eq!(
        result.unwrap().as_str(),
        "123abcアイウエオ1(株)キロメートル"
    );
}

#[test]
fn normalizes_nfkc_3() {
    let input = "（）．，「」。、().,｢｣｡､";
    let result = NormalizedString::new(input, true, "name", None, None).unwrap();
    assert_eq!(result.unwrap().as_str(), "().,「」。、().,「」。、");
}

#[test]
fn returns_none_when_optional_and_empty_after_normalization() {
    let input = "  　　";
    let result = NormalizedString::new(input, false, "name", None, None).unwrap();
    assert!(result.is_none());
}

#[test]
fn returns_error_when_required_and_empty_after_normalization() {
    let input = "  　　";
    let err = NormalizedString::new(input, true, "name", None, None).unwrap_err();
    assert!(format!("{err:?}").contains("必須のパラメータ"));
}

#[test]
fn returns_error_when_below_min_length() {
    let input = "abcd";
    let err = NormalizedString::new(input, true, "name", Some(5), None).unwrap_err();
    assert!(format!("{err:?}").contains("5文字以上"));
}

#[test]
fn returns_error_when_above_max_length() {
    let input = "abcdef";
    let err = NormalizedString::new(input, true, "name", None, Some(5)).unwrap_err();
    assert!(format!("{err:?}").contains("5文字以内"));
}

#[test]
fn accepts_exact_min_and_max_length() {
    let input = "abcde";
    let result = NormalizedString::new(input, true, "name", Some(5), Some(5)).unwrap();
    assert_eq!(result.unwrap().as_str(), "abcde");
}

#[test]
fn counts_grapheme_clusters_correctly() {
    // "👨‍👩‍👧‍👦" is a single grapheme cluster but multiple code points
    let input = "👨‍👩‍👧‍👦";
    let result = NormalizedString::new(input, true, "emoji", Some(1), Some(1)).unwrap();
    assert_eq!(result.unwrap().as_str(), input);
}

#[test]
fn trims_and_normalizes_mixed_input() {
    let input = "　ＡＢＣ　abc　";
    let result = NormalizedString::new(input, true, "mixed", None, None).unwrap();
    // NFKC maps the inner ideographic space to a plain space, and trimming
    // removes white space at the ends only.
    assert_eq!(result.unwrap().as_str(), "ABC abc");
}

#[test]
fn works_with_owned_string() {
    let input = String::from("  １２３  ");
    let result = NormalizedString::new(&input, true, "number", None, None).unwrap();
    assert_eq!(result.unwrap().as_str(), "123");
}

#[test]
fn normalizing_the_output_again_changes_nothing() {
    for input in ["　ＡＢＣ　abc　", "  １２３  ", "㌖ ①", "ﬁ ligature ", "👨‍👩‍👧‍👦"] {
        let once = NormalizedString::new(input, true, "t", None, None).unwrap().unwrap();
        let twice = NormalizedString::new(once.as_str(), true, "t", None, None).unwrap().unwrap();
        assert_eq!(once.as_str(), twice.as_str());
    }
}

#[test]
fn emoji_sequence_is_one_character_not_four() {
    let input = "👨‍👩‍👧‍👦";
    assert!(NormalizedString::new(input, true, "emoji", Some(2), None).is_err());
    let err = NormalizedString::new(input, true, "emoji", None, Some(0)).unwrap_err();
    assert!(format!("{err:?}").contains("0文字以内"));
}

#[test]
fn full_width_collapses_to_half_width() {
    let result = NormalizedString::new("１２３ａｂｃ", true, "name", None, None).unwrap();
    assert_eq!(result.unwrap().as_str(), "123abc");
}

#[test]
fn blank_input_is_unprocessable_when_required() {
    let err = NormalizedString::new(" \t　", true, "名前", None, None).unwrap_err();
    match err {
        AppError::UnprocessableContent(Some(d)) => assert_eq!(d, "名前は必須のパラメータです。"),
        other => panic!("unexpected {other:?}"),
    }
    assert!(NormalizedString::new("", false, "名前", Some(3), None).unwrap().is_none());
}

#[test]
fn bounds_of_five_graphemes() {
    assert_eq!(
        NormalizedString::new("abcde", true, "name", Some(5), Some(5)).unwrap().unwrap().as_str(),
        "abcde"
    );
    match NormalizedString::new("abcd", true, "name", Some(5), Some(5)).unwrap_err() {
        AppError::UnprocessableContent(Some(d)) => assert_eq!(d, "nameは5文字以上で入力してください。"),
        other => panic!("unexpected {other:?}"),
    }
    match NormalizedString::new("abcdef", true, "name", Some(5), Some(5)).unwrap_err() {
        AppError::UnprocessableContent(Some(d)) => assert_eq!(d, "nameは5文字以内で入力してください。"),
        other => panic!("unexpected {other:?}"),
    }
}

#[test]
fn validate_works_on_given_counts() {
    let ok = NormalizedString::validate(String::from(" xy "), 12, true, "n", Some(12), Some(12));
    assert_eq!(ok.unwrap().unwrap().as_str(), "xy");
    match NormalizedString::validate(String::from("xy"), 3, true, "n", None, Some(2)).unwrap_err() {
        AppError::UnprocessableContent(Some(d)) => assert_eq!(d, "nは2文字以内で入力してください。"),
        other => panic!("unexpected {other:?}"),
    }
    match NormalizedString::validate(String::from("xy"), 2, true, "n", Some(120), None).unwrap_err() {
        AppError::UnprocessableContent(Some(d)) => assert_eq!(d, "nは120文字以上で入力してください。"),
        other => panic!("unexpected {other:?}"),
    }
    assert!(NormalizedString::validate(String::from("\u{3000}"), 0, false, "n", None, None).unwrap().is_none());
}
