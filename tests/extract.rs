use sqlite_regex::{
    group_index, group_span, regex_extract, ArgumentRole, ExtractError, PatternFault, SqlValue,
    ValueType,
};

fn text(s: &str) -> SqlValue {
    SqlValue::Text(s.as_bytes().to_vec())
}

fn extract3(p: SqlValue, s: SqlValue, g: i64) -> Result<Option<String>, ExtractError> {
    regex_extract(&[p, s, SqlValue::Integer(g)])
}

fn is_bad_argument(r: &Result<Option<String>, ExtractError>, role: ArgumentRole, ty: ValueType) -> bool {
    matches!(
        r,
        Err(ExtractError::InvalidArgumentType { argument, found }) if *argument == role && *found == ty
    )
}

#[test]
fn digits_in_the_middle() {
    let r = extract3(text("[0-9]+"), text("abc123def"), 0).unwrap();
    assert_eq!(r, Some("123".to_string()));
}

#[test]
fn second_capture_group() {
    let r = extract3(text(r"([a-z]+)(\d+)"), text("abc123"), 2).unwrap();
    assert_eq!(r, Some("123".to_string()));
}

#[test]
fn first_capture_group() {
    let r = extract3(text(r"([a-z]+)(\d+)"), text("abc123"), 1).unwrap();
    assert_eq!(r, Some("abc".to_string()));
}

#[test]
fn no_match_is_null() {
    let r = extract3(text("xyz"), text("abc123"), 0).unwrap();
    assert_eq!(r, None);
}

#[test]
fn null_subject_is_null() {
    let r = extract3(text("[0-9]+"), SqlValue::Null, 0).unwrap();
    assert_eq!(r, None);
}

#[test]
fn null_subject_with_any_group_is_null() {
    assert_eq!(extract3(text("(a)"), SqlValue::Null, 7).unwrap(), None);
    assert_eq!(regex_extract(&[text("a"), SqlValue::Null, text("x")]).unwrap(), None);
    assert_eq!(regex_extract(&[text("a"), SqlValue::Null]).unwrap(), None);
}

#[test]
fn unclosed_group_does_not_compile() {
    let r = extract3(text("("), text("abc"), 0);
    assert!(matches!(r, Err(ExtractError::PatternCompileError(PatternFault::Rejected(_)))));
    assert!(r.unwrap_err().is_pattern_compile_error());
}

#[test]
fn rejection_carries_the_engine_message() {
    let r = extract3(text("("), text("abc"), 0);
    match r {
        Err(ExtractError::PatternCompileError(PatternFault::Rejected(m))) => assert!(!m.is_empty()),
        _ => panic!("expected a rejected pattern"),
    }
}

#[test]
fn integer_pattern_is_wrong_type() {
    let r = extract3(SqlValue::Integer(42), text("abc"), 0);
    assert!(is_bad_argument(&r, ArgumentRole::Pattern, ValueType::Integer));
    assert!(!r.unwrap_err().is_pattern_compile_error());
}

#[test]
fn other_pattern_types_are_wrong_type() {
    let r = regex_extract(&[SqlValue::Null, text("abc")]);
    assert!(is_bad_argument(&r, ArgumentRole::Pattern, ValueType::Null));
    let r = regex_extract(&[SqlValue::Blob(b"a".to_vec()), text("abc")]);
    assert!(is_bad_argument(&r, ArgumentRole::Pattern, ValueType::Blob));
    let r = regex_extract(&[SqlValue::Real, SqlValue::Null, SqlValue::Integer(-3)]);
    assert!(is_bad_argument(&r, ArgumentRole::Pattern, ValueType::Real));
}

#[test]
fn non_text_subject_is_wrong_type() {
    let r = extract3(text("a"), SqlValue::Integer(5), 0);
    assert!(is_bad_argument(&r, ArgumentRole::Subject, ValueType::Integer));
    let r = regex_extract(&[text("a"), SqlValue::Real]);
    assert!(is_bad_argument(&r, ArgumentRole::Subject, ValueType::Real));
    let r = regex_extract(&[text("a"), SqlValue::Blob(b"a".to_vec()), SqlValue::Blob(vec![])]);
    assert!(is_bad_argument(&r, ArgumentRole::Subject, ValueType::Blob));
}

#[test]
fn subject_type_is_checked_before_the_pattern_compiles() {
    let r = extract3(text("("), SqlValue::Integer(42), 0);
    assert!(is_bad_argument(&r, ArgumentRole::Subject, ValueType::Integer));
    let r = extract3(SqlValue::Text(vec![0xff]), SqlValue::Integer(1), 0);
    assert!(is_bad_argument(&r, ArgumentRole::Subject, ValueType::Integer));
}

#[test]
fn pattern_is_compiled_before_a_null_subject_ends_the_call() {
    let r = extract3(text("("), SqlValue::Null, 0);
    assert!(matches!(r, Err(ExtractError::PatternCompileError(PatternFault::Rejected(_)))));
}

#[test]
fn pattern_that_is_not_utf8_does_not_compile() {
    let r = extract3(SqlValue::Text(vec![b'a', 0xff]), text("abc"), 0);
    assert!(matches!(r, Err(ExtractError::PatternCompileError(PatternFault::InvalidUtf8))));
}

#[test]
fn group_left_out_means_whole_match() {
    let r = regex_extract(&[text(r"b(\d)"), text("ab1b2")]).unwrap();
    assert_eq!(r, Some("b1".to_string()));
}

#[test]
fn leftmost_first_match_is_taken() {
    let r = extract3(text("a|ab"), text("xxab"), 0).unwrap();
    assert_eq!(r, Some("a".to_string()));
    let r = extract3(text(r"\d+"), text("12 345"), 0).unwrap();
    assert_eq!(r, Some("12".to_string()));
}

#[test]
fn group_beyond_the_pattern_is_null() {
    assert_eq!(extract3(text("([a-z]+)"), text("abc"), 2).unwrap(), None);
    assert_eq!(extract3(text("abc"), text("abc"), 1).unwrap(), None);
}

#[test]
fn group_that_took_no_part_is_null() {
    let r = extract3(text("a(b)?(c)"), text("xac"), 1).unwrap();
    assert_eq!(r, None);
    let r = extract3(text("a(b)?(c)"), text("xac"), 2).unwrap();
    assert_eq!(r, Some("c".to_string()));
}

#[test]
fn largest_group_index_is_null() {
    assert_eq!(extract3(text("(a)"), text("a"), i64::MAX).unwrap(), None);
}

#[test]
fn negative_group_is_wrong_type() {
    let r = extract3(text("(a)"), text("a"), -1);
    assert!(is_bad_argument(&r, ArgumentRole::CaptureGroup, ValueType::Integer));
}

#[test]
fn non_integer_group_is_wrong_type() {
    let r = regex_extract(&[text("(a)"), text("a"), text("1")]);
    assert!(is_bad_argument(&r, ArgumentRole::CaptureGroup, ValueType::Text));
    let r = regex_extract(&[text("(a)"), text("a"), SqlValue::Null]);
    assert!(is_bad_argument(&r, ArgumentRole::CaptureGroup, ValueType::Null));
    let r = regex_extract(&[text("(a)"), text("a"), SqlValue::Real]);
    assert!(is_bad_argument(&r, ArgumentRole::CaptureGroup, ValueType::Real));
}

#[test]
fn repeated_calls_agree() {
    let args = [text(r"(\w+)@(\w+)"), text("mail bob@example now"), SqlValue::Integer(2)];
    let first = regex_extract(&args).unwrap();
    let second = regex_extract(&args).unwrap();
    assert_eq!(first, second);
    assert_eq!(first, Some("example".to_string()));
    let bad = [text("("), text("x")];
    let e1 = regex_extract(&bad);
    let e2 = regex_extract(&bad);
    match (e1, e2) {
        (
            Err(ExtractError::PatternCompileError(PatternFault::Rejected(a))),
            Err(ExtractError::PatternCompileError(PatternFault::Rejected(b))),
        ) => assert_eq!(a, b),
        _ => panic!("expected two rejections"),
    }
}

#[test]
fn empty_match_on_empty_subject() {
    assert_eq!(extract3(text(""), text(""), 0).unwrap(), Some(String::new()));
    assert_eq!(extract3(text("a*"), text("bbb"), 0).unwrap(), Some(String::new()));
}

#[test]
fn multibyte_text_is_kept_whole() {
    let r = extract3(text("é+"), text("caféé!"), 0).unwrap();
    assert_eq!(r, Some("éé".to_string()));
}

#[test]
fn invalid_bytes_in_the_match_are_replaced() {
    let subject = SqlValue::Text(vec![b'x', b'a', 0xff, b'b', b'y']);
    let r = extract3(text("(?-u)a.b"), subject, 0).unwrap();
    assert_eq!(r, Some("a\u{FFFD}b".to_string()));
}

#[test]
fn group_span_picks_the_group() {
    let caps = Some(vec![Some((3, 9)), None, Some((4, 6))]);
    assert_eq!(group_span(&caps, 0), Some((3, 9)));
    assert_eq!(group_span(&caps, 1), None);
    assert_eq!(group_span(&caps, 2), Some((4, 6)));
    assert_eq!(group_span(&caps, 3), None);
    assert_eq!(group_span(&None, 0), None);
}

#[test]
fn group_index_reads_the_argument() {
    assert_eq!(group_index(None).unwrap(), 0);
    assert_eq!(group_index(Some(&SqlValue::Integer(4))).unwrap(), 4);
    assert!(group_index(Some(&SqlValue::Integer(-4))).is_err());
    assert!(group_index(Some(&SqlValue::Blob(vec![1]))).is_err());
}

#[test]
fn value_type_names_the_storage_class() {
    assert_eq!(SqlValue::Null.value_type(), ValueType::Null);
    assert_eq!(SqlValue::Integer(1).value_type(), ValueType::Integer);
    assert_eq!(SqlValue::Real.value_type(), ValueType::Real);
    assert_eq!(text("a").value_type(), ValueType::Text);
    assert_eq!(SqlValue::Blob(vec![]).value_type(), ValueType::Blob);
}
