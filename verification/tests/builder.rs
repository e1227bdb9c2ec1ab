//! The configuration model: setter semantics, defaults and the yes/no
//! parser.

use asking::error::ProcessingError;
use asking::{
    question, select, yn_parse, ErrorFormat, Executor, Preparser, QuestionBuilder, StrTest,
    ValueTest,
};
use std::time::Duration;

#[test]
fn scalar_setters_overwrite() {
    let q = question::<i32>()
        .message("first")
        .help("h1")
        .default_value(Some(1))
        .attempts(Some(5))
        .timeout(Duration::from_secs(1))
        .required_with_msg("r1");
    let q = q
        .repeat_message("second")
        .repeat_help("h2")
        .default_value(Some(2))
        .attempts(Some(7))
        .timeout(Duration::from_secs(9))
        .required_with_msg("r2");
    assert_eq!(q.message, "second");
    assert!(q.repeat_message);
    assert_eq!(q.help, "h2");
    assert!(q.repeat_help);
    assert_eq!(q.default, Some(2));
    assert_eq!(q.attempts, Some(7));
    assert_eq!(q.executor, Executor::Timeout(Duration::from_secs(9)));
    assert_eq!(q.required_message, "r2");
    assert!(q.required);
}

#[test]
fn list_setters_append() {
    let q = question::<i32>()
        .min(2)
        .max_with_msg(9, "cap")
        .not(3)
        .min_length(1)
        .length(4)
        .str_test(StrTest::LengthAtMost(8));
    assert_eq!(q.tests.len(), 3);
    assert_eq!(q.tests[0].test, ValueTest::AtLeast(2));
    assert_eq!(q.tests[1].test, ValueTest::AtMost(9));
    assert_eq!(q.tests[1].message, "cap");
    assert_eq!(q.tests[2].test, ValueTest::Not(3));
    assert_eq!(q.str_tests.len(), 3);
    assert_eq!(q.str_tests[0].test, StrTest::LengthAtLeast(1));
    assert_eq!(q.str_tests[0].message, "The input needs to have length at least 1.");
    assert_eq!(q.str_tests[1].test, StrTest::LengthEq(4));
    assert_eq!(q.str_tests[1].message, "The input needs to have length exactly 4.");
    assert_eq!(q.str_tests[2].test, StrTest::LengthAtMost(8));
}

#[test]
fn decimal_rendering() {
    assert_eq!(asking::decimal::decimal_string(0), "0");
    assert_eq!(asking::decimal::decimal_string(7), "7");
    assert_eq!(asking::decimal::decimal_string(10), "10");
    assert_eq!(asking::decimal::decimal_string(120), "120");
    assert_eq!(asking::decimal::decimal_string(98765), "98765");
    let q = question::<i32>().max_length(103);
    assert_eq!(q.str_tests[0].message, "The input needs to have length at most 103.");
}

#[test]
fn min_max_adds_two_tests() {
    let q = question::<i32>().min_max(2, 4);
    assert_eq!(q.tests.len(), 2);
    assert_eq!(q.tests[0].test, ValueTest::AtLeast(2));
    assert_eq!(q.tests[1].test, ValueTest::AtMost(4));
    let q = question::<i32>().min_max_with_msg(2, 4, "between");
    assert_eq!(q.tests.len(), 1);
    assert_eq!(q.tests[0].test, ValueTest::Within(2, 4));
}

#[test]
fn clear_forgets_value_tests() {
    let q = question::<i32>().min(1).max(9).length(3).clear();
    assert_eq!(q.tests.len(), 0);
    assert_eq!(q.str_tests.len(), 1);
}

#[test]
fn required_toogle_flips() {
    let q = question::<i32>();
    assert!(!q.required);
    let q = q.required_toogle();
    assert!(q.required);
    let q = q.required_toogle();
    assert!(!q.required);
}

#[test]
fn parser_feedback_toggle_flips() {
    let q = question::<i32>();
    assert!(!q.parser_display);
    let q = q.parser_feedback_toggle();
    assert!(q.parser_display);
    let q = q.parser_feedback_toggle();
    assert!(!q.parser_display);
}

#[test]
fn fresh_defaults() {
    let q: QuestionBuilder<i32> = question();
    assert_eq!(q.message, "");
    assert!(!q.repeat_message);
    assert_eq!(q.help, "");
    assert!(!q.repeat_help);
    assert_eq!(q.default, None);
    assert_eq!(q.preparser, Preparser::TrimEnd);
    assert_eq!(q.error_format, ErrorFormat::AppendNewline);
    assert_eq!(q.executor, Executor::Unbounded);
    assert_eq!(q.attempts, None);
    assert!(!q.required);
    assert!(!q.parser_display);
    assert!(q.tests.is_empty());
    assert!(q.str_tests.is_empty());
}

#[test]
fn select_builds_membership_test() {
    let q = select(vec![1i32, 2, 3]);
    assert_eq!(q.tests.len(), 1);
    assert_eq!(q.tests[0].test, ValueTest::OneOf(vec![1, 2, 3]));
    assert_eq!(q.tests[0].message, "Value is not one of the options.");
}

#[test]
fn error_descriptions() {
    assert_eq!(
        ProcessingError::NoMoreAttempts.describe(),
        "No more attempts to answer this question."
    );
    assert_eq!(
        ProcessingError::Io.describe(),
        "Problems with displaying messages or reading input."
    );
    assert_eq!(ProcessingError::Eof.describe(), "EOF reached while asking for input.");
    assert_eq!(
        ProcessingError::Timeout.describe(),
        "User could not answer the question in the given time."
    );
}

#[test]
fn yn_parse_accepts_the_eight_words() {
    for s in ["true", "t", "yes", "y", "TRUE", "Yes", "Y", "tRuE"] {
        assert_eq!(yn_parse(s), Some(true), "{}", s);
    }
    for s in ["false", "f", "no", "n", "FALSE", "No", "N", "fAlSe"] {
        assert_eq!(yn_parse(s), Some(false), "{}", s);
    }
    for s in ["", "maybe", "yess", "ja", "0", "1", "tr ue", "y "] {
        assert_eq!(yn_parse(s), None, "{}", s);
    }
}
