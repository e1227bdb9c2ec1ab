//! End-to-end resolution scenarios, driven over scripted input lines.

use asking::error::ProcessingError;
use asking::{question, select_with_msg, yn, Action, ErrorFormat, Preparser, QuestionBuilder};
use std::cell::RefCell;

/// Drives a session over scripted lines: writes are collected into a
/// transcript, reads take the next line (end of script means end of input),
/// and the supplied closures stand in for the parser, the feedback
/// renderers and the custom tests.
fn run<T: PartialEq + PartialOrd>(
    q: QuestionBuilder<T>,
    lines: &[&str],
    parser: impl Fn(&str) -> Result<T, String>,
    attempts_text: impl Fn(usize) -> String,
    feedback: impl Fn(&T) -> String,
    str_check: impl Fn(u32, &str) -> Result<(), String>,
    value_check: impl Fn(u32, &T) -> Result<(), String>,
) -> (Result<T, ProcessingError>, String) {
    let (mut s, mut a) = q.ask();
    let mut out = String::new();
    let mut next = 0usize;
    loop {
        a = match a {
            Action::Write(w) => {
                out.push_str(&w);
                s.on_wrote()
            }
            Action::Read => {
                if next < lines.len() {
                    let line = lines[next].to_string();
                    next += 1;
                    s.on_line(line)
                } else {
                    s.on_eof()
                }
            }
            Action::Parse(input) => {
                let r = parser(&input);
                s.on_parsed(r)
            }
            Action::StrCheck(id, input) => {
                let r = str_check(id, &input);
                s.on_checked(r)
            }
            Action::ValueCheck(id) => {
                let r = value_check(id, s.proposal().expect("a proposal is pending"));
                s.on_checked(r)
            }
            Action::AttemptsText(n) => s.on_text(attempts_text(n)),
            Action::FeedbackText => {
                let t = feedback(s.proposal().expect("a proposal is pending"));
                s.on_text(t)
            }
            Action::Stop => break,
        };
    }
    (s.into_result().expect("session finished"), out)
}

fn no_attempts_text(_: usize) -> String {
    String::new()
}

fn no_str_check(_: u32, _: &str) -> Result<(), String> {
    panic!("no custom raw-text test registered")
}

fn no_value_check<T>(_: u32, _: &T) -> Result<(), String> {
    panic!("no custom typed-value test registered")
}

fn yn_parser(s: &str) -> Result<bool, String> {
    asking::yn_parse(s).ok_or_else(|| "provide a yes/no answer".to_string())
}

fn app_question() -> QuestionBuilder<bool> {
    yn()
        .message("Do you like testing? ")
        .help("Please use format y/n. Try again: ")
}

fn app_feedback(b: &bool) -> String {
    match *b {
        true => "Great!".to_string(),
        false => "Oh no!".to_string(),
    }
}

#[test]
fn app_eof() {
    let (r, out) = run(
        app_question(),
        &["\n"],
        yn_parser,
        no_attempts_text,
        app_feedback,
        no_str_check,
        no_value_check,
    );
    assert_eq!(r, Err(ProcessingError::Eof));
    assert_eq!(out, "Do you like testing? Please use format y/n. Try again: ");
}

#[test]
fn app_input_false() {
    let (r, out) = run(
        app_question(),
        &["false\n"],
        yn_parser,
        no_attempts_text,
        app_feedback,
        no_str_check,
        no_value_check,
    );
    assert_eq!(r, Ok(false));
    assert_eq!(out, "Do you like testing? Oh no!");
}

#[test]
fn input_twice() {
    let (r, out) = run(
        app_question(),
        &["m...\n", "yes"],
        yn_parser,
        no_attempts_text,
        app_feedback,
        no_str_check,
        no_value_check,
    );
    assert_eq!(r, Ok(true));
    assert_eq!(out, "Do you like testing? Please use format y/n. Try again: Great!");
}

fn attempts_question() -> QuestionBuilder<bool> {
    yn().message("Do you like me? (y/n)\n").attempts(Some(3))
}

fn attempts_feedback_text(num: usize) -> String {
    match num {
        3 => "".to_string(),
        2 => "Let's try again, do you like me?\n".to_string(),
        1 => "Okay, last chance! do you like me... a bit?\n".to_string(),
        _ => unreachable!(),
    }
}

fn attempts_value_feedback(value: &bool) -> String {
    match *value {
        true => "I like you too!\n".to_string(),
        false => "Don't worry, we can get know each other with time.\n".to_string(),
    }
}

#[test]
fn attempts_eof() {
    let (r, out) = run(
        attempts_question(),
        &["\n", "\n", "\n", "\n"],
        yn_parser,
        attempts_feedback_text,
        attempts_value_feedback,
        no_str_check,
        no_value_check,
    );
    assert_eq!(r, Err(ProcessingError::NoMoreAttempts));
    assert_eq!(
        out,
        "Do you like me? (y/n)\nLet's try again, do you like me?\nOkay, last chance! do you like me... a bit?\n"
    );
}

#[test]
fn attempts_input_false() {
    let (r, out) = run(
        attempts_question(),
        &["false\n"],
        yn_parser,
        attempts_feedback_text,
        attempts_value_feedback,
        no_str_check,
        no_value_check,
    );
    assert_eq!(r, Ok(false));
    assert_eq!(
        out,
        "Do you like me? (y/n)\nDon't worry, we can get know each other with time.\n"
    );
}

#[test]
fn input_true() {
    let (r, out) = run(
        attempts_question(),
        &["yes\n"],
        yn_parser,
        attempts_feedback_text,
        attempts_value_feedback,
        no_str_check,
        no_value_check,
    );
    assert_eq!(r, Ok(true));
    assert_eq!(out, "Do you like me? (y/n)\nI like you too!\n");
}

fn constrain_question() -> QuestionBuilder<i32> {
    question::<i32>()
        .message("Please input a number between 2 and 4, that is not 3.\n")
        .repeat_help("Please, try again: ")
        .min_with_msg(2, "Remember, from 2 up!")
        .not(3)
        .max(4)
}

fn i32_parser(s: &str) -> Result<i32, String> {
    s.parse::<i32>().map_err(|e| e.to_string())
}

fn constrain_feedback(value: &i32) -> String {
    match *value {
        2 => "You chose 2!".to_string(),
        4 => "You chose 4!".to_string(),
        _ => unreachable!(),
    }
}

#[test]
fn constrain_eof() {
    let (r, out) = run(
        constrain_question(),
        &["\n", "2"],
        i32_parser,
        no_attempts_text,
        constrain_feedback,
        no_str_check,
        no_value_check,
    );
    assert_eq!(r, Ok(2));
    assert_eq!(
        out,
        "Please input a number between 2 and 4, that is not 3.\nPlease, try again: You chose 2!"
    );
}

#[test]
fn input_2() {
    let (r, out) = run(
        constrain_question(),
        &["2\n"],
        i32_parser,
        no_attempts_text,
        constrain_feedback,
        no_str_check,
        no_value_check,
    );
    assert_eq!(r, Ok(2));
    assert_eq!(
        out,
        "Please input a number between 2 and 4, that is not 3.\nYou chose 2!"
    );
}

#[test]
fn input_3() {
    let (r, out) = run(
        constrain_question(),
        &["3\n", "2"],
        i32_parser,
        no_attempts_text,
        constrain_feedback,
        no_str_check,
        no_value_check,
    );
    assert_eq!(r, Ok(2));
    assert_eq!(
        out,
        "Please input a number between 2 and 4, that is not 3.\nThis value is not allowed.\nPlease, try again: You chose 2!"
    );
}

fn date_question() -> QuestionBuilder<chrono::NaiveDate> {
    asking::date()
        .message("Please input your awaited date: ")
        .min(chrono::Local::now().date_naive())
        .help("Use a %Y-%m-%d format please.\n")
}

fn date_parser(s: &str) -> Result<chrono::NaiveDate, String> {
    s.parse::<chrono::NaiveDate>().map_err(|e| e.to_string())
}

#[test]
fn date_eof() {
    let (r, out) = run(
        date_question(),
        &["\n", "2200-01-01"],
        date_parser,
        no_attempts_text,
        |_| "Thank you!".to_string(),
        no_str_check,
        no_value_check,
    );
    assert_eq!(r, Ok(chrono::NaiveDate::from_ymd_opt(2200, 1, 1).unwrap()));
    assert_eq!(
        out,
        "Please input your awaited date: Use a %Y-%m-%d format please.\nThank you!"
    );
}

#[test]
fn date_input() {
    let (r, out) = run(
        date_question(),
        &["2200-01-01\n"],
        date_parser,
        no_attempts_text,
        |_| "Thank you!".to_string(),
        no_str_check,
        no_value_check,
    );
    assert_eq!(r, Ok(chrono::NaiveDate::from_ymd_opt(2200, 1, 1).unwrap()));
    assert_eq!(out, "Please input your awaited date: Thank you!");
}

fn point_parser(s: &str) -> Result<(f64, f64), String> {
    let mut values = Vec::new();
    for sub_s in s.split(',') {
        values.push(sub_s.parse::<f64>().map_err(|_| "Parsing failed.".to_string())?)
    }
    if values.len() == 2 {
        Ok((values[0], values[1]))
    } else {
        Err("Wrong amount of coordinates.".to_string())
    }
}

#[test]
fn extern_struct_eof() {
    let q = question::<(f64, f64)>()
        .parser_feedback_toggle()
        .message("Please input a point in 2D space.\n")
        .help("Use a `x,y` format please :)\n");
    let (r, out) = run(
        q,
        &["\n", "1,1"],
        point_parser,
        no_attempts_text,
        |point| format!("Thank you! Your point is {:?}", point),
        no_str_check,
        no_value_check,
    );
    assert_eq!(r, Ok((1.0, 1.0)));
    assert_eq!(
        out,
        "Please input a point in 2D space.\nUse a `x,y` format please :)\nParsing failed.\nThank you! Your point is (1.0, 1.0)"
    );
}

#[test]
fn inside_eof() {
    let options: Vec<u32> = (5..=100).collect();
    let q = question::<u32>()
        .message("What level is your Pokemon?")
        .inside_with_msg(
            options,
            "It should be at least level 5 and most 100, right? Try again.",
        )
        .required_with_msg("Sorry, I need this. Give me an answer please.");
    let (r, out) = run(
        q,
        &["\n", "1\n", "5"],
        |s| s.parse::<u32>().map_err(|e| e.to_string()),
        no_attempts_text,
        |level| format!("Level {}! That is awesome!\n", level),
        no_str_check,
        no_value_check,
    );
    assert_eq!(r, Ok(5));
    assert_eq!(
        out,
        "What level is your Pokemon?Sorry, I need this. Give me an answer please.\nIt should be at least level 5 and most 100, right? Try again.\nLevel 5! That is awesome!\n"
    );
}

#[test]
fn select_input() {
    let options = vec!["A".to_string(), "B".to_string()];
    let message = format!("Options available {:?}", options);
    let q = select_with_msg(options, &message)
        .message("Which option should I go for? ")
        .help("Try again: ");
    let (r, out) = run(
        q,
        &["\n", "A"],
        |s| Ok(s.to_string()),
        no_attempts_text,
        |_| String::new(),
        no_str_check,
        no_value_check,
    );
    assert_eq!(r, Ok("A".to_string()));
    assert_eq!(
        out,
        "Which option should I go for? Options available [\"A\", \"B\"]\nTry again: "
    );
}

#[test]
fn silent_error_input() {
    let q = question::<u32>()
        .message("Give me a number bigger than 3, please. I will not tell you anything else.\n")
        .test_with_feedback(1)
        .error_formatter(ErrorFormat::Silent);
    let (r, out) = run(
        q,
        &["\n", "\n", "5"],
        |s| s.parse::<u32>().map_err(|e| e.to_string()),
        no_attempts_text,
        |_| String::new(),
        no_str_check,
        |id, v: &u32| {
            assert_eq!(id, 1);
            if *v > 3 {
                Ok(())
            } else {
                Err("The value failed a test.".to_string())
            }
        },
    );
    assert_eq!(r, Ok(5));
    assert_eq!(
        out,
        "Give me a number bigger than 3, please. I will not tell you anything else.\n"
    );
}

fn yn_question() -> QuestionBuilder<bool> {
    yn()
        .message("Shall I continue? (you have 5 seconds to answer) ")
        .help("Please use format y/n. Try again: ")
        .default_value(Some(true))
        .timeout(std::time::Duration::from_secs(5_u64))
}

#[test]
fn default_value() {
    let (r, out) = run(
        yn_question(),
        &["\n"],
        yn_parser,
        no_attempts_text,
        |_| String::new(),
        no_str_check,
        no_value_check,
    );
    assert_eq!(r, Ok(true));
    assert_eq!(out, "Shall I continue? (you have 5 seconds to answer) ");
}

#[test]
fn yn_input_false() {
    let (r, out) = run(
        yn_question(),
        &["false\n"],
        yn_parser,
        no_attempts_text,
        |_| String::new(),
        no_str_check,
        no_value_check,
    );
    assert_eq!(r, Ok(false));
    assert_eq!(out, "Shall I continue? (you have 5 seconds to answer) ");
}

#[test]
fn zero_budget_fails_without_prompt() {
    let q = question::<i32>().message("never shown").attempts(Some(0));
    let (r, out) = run(
        q,
        &["1\n"],
        i32_parser,
        no_attempts_text,
        |_| String::new(),
        no_str_check,
        no_value_check,
    );
    assert_eq!(r, Err(ProcessingError::NoMoreAttempts));
    assert_eq!(out, "");
}

#[test]
fn empty_line_returns_default() {
    let q = question::<i32>().message("Pick a number").default_value(Some(5));
    let (r, out) = run(
        q,
        &["\n"],
        |_| panic!("the parser must not run for an empty line with a default"),
        no_attempts_text,
        |_: &i32| panic!("feedback must not run for a defaulted answer"),
        no_str_check,
        no_value_check,
    );
    assert_eq!(r, Ok(5));
    assert_eq!(out, "Pick a number");
}

#[test]
fn required_ignores_default() {
    let parser_calls = RefCell::new(Vec::new());
    let q = question::<i32>().required().default_value(Some(7)).attempts(Some(2));
    let (r, out) = run(
        q,
        &["\n"],
        |s| {
            parser_calls.borrow_mut().push(s.to_string());
            s.parse::<i32>().map_err(|e| e.to_string())
        },
        no_attempts_text,
        |_| String::new(),
        no_str_check,
        no_value_check,
    );
    // The default is never substituted: the empty line went to the parser
    // (after the required-input warning, an empty message plus the appended
    // line break), consumed one attempt, and the next read hit the end of
    // input.
    assert_eq!(parser_calls.borrow().as_slice(), &["".to_string()]);
    assert_eq!(r, Err(ProcessingError::Eof));
    assert_eq!(out, "\n");
}

#[test]
fn round_trip() {
    let q = question::<i64>();
    let (r, out) = run(
        q,
        &["42\n"],
        |s| s.parse::<i64>().map_err(|e| e.to_string()),
        no_attempts_text,
        |_| String::new(),
        no_str_check,
        no_value_check,
    );
    assert_eq!(r, Ok(42));
    assert_eq!(out, "");
}

#[test]
fn yn_uppercase_yes() {
    let q = yn().message("Continue? ");
    let (r, out) = run(
        q,
        &["YES\n"],
        yn_parser,
        no_attempts_text,
        |b| format!("answered {}", b),
        no_str_check,
        no_value_check,
    );
    assert_eq!(r, Ok(true));
    assert_eq!(out, "Continue? answered true");
}

#[test]
fn attempts_feedback_counts() {
    let q = question::<i32>().attempts(Some(3));
    let (r, out) = run(
        q,
        &["\n", "\n", "\n"],
        i32_parser,
        |n| format!("{} attempts left\n", n),
        |_| String::new(),
        no_str_check,
        no_value_check,
    );
    assert_eq!(r, Err(ProcessingError::NoMoreAttempts));
    assert_eq!(out, "3 attempts left\n2 attempts left\n1 attempts left\n");
}

#[test]
fn custom_str_check() {
    let q = question::<String>().message("m:").str_test_with_feedback(9);
    let (r, out) = run(
        q,
        &["a b\n", "ab\n"],
        |s| Ok(s.to_string()),
        no_attempts_text,
        |_| String::new(),
        |id, s| {
            assert_eq!(id, 9);
            if s.contains(' ') {
                Err("no spaces".to_string())
            } else {
                Ok(())
            }
        },
        no_value_check,
    );
    assert_eq!(r, Ok("ab".to_string()));
    assert_eq!(out, "m:no spaces\n");
}

#[test]
fn length_validators() {
    let q = question::<String>().min_length(2).max_length(5);
    let (r, out) = run(
        q,
        &["a\n", "abcdef\n", "abc\n"],
        |s| Ok(s.to_string()),
        no_attempts_text,
        |_| String::new(),
        no_str_check,
        no_value_check,
    );
    assert_eq!(r, Ok("abc".to_string()));
    assert_eq!(
        out,
        "The input needs to have length at least 2.\nThe input needs to have length at most 5.\n"
    );
}

#[test]
fn preparser_keep_hands_raw_line() {
    let q = question::<i32>().preparser(Preparser::Keep);
    let (r, _out) = run(
        q,
        &["7\n"],
        |s| {
            assert_eq!(s, "7\n");
            s.trim_end().parse::<i32>().map_err(|e| e.to_string())
        },
        no_attempts_text,
        |_| String::new(),
        no_str_check,
        no_value_check,
    );
    assert_eq!(r, Ok(7));
}

#[test]
fn verbatim_formatter() {
    let q = question::<i32>()
        .min_with_msg(5, "too small")
        .error_formatter(ErrorFormat::Verbatim);
    let (r, out) = run(
        q,
        &["1\n", "6\n"],
        i32_parser,
        no_attempts_text,
        |_| String::new(),
        no_str_check,
        no_value_check,
    );
    assert_eq!(r, Ok(6));
    assert_eq!(out, "too small");
}

#[test]
fn repeating_texts_show_every_attempt() {
    let q = question::<i32>().repeat_message("M?").repeat_help("H!");
    let (r, out) = run(
        q,
        &["x\n", "1\n"],
        i32_parser,
        no_attempts_text,
        |_| String::new(),
        no_str_check,
        no_value_check,
    );
    assert_eq!(r, Ok(1));
    assert_eq!(out, "M?H!M?");
}

#[test]
fn within_bounds_test() {
    let q = question::<i32>().min_max_with_msg(2, 4, "between 2 and 4");
    let (r, out) = run(
        q,
        &["5\n", "3\n"],
        i32_parser,
        no_attempts_text,
        |_| String::new(),
        no_str_check,
        no_value_check,
    );
    assert_eq!(r, Ok(3));
    assert_eq!(out, "between 2 and 4\n");
}

#[test]
fn io_fault_aborts() {
    let q = question::<i32>().message("hi");
    let (mut s, a) = q.ask();
    assert!(matches!(a, Action::Write(_)));
    let a2 = s.on_io_error();
    assert!(matches!(a2, Action::Stop));
    assert_eq!(s.into_result(), Some(Err(ProcessingError::Io)));
}

#[test]
fn eof_immediately() {
    let q = question::<i32>();
    let (r, out) = run(
        q,
        &[],
        i32_parser,
        no_attempts_text,
        |_| String::new(),
        no_str_check,
        no_value_check,
    );
    assert_eq!(r, Err(ProcessingError::Eof));
    assert_eq!(out, "");
}
