//! The configuration model of a prompt interaction and its fluent builder.
//!
//! A [`QuestionBuilder`] is plain data: texts, flags, the attempt budget and
//! the ordered validation pipeline. Raw-text tests and typed-value tests are
//! described by [`StrTest`] and [`ValueTest`] values; a `Custom` entry defers
//! one test to the driver of the resolution (see [`session`]), which is how
//! caller-supplied predicates and parsers take part. Every setter returns a
//! new, fully-owned configuration; scalar fields are overwritten, the two
//! test lists only ever grow.

use vstd::prelude::*;

use vstd::string::{StrSliceExecFns, StringExecFns};

use std::time::Duration;

use crate::decimal::{decimal_string, spec_decimal};

pub mod executor;
pub mod session;

use executor::Executor;

verus! {

/// How the raw input line is transformed before any validation.
#[derive(Debug, Clone, Copy, PartialEq, Eq, Structural)]
pub enum Preparser {
    /// Remove trailing whitespace (in particular the line break that ends a
    /// line read from a stream). This is the default.
    TrimEnd,
    /// Hand the raw line through unchanged.
    Keep,
}

/// How a validator's or parser's failure text is transformed before display.
#[derive(Debug, Clone, Copy, PartialEq, Eq, Structural)]
pub enum ErrorFormat {
    /// Append a line break to the failure text. This is the default.
    AppendNewline,
    /// Display the failure text unchanged.
    Verbatim,
    /// Suppress all failure text (help text is still shown).
    Silent,
}

/// A test applied to the preprocessed raw input, before parsing.
///
/// Lengths are counted in characters of the input.
#[derive(Debug, Clone, Copy, PartialEq, Eq, Structural)]
pub enum StrTest {
    /// The input must have exactly this many characters.
    LengthEq(usize),
    /// The input must have at most this many characters.
    LengthAtMost(usize),
    /// The input must have at least this many characters.
    LengthAtLeast(usize),
    /// A test evaluated by the driver of the resolution: when it is reached,
    /// the session hands the input and this identifier out and waits for the
    /// driver's verdict.
    Custom(u32),
}

/// A test applied to the parsed value.
#[derive(Debug, Clone, PartialEq, Eq)]
pub enum ValueTest<T> {
    /// The value must be at most the bound.
    AtMost(T),
    /// The value must be at least the bound.
    AtLeast(T),
    /// The value must be between the two bounds, borders included.
    Within(T, T),
    /// The value must differ from the given one.
    Not(T),
    /// The value must be one of the options.
    OneOf(Vec<T>),
    /// A test evaluated by the driver of the resolution, like
    /// [`StrTest::Custom`].
    Custom(u32),
}

/// One entry of the raw-text validation stage.
#[derive(Debug, Clone, PartialEq, Eq)]
pub struct StrTestEntry {
    pub test: StrTest,
    /// Failure text for the non-custom tests (a custom test reports its own).
    pub message: String,
    /// Whether the failure text is displayed when the test rejects the input.
    pub display: bool,
}

/// One entry of the typed-value validation stage.
#[derive(Debug, Clone, PartialEq, Eq)]
pub struct ValueTestEntry<T> {
    pub test: ValueTest<T>,
    /// Failure text for the non-custom tests (a custom test reports its own).
    pub message: String,
    /// Whether the failure text is displayed when the test rejects the value.
    pub display: bool,
}

/// The full configuration of one prompt interaction, assembled by chained
/// setter calls and then consumed by [`QuestionBuilder::ask`].
#[derive(Debug)]
pub struct QuestionBuilder<T> {
    /// Text written at the top of an attempt.
    pub message: String,
    /// Whether the message is written again on every attempt; if false, it is
    /// cleared after its first display.
    pub repeat_message: bool,
    /// Text shown on any validation or parse failure.
    pub help: String,
    /// Whether the help text is shown on every failure; if false, it is
    /// cleared after its first display.
    pub repeat_help: bool,
    /// Value returned for empty input when the input is not required.
    pub default: Option<T>,
    /// Transformation of the raw line before validation.
    pub preparser: Preparser,
    /// Ordered raw-text tests, run before parsing.
    pub str_tests: Vec<StrTestEntry>,
    /// Whether the parser's failure text is displayed.
    pub parser_display: bool,
    /// Ordered typed-value tests, run after parsing.
    pub tests: Vec<ValueTestEntry<T>>,
    /// Transformation of failure texts before display.
    pub error_format: ErrorFormat,
    /// Time bound for the whole interaction.
    pub executor: Executor,
    /// Attempt budget; `None` means unlimited attempts.
    pub attempts: Option<usize>,
    /// Text shown when input is empty but required.
    pub required_message: String,
    /// Whether empty input is rejected even when a default exists.
    pub required: bool,
}

/// Everything of [`fresh_config`] except that typed-value tests may already
/// be present.
pub open spec fn fresh_but_tests<T>(r: QuestionBuilder<T>) -> bool {
    &&& r.message@ == Seq::<char>::empty()
    &&& r.repeat_message == false
    &&& r.help@ == Seq::<char>::empty()
    &&& r.repeat_help == false
    &&& r.default is None
    &&& r.preparser == Preparser::TrimEnd
    &&& r.str_tests@ == Seq::<StrTestEntry>::empty()
    &&& r.parser_display == false
    &&& r.error_format == ErrorFormat::AppendNewline
    &&& r.executor == Executor::Unbounded
    &&& r.attempts is None
    &&& r.required_message@ == Seq::<char>::empty()
    &&& r.required == false
}

/// A configuration as [`QuestionBuilder::new`] returns it: no texts, no
/// tests, no default, no budget and no timeout; the raw line is trimmed at
/// its end, failure texts get a line break appended, and parse errors are
/// not displayed.
pub open spec fn fresh_config<T>(r: QuestionBuilder<T>) -> bool {
    &&& fresh_but_tests(r)
    &&& r.tests@ == Seq::<ValueTestEntry<T>>::empty()
}

impl<T> QuestionBuilder<T> {
    /// A configuration with no texts, no tests, no default, no budget and no
    /// timeout: the raw line is trimmed at its end, failure texts get a line
    /// break appended, and parse errors are not displayed.
    pub fn new() -> (r: Self)
        ensures
            fresh_config(r),
    {
        QuestionBuilder {
            message: String::new(),
            repeat_message: false,
            help: String::new(),
            repeat_help: false,
            default: None,
            preparser: Preparser::TrimEnd,
            str_tests: Vec::new(),
            parser_display: false,
            tests: Vec::new(),
            error_format: ErrorFormat::AppendNewline,
            executor: Executor::Unbounded,
            attempts: None,
            required_message: String::new(),
            required: false,
        }
    }

    /// Message displayed once, before the first attempt only.
    pub fn message(self, message: &str) -> (r: Self)
        ensures
            r == (QuestionBuilder { message: r.message, repeat_message: false, ..self }),
            r.message@ == message@,
    {
        QuestionBuilder { message: message.to_owned(), repeat_message: false, ..self }
    }

    /// Message displayed again at the top of every attempt.
    pub fn repeat_message(self, message: &str) -> (r: Self)
        ensures
            r == (QuestionBuilder { message: r.message, repeat_message: true, ..self }),
            r.message@ == message@,
    {
        QuestionBuilder { message: message.to_owned(), repeat_message: true, ..self }
    }

    /// Help text displayed after the first failed attempt only.
    pub fn help(self, help: &str) -> (r: Self)
        ensures
            r == (QuestionBuilder { help: r.help, repeat_help: false, ..self }),
            r.help@ == help@,
    {
        QuestionBuilder { help: help.to_owned(), repeat_help: false, ..self }
    }

    /// Help text displayed after every failed attempt.
    pub fn repeat_help(self, help: &str) -> (r: Self)
        ensures
            r == (QuestionBuilder { help: r.help, repeat_help: true, ..self }),
            r.help@ == help@,
    {
        QuestionBuilder { help: help.to_owned(), repeat_help: true, ..self }
    }

    /// Forgets all typed-value tests.
    pub fn clear(self) -> (r: Self)
        ensures
            r == (QuestionBuilder { tests: r.tests, ..self }),
            r.tests@ == Seq::<ValueTestEntry<T>>::empty(),
    {
        QuestionBuilder { tests: Vec::new(), ..self }
    }

    /// Transformation of the raw line before any validation.
    pub fn preparser(self, preparser: Preparser) -> (r: Self)
        ensures
            r == (QuestionBuilder { preparser, ..self }),
    {
        QuestionBuilder { preparser, ..self }
    }

    /// Transformation of failure texts before display.
    pub fn error_formatter(self, error_format: ErrorFormat) -> (r: Self)
        ensures
            r == (QuestionBuilder { error_format, ..self }),
    {
        QuestionBuilder { error_format, ..self }
    }

    /// Toggles whether the parser's failure text is displayed.
    pub fn parser_feedback_toggle(self) -> (r: Self)
        ensures
            r == (QuestionBuilder { parser_display: !self.parser_display, ..self }),
    {
        let flipped = !self.parser_display;
        QuestionBuilder { parser_display: flipped, ..self }
    }

    /// Bound the number of attempts; `None` removes the bound.
    pub fn attempts(self, attempts: Option<usize>) -> (r: Self)
        ensures
            r == (QuestionBuilder { attempts, ..self }),
    {
        QuestionBuilder { attempts, ..self }
    }

    /// Default value returned for empty input when the input is not required;
    /// `None` removes the default.
    pub fn default_value(self, value: Option<T>) -> (r: Self)
        ensures
            r == (QuestionBuilder { default: value, ..self }),
    {
        QuestionBuilder { default: value, ..self }
    }

    /// Requires non-empty input: empty input is never answered with the
    /// default, it proceeds to validation and parsing instead.
    pub fn required(self) -> (r: Self)
        ensures
            r == (QuestionBuilder { required: true, ..self }),
    {
        QuestionBuilder { required: true, ..self }
    }

    /// Requires non-empty input and sets the text shown when an empty line
    /// arrives nevertheless.
    pub fn required_with_msg(self, message: &str) -> (r: Self)
        ensures
            r == (QuestionBuilder {
                required_message: r.required_message,
                required: true,
                ..self
            }),
            r.required_message@ == message@,
    {
        QuestionBuilder { required_message: message.to_owned(), required: true, ..self }
    }

    /// Toggles between requiring and not requiring input.
    pub fn required_toogle(self) -> (r: Self)
        ensures
            r == (QuestionBuilder { required: !self.required, ..self }),
    {
        let flipped = !self.required;
        QuestionBuilder { required: flipped, ..self }
    }

    /// Bound the duration of the whole interaction, feedback included.
    pub fn timeout(self, duration: Duration) -> (r: Self)
        ensures
            r == (QuestionBuilder { executor: Executor::Timeout(duration), ..self }),
    {
        QuestionBuilder { executor: Executor::Timeout(duration), ..self }
    }

    /// Add a raw-text test with a default failure message.
    pub fn str_test(self, test: StrTest) -> (r: Self)
        ensures
            r == (QuestionBuilder { str_tests: r.str_tests, ..self }),
            r.str_tests@ == self.str_tests@.push(r.str_tests@.last()),
            r.str_tests@.last().test == test,
            r.str_tests@.last().message@ == "The input failed a test before being parsed."@,
            r.str_tests@.last().display == true,
    {
        self.str_test_with_msg(test, "The input failed a test before being parsed.")
    }

    /// Add a raw-text test, displaying the given message upon failure.
    pub fn str_test_with_msg(self, test: StrTest, message: &str) -> (r: Self)
        ensures
            r == (QuestionBuilder { str_tests: r.str_tests, ..self }),
            r.str_tests@ == self.str_tests@.push(r.str_tests@.last()),
            r.str_tests@.last().test == test,
            r.str_tests@.last().message@ == message@,
            r.str_tests@.last().display == true,
    {
        let mut str_tests = self.str_tests;
        str_tests.push(StrTestEntry { test, message: message.to_owned(), display: true });
        QuestionBuilder { str_tests, ..self }
    }

    /// Add a raw-text test evaluated by the driver under the given
    /// identifier; the driver's own failure text is displayed.
    pub fn str_test_with_feedback(self, id: u32) -> (r: Self)
        ensures
            r == (QuestionBuilder { str_tests: r.str_tests, ..self }),
            r.str_tests@ == self.str_tests@.push(r.str_tests@.last()),
            r.str_tests@.last().test == StrTest::Custom(id),
            r.str_tests@.last().display == true,
    {
        let mut str_tests = self.str_tests;
        str_tests.push(StrTestEntry { test: StrTest::Custom(id), message: String::new(), display: true });
        QuestionBuilder { str_tests, ..self }
    }

    /// Require the input to have exactly this many characters.
    pub fn length(self, exact_length: usize) -> (r: Self)
        ensures
            r == (QuestionBuilder { str_tests: r.str_tests, ..self }),
            r.str_tests@ == self.str_tests@.push(r.str_tests@.last()),
            r.str_tests@.last().test == StrTest::LengthEq(exact_length),
            r.str_tests@.last().message@ == "The input needs to have length exactly "@
                + spec_decimal(exact_length as nat) + "."@,
            r.str_tests@.last().display == true,
    {
        let msg = String::from_str("The input needs to have length exactly ").concat(
            decimal_string(exact_length).as_str(),
        ).concat(".");
        self.str_test_with_msg(StrTest::LengthEq(exact_length), msg.as_str())
    }

    /// Require an exact character count, displaying a message upon failure.
    pub fn length_with_msg(self, exact_length: usize, message: &str) -> (r: Self)
        ensures
            r == (QuestionBuilder { str_tests: r.str_tests, ..self }),
            r.str_tests@ == self.str_tests@.push(r.str_tests@.last()),
            r.str_tests@.last().test == StrTest::LengthEq(exact_length),
            r.str_tests@.last().message@ == message@,
            r.str_tests@.last().display == true,
    {
        self.str_test_with_msg(StrTest::LengthEq(exact_length), message)
    }

    /// Require the input to have at most this many characters.
    pub fn max_length(self, max_length: usize) -> (r: Self)
        ensures
            r == (QuestionBuilder { str_tests: r.str_tests, ..self }),
            r.str_tests@ == self.str_tests@.push(r.str_tests@.last()),
            r.str_tests@.last().test == StrTest::LengthAtMost(max_length),
            r.str_tests@.last().message@ == "The input needs to have length at most "@
                + spec_decimal(max_length as nat) + "."@,
            r.str_tests@.last().display == true,
    {
        let msg = String::from_str("The input needs to have length at most ").concat(
            decimal_string(max_length).as_str(),
        ).concat(".");
        self.str_test_with_msg(StrTest::LengthAtMost(max_length), msg.as_str())
    }

    /// Require a maximal character count, displaying a message upon failure.
    pub fn max_length_with_msg(self, max_length: usize, message: &str) -> (r: Self)
        ensures
            r == (QuestionBuilder { str_tests: r.str_tests, ..self }),
            r.str_tests@ == self.str_tests@.push(r.str_tests@.last()),
            r.str_tests@.last().test == StrTest::LengthAtMost(max_length),
            r.str_tests@.last().message@ == message@,
            r.str_tests@.last().display == true,
    {
        self.str_test_with_msg(StrTest::LengthAtMost(max_length), message)
    }

    /// Require the input to have at least this many characters.
    pub fn min_length(self, min_length: usize) -> (r: Self)
        ensures
            r == (QuestionBuilder { str_tests: r.str_tests, ..self }),
            r.str_tests@ == self.str_tests@.push(r.str_tests@.last()),
            r.str_tests@.last().test == StrTest::LengthAtLeast(min_length),
            r.str_tests@.last().message@ == "The input needs to have length at least "@
                + spec_decimal(min_length as nat) + "."@,
            r.str_tests@.last().display == true,
    {
        let msg = String::from_str("The input needs to have length at least ").concat(
            decimal_string(min_length).as_str(),
        ).concat(".");
        self.str_test_with_msg(StrTest::LengthAtLeast(min_length), msg.as_str())
    }

    /// Require a minimal character count, displaying a message upon failure.
    pub fn min_length_with_msg(self, min_length: usize, message: &str) -> (r: Self)
        ensures
            r == (QuestionBuilder { str_tests: r.str_tests, ..self }),
            r.str_tests@ == self.str_tests@.push(r.str_tests@.last()),
            r.str_tests@.last().test == StrTest::LengthAtLeast(min_length),
            r.str_tests@.last().message@ == message@,
            r.str_tests@.last().display == true,
    {
        self.str_test_with_msg(StrTest::LengthAtLeast(min_length), message)
    }

    /// Add a typed-value test with a default failure message.
    pub fn test(self, test: ValueTest<T>) -> (r: Self)
        ensures
            r == (QuestionBuilder { tests: r.tests, ..self }),
            r.tests@ == self.tests@.push(r.tests@.last()),
            r.tests@.last().test == test,
            r.tests@.last().message@ == "The value failed a test."@,
            r.tests@.last().display == true,
    {
        self.test_with_msg(test, "The value failed a test.")
    }

    /// Add a typed-value test, displaying the given message upon failure.
    pub fn test_with_msg(self, test: ValueTest<T>, message: &str) -> (r: Self)
        ensures
            r == (QuestionBuilder { tests: r.tests, ..self }),
            r.tests@ == self.tests@.push(r.tests@.last()),
            r.tests@.last().test == test,
            r.tests@.last().message@ == message@,
            r.tests@.last().display == true,
    {
        let mut tests = self.tests;
        tests.push(ValueTestEntry { test, message: message.to_owned(), display: true });
        QuestionBuilder { tests, ..self }
    }

    /// Add a typed-value test evaluated by the driver under the given
    /// identifier; the driver's own failure text is displayed.
    pub fn test_with_feedback(self, id: u32) -> (r: Self)
        ensures
            r == (QuestionBuilder { tests: r.tests, ..self }),
            r.tests@ == self.tests@.push(r.tests@.last()),
            r.tests@.last().test == ValueTest::<T>::Custom(id),
            r.tests@.last().display == true,
    {
        let mut tests = self.tests;
        tests.push(ValueTestEntry { test: ValueTest::Custom(id), message: String::new(), display: true });
        QuestionBuilder { tests, ..self }
    }
}

impl<T: PartialEq + PartialOrd> QuestionBuilder<T> {
    /// Require the value to be one of the options.
    pub fn inside(self, options: Vec<T>) -> (r: Self)
        ensures
            r == (QuestionBuilder { tests: r.tests, ..self }),
            r.tests@ == self.tests@.push(r.tests@.last()),
            r.tests@.last().test == ValueTest::OneOf(options),
            r.tests@.last().message@ == "Value is not one of the options."@,
            r.tests@.last().display == true,
    {
        self.test_with_msg(ValueTest::OneOf(options), "Value is not one of the options.")
    }

    /// Require the value to be one of the options, displaying a message upon
    /// failure.
    pub fn inside_with_msg(self, options: Vec<T>, message: &str) -> (r: Self)
        ensures
            r == (QuestionBuilder { tests: r.tests, ..self }),
            r.tests@ == self.tests@.push(r.tests@.last()),
            r.tests@.last().test == ValueTest::OneOf(options),
            r.tests@.last().message@ == message@,
            r.tests@.last().display == true,
    {
        self.test_with_msg(ValueTest::OneOf(options), message)
    }

    /// Require the value to be at most the bound.
    pub fn max(self, upper_bound: T) -> (r: Self)
        ensures
            r == (QuestionBuilder { tests: r.tests, ..self }),
            r.tests@ == self.tests@.push(r.tests@.last()),
            r.tests@.last().test == ValueTest::AtMost(upper_bound),
            r.tests@.last().message@ == "The value can not be so big."@,
            r.tests@.last().display == true,
    {
        self.test_with_msg(ValueTest::AtMost(upper_bound), "The value can not be so big.")
    }

    /// Require the value to be at most the bound, displaying a message upon
    /// failure.
    pub fn max_with_msg(self, upper_bound: T, message: &str) -> (r: Self)
        ensures
            r == (QuestionBuilder { tests: r.tests, ..self }),
            r.tests@ == self.tests@.push(r.tests@.last()),
            r.tests@.last().test == ValueTest::AtMost(upper_bound),
            r.tests@.last().message@ == message@,
            r.tests@.last().display == true,
    {
        self.test_with_msg(ValueTest::AtMost(upper_bound), message)
    }

    /// Require the value to be at least the bound.
    pub fn min(self, lower_bound: T) -> (r: Self)
        ensures
            r == (QuestionBuilder { tests: r.tests, ..self }),
            r.tests@ == self.tests@.push(r.tests@.last()),
            r.tests@.last().test == ValueTest::AtLeast(lower_bound),
            r.tests@.last().message@ == "The value can not be so small."@,
            r.tests@.last().display == true,
    {
        self.test_with_msg(ValueTest::AtLeast(lower_bound), "The value can not be so small.")
    }

    /// Require the value to be at least the bound, displaying a message upon
    /// failure.
    pub fn min_with_msg(self, lower_bound: T, message: &str) -> (r: Self)
        ensures
            r == (QuestionBuilder { tests: r.tests, ..self }),
            r.tests@ == self.tests@.push(r.tests@.last()),
            r.tests@.last().test == ValueTest::AtLeast(lower_bound),
            r.tests@.last().message@ == message@,
            r.tests@.last().display == true,
    {
        self.test_with_msg(ValueTest::AtLeast(lower_bound), message)
    }

    /// Require the value to be between the bounds, borders included. This
    /// adds two tests, one per bound, each with its default message.
    pub fn min_max(self, lower_bound: T, upper_bound: T) -> (r: Self)
        ensures
            r == (QuestionBuilder { tests: r.tests, ..self }),
            r.tests@.len() == self.tests@.len() + 2,
            r.tests@ == self.tests@.push(r.tests@[r.tests@.len() - 2]).push(r.tests@.last()),
            r.tests@[r.tests@.len() - 2].test == ValueTest::AtLeast(lower_bound),
            r.tests@[r.tests@.len() - 2].message@ == "The value can not be so small."@,
            r.tests@[r.tests@.len() - 2].display == true,
            r.tests@.last().test == ValueTest::AtMost(upper_bound),
            r.tests@.last().message@ == "The value can not be so big."@,
            r.tests@.last().display == true,
    {
        self.min_with_msg(lower_bound, "The value can not be so small.").max_with_msg(
            upper_bound,
            "The value can not be so big.",
        )
    }

    /// Require the value to be between the bounds, borders included,
    /// displaying a message upon failure.
    pub fn min_max_with_msg(self, lower_bound: T, upper_bound: T, message: &str) -> (r: Self)
        ensures
            r == (QuestionBuilder { tests: r.tests, ..self }),
            r.tests@ == self.tests@.push(r.tests@.last()),
            r.tests@.last().test == ValueTest::Within(lower_bound, upper_bound),
            r.tests@.last().message@ == message@,
            r.tests@.last().display == true,
    {
        self.test_with_msg(ValueTest::Within(lower_bound, upper_bound), message)
    }

    /// Require the value to differ from the given one.
    pub fn not(self, other: T) -> (r: Self)
        ensures
            r == (QuestionBuilder { tests: r.tests, ..self }),
            r.tests@ == self.tests@.push(r.tests@.last()),
            r.tests@.last().test == ValueTest::Not(other),
            r.tests@.last().message@ == "This value is not allowed."@,
            r.tests@.last().display == true,
    {
        self.test_with_msg(ValueTest::Not(other), "This value is not allowed.")
    }

    /// Require the value to differ from the given one, displaying a message
    /// upon failure.
    pub fn not_with_msg(self, other: T, message: &str) -> (r: Self)
        ensures
            r == (QuestionBuilder { tests: r.tests, ..self }),
            r.tests@ == self.tests@.push(r.tests@.last()),
            r.tests@.last().test == ValueTest::Not(other),
            r.tests@.last().message@ == message@,
            r.tests@.last().display == true,
    {
        self.test_with_msg(ValueTest::Not(other), message)
    }
}

} // verus!
