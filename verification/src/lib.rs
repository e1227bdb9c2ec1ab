//! Interactive line-input prompting, with a verified resolution engine.
//!
//! A [`QuestionBuilder`] collects everything a prompt interaction needs:
//! message and help texts, a default value, staged validation (raw-text
//! tests before parsing, typed-value tests after), an attempt budget, a
//! required flag and an optional timeout. [`QuestionBuilder::ask`] turns the
//! finished configuration into a [`Session`]: a state machine that decides,
//! step by step, what to write, when to read a line, when to parse, and when
//! the interaction ends in a value or a classified failure. The caller
//! performs the I/O, the parsing and any custom tests, and reports each
//! outcome back to the session; every decision in between is verified.

pub mod decimal;
pub mod error;
pub mod pattern;
pub mod question;

pub use pattern::{date, question, select, select_with_msg, text, yn, yn_parse};
pub use question::executor::Executor;
pub use question::session::{Action, AfterWrite, Phase, Session};
pub use question::{
    ErrorFormat, Preparser, QuestionBuilder, StrTest, StrTestEntry, ValueTest, ValueTestEntry,
};
