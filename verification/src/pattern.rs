//! Ready-made question patterns: plain questions, yes/no answers, selecting
//! among options, free text and dates.
//!
//! Each pattern returns a [`QuestionBuilder`] to refine further. The yes/no
//! pattern comes with [`yn_parse`], the parser a driver plugs in when it
//! performs [`Action::Parse`](crate::Action::Parse) for such a question.

use vstd::prelude::*;

use crate::question::{fresh_but_tests, fresh_config, QuestionBuilder, ValueTest};

verus! {

/// Relies on `chrono::NaiveDate` only as an opaque answer type for date
/// questions; the library never looks inside a value of it.
#[verifier::external_type_specification]
#[verifier::external_body]
pub struct ExNaiveDate(chrono::NaiveDate);

/// A question for any answer type, with the fresh default configuration.
pub fn question<T>() -> (r: QuestionBuilder<T>)
    ensures
        fresh_config(r),
{
    QuestionBuilder::new()
}

/// A free-text question.
pub fn text() -> (r: QuestionBuilder<String>)
    ensures
        fresh_config(r),
{
    QuestionBuilder::new()
}

/// A date question; the driver parses the input with a date parser of its
/// choice (commonly the `%Y-%m-%d` format).
pub fn date() -> (r: QuestionBuilder<chrono::NaiveDate>)
    ensures
        fresh_config(r),
{
    QuestionBuilder::new()
}

/// A yes/no question; drive its parsing with [`yn_parse`].
pub fn yn() -> (r: QuestionBuilder<bool>)
    ensures
        fresh_config(r),
{
    QuestionBuilder::new()
}

/// A question whose answer must be one of the options.
pub fn select<T: PartialEq + PartialOrd>(options: Vec<T>) -> (r: QuestionBuilder<T>)
    ensures
        r.tests@.len() == 1,
        r.tests@[0].test == ValueTest::OneOf(options),
        r.tests@[0].message@ == "Value is not one of the options."@,
        r.tests@[0].display == true,
        fresh_but_tests(r),
{
    QuestionBuilder::new().inside(options)
}

/// A question whose answer must be one of the options, displaying a message
/// upon failure.
pub fn select_with_msg<T: PartialEq + PartialOrd>(options: Vec<T>, message: &str) -> (r:
    QuestionBuilder<T>)
    ensures
        r.tests@.len() == 1,
        r.tests@[0].test == ValueTest::OneOf(options),
        r.tests@[0].message@ == message@,
        r.tests@[0].display == true,
        fresh_but_tests(r),
{
    QuestionBuilder::new().inside_with_msg(options, message)
}

/// Which character, if any, a lowercase character is the uppercase form of:
/// the characters compare equal ignoring ASCII case. `lower` is expected
/// lowercase (the eight yes/no words are).
pub open spec fn char_eq_ci(c: char, lower: char) -> bool {
    ||| c == lower
    ||| (65 <= c as u32 <= 90 && (c as u32) + 32 == lower as u32)
}

/// Whether `s` equals `t` ignoring ASCII case, `t` being lowercase.
pub open spec fn ci_matches(s: Seq<char>, t: Seq<char>) -> bool {
    s.len() == t.len() && forall|i: int| 0 <= i < s.len() ==> char_eq_ci(s[i], t[i])
}

/// The yes/no reading of a preprocessed input: `"true"`, `"t"`, `"yes"` and
/// `"y"` mean yes, `"false"`, `"f"`, `"no"` and `"n"` mean no, all ignoring
/// ASCII case; anything else is no answer.
pub open spec fn spec_yn(s: Seq<char>) -> Option<bool> {
    if ci_matches(s, "true"@) || ci_matches(s, "t"@) || ci_matches(s, "yes"@) || ci_matches(
        s,
        "y"@,
    ) {
        Some(true)
    } else if ci_matches(s, "false"@) || ci_matches(s, "f"@) || ci_matches(s, "no"@)
        || ci_matches(s, "n"@) {
        Some(false)
    } else {
        None
    }
}

/// Compares `s` with the lowercase word `t`, ignoring ASCII case in `s`.
fn eq_ci(s: &str, t: &str) -> (r: bool)
    ensures
        r == ci_matches(s@, t@),
{
    let n = s.unicode_len();
    if n != t.unicode_len() {
        return false;
    }
    let mut i: usize = 0;
    while i < n
        invariant
            i <= n,
            n == s@.len(),
            n == t@.len(),
            forall|j: int| 0 <= j < i ==> char_eq_ci(s@[j], t@[j]),
        decreases n - i,
    {
        let cu = s.get_char(i) as u32;
        let du = t.get_char(i) as u32;
        let same = cu == du || (65 <= cu && cu <= 90 && cu + 32 == du);
        if !same {
            return false;
        }
        i += 1;
    }
    true
}

/// Parses a yes/no answer, ignoring ASCII case: `Some(true)` for "true",
/// "t", "yes" and "y", `Some(false)` for "false", "f", "no" and "n", `None`
/// for anything else.
pub fn yn_parse(s: &str) -> (r: Option<bool>)
    ensures
        r == spec_yn(s@),
{
    if eq_ci(s, "true") || eq_ci(s, "t") || eq_ci(s, "yes") || eq_ci(s, "y") {
        Some(true)
    } else if eq_ci(s, "false") || eq_ci(s, "f") || eq_ci(s, "no") || eq_ci(s, "n") {
        Some(false)
    } else {
        None
    }
}

} // verus!
