//! The resolution engine: a state machine over one prompt interaction.
//!
//! [`QuestionBuilder::ask`](crate::QuestionBuilder::ask) consumes a
//! configuration and yields a [`Session`] together with the first [`Action`].
//! The driver of the resolution performs each action — writing text, reading
//! a line, parsing, running a custom test, rendering attempt feedback or
//! value feedback — and reports the outcome back through the matching
//! `on_*` method, which decides the next action. [`Action::Stop`] ends the
//! interaction; [`Session::into_result`] then hands out the value or the
//! classified failure.
//!
//! All decisions — the attempt budget, the empty-input default, the order of
//! the validation stages, which texts are composed for display — are made
//! here and verified. Only the I/O itself, the parser and the custom tests
//! are the driver's work.

use vstd::prelude::*;

use vstd::std_specs::cmp::{PartialEqSpec, PartialOrdSpec, PartialEqIs, PartialOrdIs};
use vstd::string::{StrSliceExecFns, StringExecFns};

use crate::error::ProcessingError;
use crate::question::{
    ErrorFormat, Preparser, QuestionBuilder, StrTest, StrTestEntry, ValueTest, ValueTestEntry,
};

verus! {

/// What the result of trimming trailing whitespace from a text is.
pub uninterp spec fn trim_end_of(s: Seq<char>) -> Seq<char>;

/// Relies on `str::trim_end`: it removes trailing whitespace and returns a
/// prefix of its input, so an empty input stays empty.
#[verifier::external_body]
fn trim_end_ws(s: &str) -> (r: String)
    ensures
        r@ == trim_end_of(s@),
        r@.len() <= s@.len(),
        r@ == s@.take(r@.len() as int),
        s@.len() == 0 ==> r@.len() == 0,
{
    s.trim_end().to_string()
}

/// What one step of the resolution asks its driver to do next.
///
/// Every action that carries text or expects an answer has a matching
/// `on_*` method on [`Session`] through which the driver reports back.
#[derive(Debug)]
pub enum Action {
    /// Write this text to the output and flush; report with
    /// [`Session::on_wrote`] (or [`Session::on_io_error`]).
    Write(String),
    /// Read one line from the input; report with [`Session::on_line`],
    /// [`Session::on_eof`] or [`Session::on_io_error`].
    Read,
    /// Parse this preprocessed input into a value; report with
    /// [`Session::on_parsed`].
    Parse(String),
    /// Run the custom raw-text test with this identifier on this input;
    /// report with [`Session::on_checked`].
    StrCheck(u32, String),
    /// Run the custom typed-value test with this identifier on the current
    /// proposal (see [`Session::proposal`]); report with
    /// [`Session::on_checked`].
    ValueCheck(u32),
    /// Render the attempt feedback for this remaining count; report the text
    /// with [`Session::on_text`].
    AttemptsText(usize),
    /// Render the feedback for the accepted value (see
    /// [`Session::proposal`]); report the text with [`Session::on_text`].
    FeedbackText,
    /// The interaction is over; take the outcome with
    /// [`Session::into_result`].
    Stop,
}

/// What the session does once a pending [`Action::Write`] has completed.
#[derive(Debug)]
pub enum AfterWrite<T> {
    /// Ask the driver to render the attempt feedback.
    QueryAttempts,
    /// Read the next line.
    ReadInput,
    /// Restart the resolution loop at the attempt check.
    Restart,
    /// Parse this preprocessed input.
    ParseInput(String),
    /// Finish successfully with this value.
    Finish(T),
}

/// Where a [`Session`] stands between two steps.
#[derive(Debug)]
pub enum Phase<T> {
    /// A write is pending.
    AwaitWrite(AfterWrite<T>),
    /// The driver renders the attempt feedback for this remaining count.
    AwaitAttemptsText(usize),
    /// A read is pending.
    AwaitLine,
    /// The parser runs on the input handed out with [`Action::Parse`].
    AwaitParsed,
    /// A custom raw-text test runs on this input, which sits at this index
    /// of the raw-text test list.
    AwaitStrCheck(String, usize),
    /// A custom typed-value test runs on this proposal, which sits at this
    /// index of the typed-value test list.
    AwaitValueCheck(T, usize),
    /// The driver renders the feedback for this accepted value.
    AwaitFeedbackText(T),
    /// The interaction is over.
    Finished(Result<T, ProcessingError>),
}

/// One prompt interaction in progress: the configuration it consumes plus
/// the phase it stands in.
#[derive(Debug)]
pub struct Session<T> {
    pub config: QuestionBuilder<T>,
    pub phase: Phase<T>,
}

/// The failure-text transformation, as a function of sequences.
pub open spec fn spec_fmt(f: ErrorFormat, msg: Seq<char>) -> Seq<char> {
    match f {
        ErrorFormat::AppendNewline => msg + "\n"@,
        ErrorFormat::Verbatim => msg,
        ErrorFormat::Silent => Seq::<char>::empty(),
    }
}

/// The input preprocessing, as a function of sequences.
pub open spec fn spec_preparse(p: Preparser, s: Seq<char>) -> Seq<char> {
    match p {
        Preparser::TrimEnd => trim_end_of(s),
        Preparser::Keep => s,
    }
}

/// Whether a non-custom raw-text test accepts an input.
pub open spec fn spec_str_holds(t: StrTest, s: Seq<char>) -> bool {
    match t {
        StrTest::LengthEq(n) => s.len() == n,
        StrTest::LengthAtMost(n) => s.len() <= n,
        StrTest::LengthAtLeast(n) => s.len() >= n,
        StrTest::Custom(_) => true,
    }
}

/// Whether both comparison operators of `T` obey their specifications, so
/// that the typed-value tests are pinned down exactly.
pub open spec fn obeys_value_cmp<T: PartialEq + PartialOrd>() -> bool {
    &&& <T as PartialEqSpec>::obeys_eq_spec()
    &&& <T as PartialOrdSpec>::obeys_partial_cmp_spec()
}

/// Whether a non-custom typed-value test accepts a value, in terms of the
/// comparison specifications of `T`.
pub open spec fn spec_value_holds<T: PartialEq + PartialOrd>(t: ValueTest<T>, v: T) -> bool {
    match t {
        ValueTest::AtMost(b) => v.is_le(&b),
        ValueTest::AtLeast(b) => v.is_ge(&b),
        ValueTest::Within(lo, hi) => v.is_ge(&lo) && v.is_le(&hi),
        ValueTest::Not(o) => v.is_ne(&o),
        ValueTest::OneOf(opts) => exists|i: int| 0 <= i < opts@.len() && opts@[i].eq_spec(&v),
        ValueTest::Custom(_) => true,
    }
}

/// The first index at or after `start` where the raw-text stage stops: a
/// custom test that must be handed to the driver, or a failing test. The
/// list's length if every remaining test passes.
pub open spec fn next_str_event(tests: Seq<StrTestEntry>, s: Seq<char>, start: int) -> int
    decreases tests.len() - start,
{
    if start < 0 || start >= tests.len() {
        tests.len() as int
    } else if tests[start].test is Custom || !spec_str_holds(tests[start].test, s) {
        start
    } else {
        next_str_event(tests, s, start + 1)
    }
}

/// The first index at or after `start` where the typed-value stage stops,
/// like [`next_str_event`].
pub open spec fn next_value_event<T: PartialEq + PartialOrd>(
    tests: Seq<ValueTestEntry<T>>,
    v: T,
    start: int,
) -> int
    decreases tests.len() - start,
{
    if start < 0 || start >= tests.len() {
        tests.len() as int
    } else if tests[start].test is Custom || !spec_value_holds(tests[start].test, v) {
        start
    } else {
        next_value_event(tests, v, start + 1)
    }
}

/// The text written when a validator or the parser rejects an attempt: the
/// transformed failure text (if display is enabled) and the help text, in
/// the given order.
pub open spec fn fail_text(
    f: ErrorFormat,
    help: Seq<char>,
    err: Seq<char>,
    display: bool,
    error_first: bool,
) -> Seq<char> {
    let e = if display {
        spec_fmt(f, err)
    } else {
        Seq::<char>::empty()
    };
    if error_first {
        e + help
    } else {
        help + e
    }
}

/// The returned action always matches the phase the session moved to, so
/// a driver that answers the pending action through the matching `on_*`
/// method meets that method's precondition.
pub open spec fn action_expects<T>(s: Session<T>, a: Action) -> bool {
    match a {
        Action::Write(_) => s.phase is AwaitWrite,
        Action::Read => s.phase is AwaitLine,
        Action::Parse(_) => s.phase is AwaitParsed,
        Action::StrCheck(_, _) => s.phase is AwaitStrCheck,
        Action::ValueCheck(_) => s.phase is AwaitValueCheck,
        Action::AttemptsText(_) => s.phase is AwaitAttemptsText,
        Action::FeedbackText => s.phase is AwaitFeedbackText,
        Action::Stop => s.phase is Finished,
    }
}

/// `post` is `pre` with the help text consumed by one display: cleared
/// unless it repeats, everything else unchanged.
pub open spec fn help_taken<T>(pre: QuestionBuilder<T>, post: QuestionBuilder<T>) -> bool {
    &&& post == (QuestionBuilder { help: post.help, ..pre })
    &&& post.help@ == (if pre.repeat_help {
        pre.help@
    } else {
        Seq::<char>::empty()
    })
}

/// The attempt budget after one line has been consumed.
pub open spec fn dec_attempts(att: Option<usize>) -> Option<usize>
    recommends
        att != Some(0usize),
{
    match att {
        Some(n) => Some((n - 1) as usize),
        None => None,
    }
}

/// The loop-top transition of the resolution: the attempt check and, when
/// attempts remain, the message display. With an exhausted budget the
/// session fails with `NoMoreAttempts` at once, before anything is written.
/// Otherwise the message is handed out for writing (and cleared unless it
/// repeats), and what follows the write is the attempt-feedback query when a
/// budget exists, else the read.
pub open spec fn begin_transition<T>(
    pre: QuestionBuilder<T>,
    post: Session<T>,
    a: Action,
) -> bool {
    if pre.attempts == Some(0usize) {
        &&& post.config == pre
        &&& post.phase == Phase::<T>::Finished(Err(ProcessingError::NoMoreAttempts))
        &&& a is Stop
    } else {
        &&& a matches Action::Write(w) && w@ == pre.message@
        &&& post.config == (QuestionBuilder { message: post.config.message, ..pre })
        &&& post.config.message@ == (if pre.repeat_message {
            pre.message@
        } else {
            Seq::<char>::empty()
        })
        &&& post.phase == Phase::<T>::AwaitWrite(
            if pre.attempts is Some {
                AfterWrite::QueryAttempts
            } else {
                AfterWrite::ReadInput
            },
        )
    }
}

/// The raw-text validation stage on `input`, entered at `start`, starting
/// from configuration `preq`: either a custom test is handed out, or the
/// first failing test composes its failure text with the help text and the
/// loop restarts, or the stage is passed and the input goes to the parser —
/// preceded, when the input is empty but required, by the help text and the
/// required-input warning (a display-only step: parsing still follows).
pub open spec fn str_stage_transition<T>(
    preq: QuestionBuilder<T>,
    input: Seq<char>,
    start: int,
    post: Session<T>,
    a: Action,
) -> bool {
    let tests = preq.str_tests@;
    let k = next_str_event(tests, input, start);
    if k < tests.len() {
        if tests[k].test is Custom {
            &&& a matches Action::StrCheck(cid, s) && cid == tests[k].test->Custom_0 && s@
                == input
            &&& post.phase matches Phase::AwaitStrCheck(inp, i) && inp@ == input && i == k
            &&& post.config == preq
        } else {
            &&& a matches Action::Write(w) && w@ == fail_text(
                preq.error_format,
                preq.help@,
                tests[k].message@,
                tests[k].display,
                true,
            )
            &&& post.phase == Phase::<T>::AwaitWrite(AfterWrite::Restart)
            &&& help_taken(preq, post.config)
        }
    } else {
        if input.len() == 0 && preq.required {
            &&& a matches Action::Write(w) && w@ == preq.help@ + spec_fmt(
                preq.error_format,
                preq.required_message@,
            )
            &&& post.phase matches Phase::AwaitWrite(AfterWrite::ParseInput(s)) && s@ == input
            &&& help_taken(preq, post.config)
        } else {
            &&& a matches Action::Parse(s) && s@ == input
            &&& post.phase is AwaitParsed
            &&& post.config == preq
        }
    }
}

/// The typed-value validation stage on proposal `v`, entered at `start`,
/// like [`str_stage_transition`]; once every test has passed, the value
/// feedback is queried.
pub open spec fn value_stage_transition<T: PartialEq + PartialOrd>(
    preq: QuestionBuilder<T>,
    v: T,
    start: int,
    post: Session<T>,
    a: Action,
) -> bool {
    let tests = preq.tests@;
    let k = next_value_event(tests, v, start);
    if k < tests.len() {
        if tests[k].test is Custom {
            &&& a == Action::ValueCheck(tests[k].test->Custom_0)
            &&& post.phase matches Phase::AwaitValueCheck(w, i) && w == v && i == k
            &&& post.config == preq
        } else {
            &&& a matches Action::Write(w) && w@ == fail_text(
                preq.error_format,
                preq.help@,
                tests[k].message@,
                tests[k].display,
                true,
            )
            &&& post.phase == Phase::<T>::AwaitWrite(AfterWrite::Restart)
            &&& help_taken(preq, post.config)
        }
    } else {
        &&& a is FeedbackText
        &&& post.phase matches Phase::AwaitFeedbackText(w) && w == v
        &&& post.config == preq
    }
}

impl<T> Session<T> {
    /// The phases a session can actually reach: the attempt budget is never
    /// exhausted while a read is pending (the loop-top check rules that
    /// out), a pending attempt-feedback query matches the budget, and a
    /// pending custom check points at a custom entry of its list.
    pub open spec fn wf(&self) -> bool {
        &&& (self.phase matches Phase::AwaitWrite(AfterWrite::QueryAttempts)
            ==> self.config.attempts matches Some(n) && n > 0)
        &&& (self.phase matches Phase::AwaitAttemptsText(n)
            ==> self.config.attempts == Some(n) && n > 0)
        &&& (self.phase matches Phase::AwaitWrite(AfterWrite::ReadInput)
            ==> self.config.attempts != Some(0usize))
        &&& (self.phase is AwaitLine ==> self.config.attempts != Some(0usize))
        &&& (self.phase matches Phase::AwaitStrCheck(_, i)
            ==> i < self.config.str_tests@.len() && self.config.str_tests@[i as int].test matches
                StrTest::Custom(_))
        &&& (self.phase matches Phase::AwaitValueCheck(_, i)
            ==> i < self.config.tests@.len() && self.config.tests@[i as int].test matches ValueTest::Custom(
                _,
            ))
    }

    /// The outcome of a finished session: the accepted value or the
    /// classified failure; `None` while the interaction is still running.
    pub fn into_result(self) -> (r: Option<Result<T, ProcessingError>>)
        ensures
            (self.phase matches Phase::Finished(out) ==> r == Some(out)),
            (!(self.phase is Finished) ==> r is None),
    {
        match self.phase {
            Phase::Finished(out) => Some(out),
            _ => None,
        }
    }

    /// The parsed value a pending [`Action::ValueCheck`] or
    /// [`Action::FeedbackText`] is about; `None` in every other phase.
    pub fn proposal(&self) -> (r: Option<&T>)
        ensures
            (self.phase matches Phase::AwaitValueCheck(v, _) ==> r matches Some(x) && *x == v),
            (self.phase matches Phase::AwaitFeedbackText(v) ==> r matches Some(x) && *x == v),
            (match self.phase {
                Phase::AwaitValueCheck(..) => true,
                Phase::AwaitFeedbackText(..) => true,
                _ => r is None,
            }),
    {
        match &self.phase {
            Phase::AwaitValueCheck(v, _) => Some(v),
            Phase::AwaitFeedbackText(v) => Some(v),
            _ => None,
        }
    }

    /// The help text due for one display: hands the current help text out
    /// and clears it unless it repeats.
    fn take_help(&mut self) -> (h: String)
        ensures
            h == old(self).config.help,
            help_taken(old(self).config, final(self).config),
            final(self).phase == old(self).phase,
    {
        let h = self.config.help.clone();
        if !self.config.repeat_help {
            self.config.help = String::new();
        }
        h
    }

    /// Composes the text of a rejected attempt (failure text and help, in
    /// the given order) and lines the session up for a restart.
    fn fail_restart(&mut self, err_msg: String, display: bool, error_first: bool) -> (a: Action)
        ensures
            a matches Action::Write(w) && w@ == fail_text(
                old(self).config.error_format,
                old(self).config.help@,
                err_msg@,
                display,
                error_first,
            ),
            final(self).phase == Phase::<T>::AwaitWrite(AfterWrite::Restart),
            help_taken(old(self).config, final(self).config),
    {
        let e = if display {
            fmt_exec(self.config.error_format, err_msg)
        } else {
            String::new()
        };
        let h = self.take_help();
        let w = if error_first {
            e.concat(h.as_str())
        } else {
            h.concat(e.as_str())
        };
        self.phase = Phase::AwaitWrite(AfterWrite::Restart);
        Action::Write(w)
    }

    /// The loop top: attempt check, then message display. See
    /// [`begin_transition`].
    fn begin(&mut self) -> (a: Action)
        ensures
            begin_transition(old(self).config, *final(self), a),
            final(self).wf(),
            action_expects(*final(self), a),
    {
        if let Some(n) = self.config.attempts {
            if n == 0 {
                self.phase = Phase::Finished(Err(ProcessingError::NoMoreAttempts));
                return Action::Stop;
            }
        }
        let msg = self.config.message.clone();
        if !self.config.repeat_message {
            self.config.message = String::new();
        }
        self.phase = Phase::AwaitWrite(
            if self.config.attempts.is_some() {
                AfterWrite::QueryAttempts
            } else {
                AfterWrite::ReadInput
            },
        );
        Action::Write(msg)
    }
}

/// The failure-text transformation, executably.
fn fmt_exec(f: ErrorFormat, msg: String) -> (r: String)
    ensures
        r@ == spec_fmt(f, msg@),
{
    match f {
        ErrorFormat::AppendNewline => msg.concat("\n"),
        ErrorFormat::Verbatim => msg,
        ErrorFormat::Silent => String::new(),
    }
}

/// Evaluates a non-custom raw-text test.
fn eval_str(t: &StrTest, s: &str) -> (r: bool)
    requires
        !(t is Custom),
    ensures
        r == spec_str_holds(*t, s@),
{
    match t {
        StrTest::LengthEq(n) => s.unicode_len() == *n,
        StrTest::LengthAtMost(n) => s.unicode_len() <= *n,
        StrTest::LengthAtLeast(n) => s.unicode_len() >= *n,
        StrTest::Custom(_) => true,
    }
}

/// Evaluates a non-custom typed-value test. The result is pinned down when
/// the comparison operators of `T` obey their specifications.
fn eval_value<T: PartialEq + PartialOrd>(t: &ValueTest<T>, v: &T) -> (r: bool)
    requires
        !(t is Custom),
    ensures
        obeys_value_cmp::<T>() ==> r == spec_value_holds(*t, *v),
{
    match t {
        ValueTest::AtMost(b) => v.le(b),
        ValueTest::AtLeast(b) => v.ge(b),
        ValueTest::Within(lo, hi) => v.ge(lo) && v.le(hi),
        ValueTest::Not(o) => v.ne(o),
        ValueTest::OneOf(opts) => {
            let mut i: usize = 0;
            while i < opts.len()
                invariant
                    i <= opts.len(),
                    t is OneOf,
                    t->OneOf_0 == *opts,
                    obeys_value_cmp::<T>() ==> forall|j: int|
                        0 <= j < i ==> !opts@[j].eq_spec(v),
                decreases opts.len() - i,
            {
                if opts[i].eq(v) {
                    proof {
                        if obeys_value_cmp::<T>() {
                            assert(opts@[i as int].eq_spec(v));
                        }
                    }
                    return true;
                }
                i += 1;
            }
            false
        },
        ValueTest::Custom(_) => true,
    }
}

impl<T: PartialEq + PartialOrd> QuestionBuilder<T> {
    /// Begins the resolution of this configuration, consuming it.
    ///
    /// The session decides; the caller performs each returned [`Action`] and
    /// reports back until [`Action::Stop`] arrives.
    ///
    /// With an attempt budget of zero the interaction is over at once: the
    /// very first action is [`Action::Stop`], the outcome is
    /// `NoMoreAttempts`, and in particular the message is never handed out
    /// for writing.
    pub fn ask(self) -> (r: (Session<T>, Action))
        ensures
            begin_transition(self, r.0, r.1),
            r.0.wf(),
            action_expects(r.0, r.1),
            self.attempts == Some(0usize) ==> r.1 is Stop && r.0.phase == Phase::<T>::Finished(
                Err(ProcessingError::NoMoreAttempts),
            ),
    {
        let mut s = Session { config: self, phase: Phase::AwaitLine };
        let a = s.begin();
        (s, a)
    }
}

impl<T: PartialEq + PartialOrd> Session<T> {
    /// Runs the raw-text stage on `input` from index `start` onwards.
    fn advance_str_tests(&mut self, input: String, start: usize) -> (a: Action)
        requires
            start as int <= old(self).config.str_tests@.len(),
        ensures
            str_stage_transition(old(self).config, input@, start as int, *final(self), a),
            final(self).config.attempts == old(self).config.attempts,
            final(self).wf(),
            action_expects(*final(self), a),
            !(final(self).phase is Finished),
            !(a is Stop),
    {
        let ghost tests = self.config.str_tests@;
        let mut i: usize = start;
        while i < self.config.str_tests.len()
            invariant
                start <= i <= tests.len(),
                self.config.str_tests@ == tests,
                *self == *old(self),
                next_str_event(tests, input@, start as int) == next_str_event(
                    tests,
                    input@,
                    i as int,
                ),
            decreases tests.len() - i,
        {
            let test = self.config.str_tests[i].test;
            match test {
                StrTest::Custom(id) => {
                    let handed = input.clone();
                    self.phase = Phase::AwaitStrCheck(input, i);
                    return Action::StrCheck(id, handed);
                },
                _ => {
                    if !eval_str(&test, input.as_str()) {
                        let msg = self.config.str_tests[i].message.clone();
                        let display = self.config.str_tests[i].display;
                        return self.fail_restart(msg, display, true);
                    }
                },
            }
            i += 1;
        }
        if input.as_str().is_empty() && self.config.required {
            let h = self.take_help();
            let rm = self.config.required_message.clone();
            let e = fmt_exec(self.config.error_format, rm);
            let w = h.concat(e.as_str());
            self.phase = Phase::AwaitWrite(AfterWrite::ParseInput(input));
            return Action::Write(w);
        }
        self.phase = Phase::AwaitParsed;
        Action::Parse(input)
    }

    /// Runs the typed-value stage on proposal `v` from index `start`
    /// onwards.
    fn advance_value_tests(&mut self, v: T, start: usize) -> (a: Action)
        requires
            start as int <= old(self).config.tests@.len(),
        ensures
            obeys_value_cmp::<T>() ==> value_stage_transition(
                old(self).config,
                v,
                start as int,
                *final(self),
                a,
            ),
            final(self).config.attempts == old(self).config.attempts,
            final(self).wf(),
            action_expects(*final(self), a),
            a is ValueCheck || a is Write || a is FeedbackText,
            !(final(self).phase is Finished),
    {
        let ghost tests = self.config.tests@;
        let mut i: usize = start;
        while i < self.config.tests.len()
            invariant
                start <= i <= tests.len(),
                self.config.tests@ == tests,
                *self == *old(self),
                obeys_value_cmp::<T>() ==> next_value_event(tests, v, start as int)
                    == next_value_event(tests, v, i as int),
            decreases tests.len() - i,
        {
            let is_custom = matches!(self.config.tests[i].test, ValueTest::Custom(_));
            if is_custom {
                let id = match self.config.tests[i].test {
                    ValueTest::Custom(id) => id,
                    _ => 0,
                };
                self.phase = Phase::AwaitValueCheck(v, i);
                return Action::ValueCheck(id);
            }
            if !eval_value(&self.config.tests[i].test, &v) {
                let msg = self.config.tests[i].message.clone();
                let display = self.config.tests[i].display;
                return self.fail_restart(msg, display, true);
            }
            i += 1;
        }
        self.phase = Phase::AwaitFeedbackText(v);
        Action::FeedbackText
    }

    /// Reports that a pending write completed. The session moves on to
    /// whatever the write was for: querying attempt feedback, reading,
    /// restarting the loop, parsing, or finishing with the accepted value.
    pub fn on_wrote(&mut self) -> (a: Action)
        requires
            old(self).wf(),
            old(self).phase is AwaitWrite,
        ensures
            final(self).wf(),
            action_expects(*final(self), a),
            (old(self).phase matches Phase::AwaitWrite(AfterWrite::QueryAttempts) ==> {
                &&& old(self).config.attempts matches Some(n) && a == Action::AttemptsText(n)
                    && final(self).phase == Phase::<T>::AwaitAttemptsText(n)
                &&& final(self).config == old(self).config
            }),
            (old(self).phase matches Phase::AwaitWrite(AfterWrite::ReadInput) ==> a is Read
                && final(self).phase is AwaitLine && final(self).config == old(self).config),
            (old(self).phase matches Phase::AwaitWrite(AfterWrite::Restart) ==> begin_transition(
                old(self).config,
                *final(self),
                a,
            )),
            (old(self).phase matches Phase::AwaitWrite(AfterWrite::ParseInput(inp)) ==> a
                matches Action::Parse(s) && s == inp && final(self).phase is AwaitParsed
                && final(self).config == old(self).config),
            (old(self).phase matches Phase::AwaitWrite(AfterWrite::Finish(v)) ==> a is Stop
                && final(self).phase == Phase::<T>::Finished(Ok(v)) && final(self).config == old(
                self,
            ).config),
    {
        let mut ph = Phase::AwaitLine;
        core::mem::swap(&mut ph, &mut self.phase);
        match ph {
            Phase::AwaitWrite(AfterWrite::QueryAttempts) => {
                let n = match self.config.attempts {
                    Some(n) => n,
                    None => 0,
                };
                self.phase = Phase::AwaitAttemptsText(n);
                Action::AttemptsText(n)
            },
            Phase::AwaitWrite(AfterWrite::ReadInput) => {
                self.phase = Phase::AwaitLine;
                Action::Read
            },
            Phase::AwaitWrite(AfterWrite::Restart) => self.begin(),
            Phase::AwaitWrite(AfterWrite::ParseInput(inp)) => {
                self.phase = Phase::AwaitParsed;
                Action::Parse(inp)
            },
            Phase::AwaitWrite(AfterWrite::Finish(v)) => {
                self.phase = Phase::Finished(Ok(v));
                Action::Stop
            },
            // Unreachable under the precondition; fail closed if an
            // unverified caller violates the protocol.
            _ => {
                self.phase = Phase::Finished(Err(ProcessingError::Io));
                Action::Stop
            },
        }
    }

    /// Reports a line read from the input.
    ///
    /// The line is preprocessed and one attempt is consumed (the loop-top
    /// check guarantees the budget was not already exhausted, so the count
    /// cannot wrap). If the preprocessed input is empty, the input is not
    /// required and a default exists, the session finishes with the default
    /// at once: no validator, no parser and no feedback run. If the input is
    /// required, the default is never consulted, an empty line included:
    /// the input proceeds to validation and parsing.
    pub fn on_line(&mut self, line: String) -> (a: Action)
        requires
            old(self).wf(),
            old(self).phase is AwaitLine,
        ensures
            final(self).wf(),
            action_expects(*final(self), a),
            final(self).config.attempts == dec_attempts(old(self).config.attempts),
            ({
                let input = spec_preparse(old(self).config.preparser, line@);
                let dq = (QuestionBuilder {
                    attempts: dec_attempts(old(self).config.attempts),
                    ..old(self).config
                });
                if input.len() == 0 && !dq.required && dq.default is Some {
                    &&& a is Stop
                    &&& final(self).phase == Phase::<T>::Finished(Ok(dq.default.unwrap()))
                    &&& final(self).config == (QuestionBuilder { default: None, ..dq })
                } else {
                    str_stage_transition(dq, input, 0, *final(self), a)
                }
            }),
            old(self).config.default matches Some(d) ==> (!old(self).config.required && spec_preparse(
                old(self).config.preparser,
                line@,
            ).len() == 0 ==> a is Stop && final(self).phase == Phase::<T>::Finished(Ok(d))),
            old(self).config.required ==> !(final(self).phase is Finished) && final(self).config.default
                == old(self).config.default && !(a is Stop),
    {
        if let Some(n) = self.config.attempts {
            self.config.attempts = Some(n - 1);
        }
        let input = match self.config.preparser {
            Preparser::TrimEnd => trim_end_ws(line.as_str()),
            Preparser::Keep => line,
        };
        if input.as_str().is_empty() && !self.config.required && self.config.default.is_some() {
            let d = self.config.default.take();
            self.phase = Phase::Finished(Ok(d.unwrap()));
            return Action::Stop;
        }
        self.advance_str_tests(input, 0)
    }

    /// Reports that the input ended before a line could be read: the whole
    /// interaction fails with `Eof`.
    pub fn on_eof(&mut self) -> (a: Action)
        requires
            old(self).phase is AwaitLine,
        ensures
            final(self).wf(),
            action_expects(*final(self), a),
            a is Stop,
            final(self).phase == Phase::<T>::Finished(Err(ProcessingError::Eof)),
            final(self).config == old(self).config,
    {
        self.phase = Phase::Finished(Err(ProcessingError::Eof));
        Action::Stop
    }

    /// Reports that a read or write faulted: the whole interaction fails
    /// with `Io` at the point the fault occurred.
    pub fn on_io_error(&mut self) -> (a: Action)
        ensures
            final(self).wf(),
            action_expects(*final(self), a),
            a is Stop,
            final(self).phase == Phase::<T>::Finished(Err(ProcessingError::Io)),
            final(self).config == old(self).config,
    {
        self.phase = Phase::Finished(Err(ProcessingError::Io));
        Action::Stop
    }

    /// Reports the parser's verdict on the input handed out with
    /// [`Action::Parse`]. A value proceeds to the typed-value stage; a
    /// failure displays the help text and, if enabled, the transformed
    /// failure text, then restarts the loop.
    pub fn on_parsed(&mut self, outcome: Result<T, String>) -> (a: Action)
        requires
            old(self).wf(),
            old(self).phase is AwaitParsed,
        ensures
            final(self).wf(),
            action_expects(*final(self), a),
            final(self).config.attempts == old(self).config.attempts,
            (outcome matches Ok(v) ==> (obeys_value_cmp::<T>() ==> value_stage_transition(
                old(self).config,
                v,
                0,
                *final(self),
                a,
            ))),
            (outcome matches Err(e) ==> {
                &&& a matches Action::Write(w) && w@ == fail_text(
                    old(self).config.error_format,
                    old(self).config.help@,
                    e@,
                    old(self).config.parser_display,
                    false,
                )
                &&& final(self).phase == Phase::<T>::AwaitWrite(AfterWrite::Restart)
                &&& help_taken(old(self).config, final(self).config)
            }),
            (outcome is Ok ==> !(final(self).phase is Finished) && !(a is Stop)),
    {
        match outcome {
            Ok(v) => self.advance_value_tests(v, 0),
            Err(e) => {
                let display = self.config.parser_display;
                self.fail_restart(e, display, false)
            },
        }
    }

    /// Reports the verdict of the custom test handed out with
    /// [`Action::StrCheck`] or [`Action::ValueCheck`]. Acceptance resumes
    /// the stage behind the custom entry; rejection displays the reported
    /// failure text (if the entry displays) and the help text, then
    /// restarts the loop.
    pub fn on_checked(&mut self, outcome: Result<(), String>) -> (a: Action)
        requires
            old(self).wf(),
            old(self).phase is AwaitStrCheck || old(self).phase is AwaitValueCheck,
        ensures
            final(self).wf(),
            action_expects(*final(self), a),
            final(self).config.attempts == old(self).config.attempts,
            old(self).phase matches Phase::AwaitStrCheck(inp, i) ==> (outcome matches Ok(u)
                ==> str_stage_transition(old(self).config, inp@, i + 1, *final(self), a)),
            old(self).phase matches Phase::AwaitStrCheck(inp, i) ==> (outcome matches Err(e) ==> {
                &&& a matches Action::Write(w) && w@ == fail_text(
                    old(self).config.error_format,
                    old(self).config.help@,
                    e@,
                    old(self).config.str_tests@[i as int].display,
                    true,
                )
                &&& final(self).phase == Phase::<T>::AwaitWrite(AfterWrite::Restart)
                &&& help_taken(old(self).config, final(self).config)
            }),
            old(self).phase matches Phase::AwaitValueCheck(v, i) ==> (outcome matches Ok(u)
                ==> (obeys_value_cmp::<T>() ==> value_stage_transition(
                old(self).config,
                v,
                i + 1,
                *final(self),
                a,
            ))),
            old(self).phase matches Phase::AwaitValueCheck(v, i) ==> (outcome matches Err(e) ==> {
                &&& a matches Action::Write(w) && w@ == fail_text(
                    old(self).config.error_format,
                    old(self).config.help@,
                    e@,
                    old(self).config.tests@[i as int].display,
                    true,
                )
                &&& final(self).phase == Phase::<T>::AwaitWrite(AfterWrite::Restart)
                &&& help_taken(old(self).config, final(self).config)
            }),
    {
        let mut ph = Phase::AwaitLine;
        core::mem::swap(&mut ph, &mut self.phase);
        match ph {
            Phase::AwaitStrCheck(inp, i) => {
                // Learn that the list length fits in usize, so that the
                // index increment below cannot overflow.
                let _len = self.config.str_tests.len();
                match outcome {
                    Ok(_) => self.advance_str_tests(inp, i + 1),
                    Err(e) => {
                        let display = self.config.str_tests[i].display;
                        self.fail_restart(e, display, true)
                    },
                }
            },
            Phase::AwaitValueCheck(v, i) => {
                // See the raw-text arm above.
                let _len = self.config.tests.len();
                match outcome {
                    Ok(_) => self.advance_value_tests(v, i + 1),
                    Err(e) => {
                        let display = self.config.tests[i].display;
                        self.fail_restart(e, display, true)
                    },
                }
            },
            // Unreachable under the precondition; fail closed if an
            // unverified caller violates the protocol.
            _ => {
                self.phase = Phase::Finished(Err(ProcessingError::Io));
                Action::Stop
            },
        }
    }

    /// Reports the text rendered for [`Action::AttemptsText`] or
    /// [`Action::FeedbackText`]: the text is handed out for writing; after
    /// attempt feedback the line is read, after value feedback the session
    /// finishes with the accepted value.
    pub fn on_text(&mut self, text: String) -> (a: Action)
        requires
            old(self).wf(),
            old(self).phase is AwaitAttemptsText || old(self).phase is AwaitFeedbackText,
        ensures
            final(self).wf(),
            action_expects(*final(self), a),
            (old(self).phase matches Phase::AwaitAttemptsText(n) ==> a matches Action::Write(w)
                && w == text && final(self).phase == Phase::<T>::AwaitWrite(AfterWrite::ReadInput)
                && final(self).config == old(self).config),
            (old(self).phase matches Phase::AwaitFeedbackText(v) ==> {
                &&& a matches Action::Write(w) && w == text
                &&& final(self).phase matches Phase::AwaitWrite(AfterWrite::Finish(u)) && u == v
                &&& final(self).config == old(self).config
            }),
    {
        let mut ph = Phase::AwaitLine;
        core::mem::swap(&mut ph, &mut self.phase);
        match ph {
            Phase::AwaitAttemptsText(_) => {
                self.phase = Phase::AwaitWrite(AfterWrite::ReadInput);
                Action::Write(text)
            },
            Phase::AwaitFeedbackText(v) => {
                self.phase = Phase::AwaitWrite(AfterWrite::Finish(v));
                Action::Write(text)
            },
            // Unreachable under the precondition; fail closed if an
            // unverified caller violates the protocol.
            _ => {
                self.phase = Phase::Finished(Err(ProcessingError::Io));
                Action::Stop
            },
        }
    }
}

} // verus!
