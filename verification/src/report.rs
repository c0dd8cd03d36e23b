//! The diagnostic text that a failed unwrap emits.
//!
//! The text is a banner of three lines, eighty columns wide, that names the
//! operation and the variant it met; a line that locates the call; the
//! caller's message, when there is one; and the rendering of the offending
//! container, when it carries a payload.

use crate::decimal::{decimal, push_decimal};
use crate::text::{lemma_occurs_between, lemma_occurs_within, occurs_in};
use vstd::prelude::*;
use vstd::string::{StrSliceExecFns, StringExecFns};

verus! {

/// The width of every banner line, in columns.
pub const BANNER_WIDTH: usize = 80;

/// The expectation that an unwrap found violated.
#[derive(Clone, Copy, Debug, PartialEq, Eq, Structural)]
pub enum Failure {
    /// The success value of a `Result` was asked for, and it held an error.
    ResultErr,
    /// The value of an `Option` was asked for, and it held none.
    OptionNone,
    /// The error of a `Result` was asked for, and it held a success value.
    ResultOk,
}

impl Failure {
    /// The name of the operation that failed.
    pub open spec fn operation(self) -> Seq<char> {
        match self {
            Failure::ResultErr => "unwrap"@,
            Failure::OptionNone => "unwrap"@,
            Failure::ResultOk => "unwrap_err"@,
        }
    }

    /// The name of the variant that the operation met.
    pub open spec fn variant(self) -> Seq<char> {
        match self {
            Failure::ResultErr => "Result::Err"@,
            Failure::OptionNone => "Option::None"@,
            Failure::ResultOk => "Result::Ok"@,
        }
    }

    /// The name of the operation that failed, as text.
    pub fn operation_name(self) -> (name: &'static str)
        ensures
            name@ == self.operation(),
    {
        match self {
            Failure::ResultErr => "unwrap",
            Failure::OptionNone => "unwrap",
            Failure::ResultOk => "unwrap_err",
        }
    }

    /// The name of the variant that the operation met, as text.
    pub fn variant_name(self) -> (name: &'static str)
        ensures
            name@ == self.variant(),
    {
        match self {
            Failure::ResultErr => "Result::Err",
            Failure::OptionNone => "Option::None",
            Failure::ResultOk => "Result::Ok",
        }
    }
}

/// The character `c`, `count` times over.
pub open spec fn run(c: char, count: nat) -> Seq<char> {
    Seq::new(count, |i: int| c)
}

/// The line of asterisks that opens and closes the banner.
pub open spec fn rule_line() -> Seq<char> {
    run('*', BANNER_WIDTH as nat)
}

/// What the banner says: the operation, and the variant it was called on.
pub open spec fn headline(failure: Failure) -> Seq<char> {
    failure.operation() + "! called on "@ + failure.variant()
}

/// The number of spaces that fill the title line: the columns that the
/// opening mark with its three spaces, the headline and the closing mark
/// leave of the width of the banner.
pub open spec fn title_padding(failure: Failure) -> nat {
    (BANNER_WIDTH - "!   "@.len() - headline(failure).len() - "!"@.len()) as nat
}

/// The middle line of the banner: the headline between two exclamation
/// marks, filled up with spaces to the width of the banner.
pub open spec fn title_line(failure: Failure) -> Seq<char> {
    "!   "@ + headline(failure) + run(' ', title_padding(failure)) + "!"@
}

/// The banner: two line ends, which set it off from what was written before
/// it, then the title between two rules.
pub open spec fn banner(failure: Failure) -> Seq<char> {
    "\n\n"@ + rule_line() + "\n"@ + title_line(failure) + "\n"@ + rule_line() + "\n"@
}

/// Where in a file the call stands: the file, the line and the column.
pub open spec fn position(file: Seq<char>, line: nat, column: nat) -> Seq<char> {
    file + ":"@ + decimal(line) + ","@ + decimal(column)
}

/// The line that locates the call: its position, and the scope around it.
pub open spec fn location_line(
    scope_path: Seq<char>,
    file: Seq<char>,
    line: nat,
    column: nat,
) -> Seq<char> {
    position(file, line, column) + " in "@ + scope_path
}

/// The caller's message on a line of its own, or nothing without a message.
pub open spec fn message_lines(message: Option<Seq<char>>) -> Seq<char> {
    match message {
        Some(m) => m + "\n"@,
        None => Seq::empty(),
    }
}

/// The rendering of the offending container on a line of its own with an
/// empty line after it, or nothing without a rendering.
pub open spec fn rendering_lines(rendering: Option<Seq<char>>) -> Seq<char> {
    match rendering {
        Some(r) => r + "\n\n"@,
        None => Seq::empty(),
    }
}

/// The whole diagnostic text.
pub open spec fn report_text(
    failure: Failure,
    rendering: Option<Seq<char>>,
    message: Option<Seq<char>>,
    scope_path: Seq<char>,
    file: Seq<char>,
    line: nat,
    column: nat,
) -> Seq<char> {
    banner(failure) + location_line(scope_path, file, line, column) + "\n"@ + message_lines(
        message,
    ) + "\n"@ + rendering_lines(rendering)
}

/// Every line of the banner is as wide as the banner.
pub proof fn lemma_banner_width(failure: Failure)
    ensures
        rule_line().len() == BANNER_WIDTH,
        title_line(failure).len() == BANNER_WIDTH,
{
    reveal_strlit("unwrap");
    reveal_strlit("unwrap_err");
    reveal_strlit("Result::Err");
    reveal_strlit("Option::None");
    reveal_strlit("Result::Ok");
    reveal_strlit("! called on ");
    reveal_strlit("!   ");
    reveal_strlit("!");
}

/// The report names the operation that failed and the variant that it met.
pub proof fn lemma_report_names_failure(
    failure: Failure,
    rendering: Option<Seq<char>>,
    message: Option<Seq<char>>,
    scope_path: Seq<char>,
    file: Seq<char>,
    line: nat,
    column: nat,
)
    ensures
        occurs_in(
            report_text(failure, rendering, message, scope_path, file, line, column),
            headline(failure),
        ),
        occurs_in(
            report_text(failure, rendering, message, scope_path, file, line, column),
            failure.variant(),
        ),
{
    let report = report_text(failure, rendering, message, scope_path, file, line, column);
    let before = "\n\n"@ + rule_line() + "\n"@ + "!   "@;
    let after = run(' ', title_padding(failure)) + "!"@ + "\n"@ + rule_line() + "\n"@
        + location_line(scope_path, file, line, column) + "\n"@ + message_lines(message) + "\n"@
        + rendering_lines(rendering);
    assert(report =~= before + headline(failure) + after);
    lemma_occurs_between(before, headline(failure), after);
    let lead = failure.operation() + "! called on "@;
    assert(headline(failure) =~= lead + failure.variant() + Seq::empty());
    lemma_occurs_between(lead, failure.variant(), Seq::empty());
    lemma_occurs_within(report, headline(failure), failure.variant());
}

/// The report holds the line that locates the call, and so the position of
/// the call: the file, the line and the column.
pub proof fn lemma_report_locates(
    failure: Failure,
    rendering: Option<Seq<char>>,
    message: Option<Seq<char>>,
    scope_path: Seq<char>,
    file: Seq<char>,
    line: nat,
    column: nat,
)
    ensures
        occurs_in(
            report_text(failure, rendering, message, scope_path, file, line, column),
            location_line(scope_path, file, line, column),
        ),
        occurs_in(
            report_text(failure, rendering, message, scope_path, file, line, column),
            position(file, line, column),
        ),
{
    let report = report_text(failure, rendering, message, scope_path, file, line, column);
    let location = location_line(scope_path, file, line, column);
    let after = "\n"@ + message_lines(message) + "\n"@ + rendering_lines(rendering);
    assert(report =~= banner(failure) + location + after);
    lemma_occurs_between(banner(failure), location, after);
    let place = position(file, line, column);
    assert(location =~= Seq::empty() + place + (" in "@ + scope_path));
    lemma_occurs_between(Seq::empty(), place, " in "@ + scope_path);
    lemma_occurs_within(report, location, place);
}

/// A message stands in the report on the line right below the one that
/// locates the call, and fills that line.
pub proof fn lemma_report_shows_message(
    failure: Failure,
    rendering: Option<Seq<char>>,
    message: Seq<char>,
    scope_path: Seq<char>,
    file: Seq<char>,
    line: nat,
    column: nat,
)
    ensures
        occurs_in(
            report_text(failure, rendering, Some(message), scope_path, file, line, column),
            location_line(scope_path, file, line, column) + "\n"@ + message + "\n"@,
        ),
{
    let report = report_text(failure, rendering, Some(message), scope_path, file, line, column);
    let lines = location_line(scope_path, file, line, column) + "\n"@ + message + "\n"@;
    let after = "\n"@ + rendering_lines(rendering);
    assert(report =~= banner(failure) + lines + after);
    lemma_occurs_between(banner(failure), lines, after);
}

/// The rendering of the container stands in the report.
pub proof fn lemma_report_shows_rendering(
    failure: Failure,
    rendering: Seq<char>,
    message: Option<Seq<char>>,
    scope_path: Seq<char>,
    file: Seq<char>,
    line: nat,
    column: nat,
)
    ensures
        occurs_in(
            report_text(failure, Some(rendering), message, scope_path, file, line, column),
            rendering,
        ),
{
    let report = report_text(failure, Some(rendering), message, scope_path, file, line, column);
    let before = banner(failure) + location_line(scope_path, file, line, column) + "\n"@
        + message_lines(message) + "\n"@;
    assert(report =~= before + rendering + "\n\n"@);
    lemma_occurs_between(before, rendering, "\n\n"@);
}

/// Appends `count` copies of the one-character text `unit`.
fn push_run(text: &mut String, unit: &str, count: usize)
    requires
        unit@.len() == 1,
    ensures
        final(text)@ == old(text)@ + run(unit@[0], count as nat),
{
    let ghost before = text@;
    let mut done: usize = 0;
    assert(text@ =~= before + run(unit@[0], 0));
    while done < count
        invariant
            done <= count,
            unit@.len() == 1,
            text@ == before + run(unit@[0], done as nat),
        decreases count - done,
    {
        text.append(unit);
        done = done + 1;
        assert(text@ =~= before + run(unit@[0], done as nat));
    }
}

/// Appends the banner for `failure`.
fn push_banner(text: &mut String, failure: Failure)
    ensures
        final(text)@ == old(text)@ + banner(failure),
{
    let ghost before = text@;
    let operation = failure.operation_name();
    let variant = failure.variant_name();
    proof {
        reveal_strlit("unwrap");
        reveal_strlit("unwrap_err");
        reveal_strlit("Result::Err");
        reveal_strlit("Option::None");
        reveal_strlit("Result::Ok");
        reveal_strlit("! called on ");
        reveal_strlit("!   ");
        reveal_strlit("!");
        reveal_strlit("*");
        reveal_strlit(" ");
    }
    let taken: usize = "!   ".unicode_len() + operation.unicode_len()
        + "! called on ".unicode_len() + variant.unicode_len() + "!".unicode_len();
    text.append("\n\n");
    push_run(text, "*", BANNER_WIDTH);
    text.append("\n");
    text.append("!   ");
    text.append(operation);
    text.append("! called on ");
    text.append(variant);
    push_run(text, " ", BANNER_WIDTH - taken);
    text.append("!");
    text.append("\n");
    push_run(text, "*", BANNER_WIDTH);
    text.append("\n");
    assert(text@ =~= before + banner(failure));
}

/// Appends the line that locates the call, without its line end.
fn push_location(text: &mut String, scope_path: &str, file: &str, line_number: u32, column: u32)
    ensures
        final(text)@ == old(text)@ + location_line(
            scope_path@,
            file@,
            line_number as nat,
            column as nat,
        ),
{
    let ghost before = text@;
    text.append(file);
    text.append(":");
    push_decimal(text, line_number);
    text.append(",");
    push_decimal(text, column);
    text.append(" in ");
    text.append(scope_path);
    assert(text@ =~= before + location_line(
        scope_path@,
        file@,
        line_number as nat,
        column as nat,
    ));
}

/// Renders the diagnostic text for `failure` at the given call site, with
/// the caller's message and the rendering of the container where there are
/// any.
pub fn render_report(
    failure: Failure,
    rendering: Option<&str>,
    message: Option<&str>,
    scope_path: &str,
    file: &str,
    line_number: u32,
    column: u32,
) -> (text: String)
    ensures
        text@ == report_text(
            failure,
            rendering.deep_view(),
            message.deep_view(),
            scope_path@,
            file@,
            line_number as nat,
            column as nat,
        ),
{
    let mut text = String::new();
    push_banner(&mut text, failure);
    push_location(&mut text, scope_path, file, line_number, column);
    text.append("\n");
    if let Some(m) = message {
        text.append(m);
        text.append("\n");
    }
    text.append("\n");
    if let Some(r) = rendering {
        text.append(r);
        text.append("\n\n");
    }
    assert(text@ =~= report_text(
        failure,
        rendering.deep_view(),
        message.deep_view(),
        scope_path@,
        file@,
        line_number as nat,
        column as nat,
    ));
    text
}

} // verus!
