//! Unwrapping a container, with a located diagnostic where it holds nothing
//! to unwrap.
//!
//! Each operation comes in two forms. The plain form returns what the
//! container holds and asks of its caller that the container holds it. The
//! `try_` form asks nothing: where the container holds nothing to unwrap it
//! returns the diagnostic text, and to terminate with that text is left to
//! the caller.

use crate::report::{
    lemma_report_locates, lemma_report_names_failure, lemma_report_shows_rendering, position,
    render_report, report_text, Failure,
};
use crate::text::{lemma_occurs_between, lemma_occurs_within, occurs_in};
use std::fmt::Debug;
use std::fmt::Write;
use vstd::pervasive::unreached;
use vstd::prelude::*;
use vstd::string::StringExecFns;

verus! {

/// How a container is rendered that holds, under the variant named `tag`, a
/// payload whose own rendering is `payload`.
pub open spec fn tagged(tag: Seq<char>, payload: Seq<char>) -> Seq<char> {
    tag + "("@ + payload + ")"@
}

/// A rendered container begins with the name of its variant and an opening
/// bracket.
pub proof fn lemma_tagged_shows_tag(tag: Seq<char>, payload: Seq<char>)
    ensures
        occurs_in(tagged(tag, payload), tag + "("@),
{
    let rest = payload + ")"@;
    assert(tagged(tag, payload) =~= Seq::empty() + (tag + "("@) + rest);
    lemma_occurs_between(Seq::empty(), tag + "("@, rest);
}

/// Renders a container from the name of its variant and the rendering of its
/// payload.
pub fn render_tagged(tag: &str, payload: &str) -> (text: String)
    ensures
        text@ == tagged(tag@, payload@),
{
    let mut text = String::from_str(tag);
    text.append("(");
    text.append(payload);
    text.append(")");
    text
}

/// Calls `core::fmt::Debug::fmt` of `value`, as `write!` does for `{:?}`, on
/// an empty `String`, and returns what it wrote. The implementation is the
/// caller's own, so the contract claims nothing of the text. An error that
/// the implementation reports is dropped: the text is then what it wrote
/// before.
#[verifier::external_body]
fn debug_text<D: Debug>(value: &D) -> (text: String) {
    let mut text = String::new();
    let _ = write!(text, "{:?}", value);
    text
}

/// Containers that hold a value to unwrap, or else say where they were asked
/// for one.
pub trait VerboseUnwrap: Sized {
    /// The wrapped type.
    type Wrapped;

    /// The value that the container holds for unwrapping, if it holds one.
    spec fn wrapped(&self) -> Option<Self::Wrapped>;

    /// Whether `text` is a diagnostic for unwrapping this container, which
    /// holds no value, at the given call site with the given message.
    spec fn is_diagnostic(
        &self,
        text: Seq<char>,
        message: Option<Seq<char>>,
        scope_path: Seq<char>,
        file: Seq<char>,
        line: nat,
        column: nat,
    ) -> bool;

    /// Unwraps the value of a container that holds one.
    ///
    /// The other arguments describe the call: an optional message, the path
    /// of the enclosing scope, the file, the line and the column. They are
    /// what a diagnostic would show; a caller that has established the
    /// precondition never sees one.
    fn verbose_unwrap(
        self,
        message: Option<&str>,
        scope_path: &str,
        file: &str,
        line_number: u32,
        column: u32,
    ) -> (value: Self::Wrapped)
        requires
            self.wrapped() is Some,
        ensures
            self.wrapped() == Some(value),
    ;

    /// Unwraps the value of the container, or else returns the diagnostic
    /// text with which the caller is to terminate.
    fn try_verbose_unwrap(
        self,
        message: Option<&str>,
        scope_path: &str,
        file: &str,
        line_number: u32,
        column: u32,
    ) -> (outcome: Result<Self::Wrapped, String>)
        ensures
            match outcome {
                Ok(value) => self.wrapped() == Some(value),
                Err(text) => self.wrapped() is None && self.is_diagnostic(
                    text@,
                    message.deep_view(),
                    scope_path@,
                    file@,
                    line_number as nat,
                    column as nat,
                ),
            },
    ;
}

impl<T, E: Debug> VerboseUnwrap for Result<T, E> {
    type Wrapped = T;

    open spec fn wrapped(&self) -> Option<T> {
        match *self {
            Ok(value) => Some(value),
            Err(_) => None,
        }
    }

    /// The report of a `Result::Err`, which shows the container as `Err`
    /// around some rendering of the error.
    open spec fn is_diagnostic(
        &self,
        text: Seq<char>,
        message: Option<Seq<char>>,
        scope_path: Seq<char>,
        file: Seq<char>,
        line: nat,
        column: nat,
    ) -> bool {
        exists|payload: Seq<char>|
            text == report_text(
                Failure::ResultErr,
                Some(#[trigger] tagged("Err"@, payload)),
                message,
                scope_path,
                file,
                line,
                column,
            )
    }

    #[allow(unused_variables)]
    fn verbose_unwrap(
        self,
        message: Option<&str>,
        scope_path: &str,
        file: &str,
        line_number: u32,
        column: u32,
    ) -> (value: T)
        ensures
            self == Ok::<T, E>(value),
    {
        match self {
            Ok(value) => value,
            Err(_) => unreached(),
        }
    }

    fn try_verbose_unwrap(
        self,
        message: Option<&str>,
        scope_path: &str,
        file: &str,
        line_number: u32,
        column: u32,
    ) -> (outcome: Result<T, String>)
        ensures
            self matches Ok(value) ==> outcome == Ok::<T, String>(value),
            self is Err ==> outcome is Err,
            outcome matches Err(text) ==> {
                &&& occurs_in(text@, "Result::Err"@)
                &&& occurs_in(text@, "Err("@)
                &&& occurs_in(text@, position(file@, line_number as nat, column as nat))
            },
    {
        match self {
            Ok(value) => Ok(value),
            Err(error) => {
                let payload = debug_text(&error);
                let rendering = render_tagged("Err", payload.as_str());
                let text = render_report(
                    Failure::ResultErr,
                    Some(rendering.as_str()),
                    message,
                    scope_path,
                    file,
                    line_number,
                    column,
                );
                proof {
                    lemma_result_report_contents(
                        Failure::ResultErr,
                        "Err"@,
                        payload@,
                        message.deep_view(),
                        scope_path@,
                        file@,
                        line_number as nat,
                        column as nat,
                    );
                    reveal_strlit("Err");
                    reveal_strlit("(");
                    reveal_strlit("Err(");
                    assert("Err"@ + "("@ =~= "Err("@);
                }
                Err(text)
            },
        }
    }
}

impl<T> VerboseUnwrap for Option<T> {
    type Wrapped = T;

    open spec fn wrapped(&self) -> Option<T> {
        *self
    }

    /// The report of an `Option::None`, which has no payload to show.
    open spec fn is_diagnostic(
        &self,
        text: Seq<char>,
        message: Option<Seq<char>>,
        scope_path: Seq<char>,
        file: Seq<char>,
        line: nat,
        column: nat,
    ) -> bool {
        text == report_text(Failure::OptionNone, None, message, scope_path, file, line, column)
    }

    #[allow(unused_variables)]
    fn verbose_unwrap(
        self,
        message: Option<&str>,
        scope_path: &str,
        file: &str,
        line_number: u32,
        column: u32,
    ) -> (value: T)
        ensures
            self == Some(value),
    {
        match self {
            Some(value) => value,
            None => unreached(),
        }
    }

    fn try_verbose_unwrap(
        self,
        message: Option<&str>,
        scope_path: &str,
        file: &str,
        line_number: u32,
        column: u32,
    ) -> (outcome: Result<T, String>)
        ensures
            self matches Some(value) ==> outcome == Ok::<T, String>(value),
            self is None ==> outcome is Err,
            outcome matches Err(text) ==> {
                &&& occurs_in(text@, "Option::None"@)
                &&& occurs_in(text@, position(file@, line_number as nat, column as nat))
            },
    {
        match self {
            Some(value) => Ok(value),
            None => {
                let text = render_report(
                    Failure::OptionNone,
                    None,
                    message,
                    scope_path,
                    file,
                    line_number,
                    column,
                );
                proof {
                    lemma_report_names_failure(
                        Failure::OptionNone,
                        None,
                        message.deep_view(),
                        scope_path@,
                        file@,
                        line_number as nat,
                        column as nat,
                    );
                    lemma_report_locates(
                        Failure::OptionNone,
                        None,
                        message.deep_view(),
                        scope_path@,
                        file@,
                        line_number as nat,
                        column as nat,
                    );
                }
                Err(text)
            },
        }
    }
}

/// Containers that hold an error to unwrap, or else say where they were
/// asked for one.
pub trait VerboseUnwrapErr: Sized {
    /// The wrapped type.
    type Wrapped;

    /// The error that the container holds for unwrapping, if it holds one.
    spec fn wrapped_err(&self) -> Option<Self::Wrapped>;

    /// Whether `text` is a diagnostic for unwrapping the error of this
    /// container, which holds none, at the given call site with the given
    /// message.
    spec fn is_err_diagnostic(
        &self,
        text: Seq<char>,
        message: Option<Seq<char>>,
        scope_path: Seq<char>,
        file: Seq<char>,
        line: nat,
        column: nat,
    ) -> bool;

    /// Unwraps the error of a container that holds one.
    ///
    /// The other arguments describe the call: an optional message, the path
    /// of the enclosing scope, the file, the line and the column. They are
    /// what a diagnostic would show; a caller that has established the
    /// precondition never sees one.
    fn verbose_unwrap_err(
        self,
        message: Option<&str>,
        scope_path: &str,
        file: &str,
        line_number: u32,
        column: u32,
    ) -> (error: Self::Wrapped)
        requires
            self.wrapped_err() is Some,
        ensures
            self.wrapped_err() == Some(error),
    ;

    /// Unwraps the error of the container, or else returns the diagnostic
    /// text with which the caller is to terminate.
    fn try_verbose_unwrap_err(
        self,
        message: Option<&str>,
        scope_path: &str,
        file: &str,
        line_number: u32,
        column: u32,
    ) -> (outcome: Result<Self::Wrapped, String>)
        ensures
            match outcome {
                Ok(error) => self.wrapped_err() == Some(error),
                Err(text) => self.wrapped_err() is None && self.is_err_diagnostic(
                    text@,
                    message.deep_view(),
                    scope_path@,
                    file@,
                    line_number as nat,
                    column as nat,
                ),
            },
    ;
}

impl<T: Debug, E> VerboseUnwrapErr for Result<T, E> {
    type Wrapped = E;

    open spec fn wrapped_err(&self) -> Option<E> {
        match *self {
            Ok(_) => None,
            Err(error) => Some(error),
        }
    }

    /// The report of a `Result::Ok`, which shows the container as `Ok`
    /// around some rendering of the value.
    open spec fn is_err_diagnostic(
        &self,
        text: Seq<char>,
        message: Option<Seq<char>>,
        scope_path: Seq<char>,
        file: Seq<char>,
        line: nat,
        column: nat,
    ) -> bool {
        exists|payload: Seq<char>|
            text == report_text(
                Failure::ResultOk,
                Some(#[trigger] tagged("Ok"@, payload)),
                message,
                scope_path,
                file,
                line,
                column,
            )
    }

    #[allow(unused_variables)]
    fn verbose_unwrap_err(
        self,
        message: Option<&str>,
        scope_path: &str,
        file: &str,
        line_number: u32,
        column: u32,
    ) -> (error: E)
        ensures
            self == Err::<T, E>(error),
    {
        match self {
            Err(error) => error,
            Ok(_) => unreached(),
        }
    }

    fn try_verbose_unwrap_err(
        self,
        message: Option<&str>,
        scope_path: &str,
        file: &str,
        line_number: u32,
        column: u32,
    ) -> (outcome: Result<E, String>)
        ensures
            self matches Err(error) ==> outcome == Ok::<E, String>(error),
            self is Ok ==> outcome is Err,
            outcome matches Err(text) ==> {
                &&& occurs_in(text@, "Result::Ok"@)
                &&& occurs_in(text@, "Ok("@)
                &&& occurs_in(text@, position(file@, line_number as nat, column as nat))
            },
    {
        match self {
            Err(error) => Ok(error),
            Ok(value) => {
                let payload = debug_text(&value);
                let rendering = render_tagged("Ok", payload.as_str());
                let text = render_report(
                    Failure::ResultOk,
                    Some(rendering.as_str()),
                    message,
                    scope_path,
                    file,
                    line_number,
                    column,
                );
                proof {
                    lemma_result_report_contents(
                        Failure::ResultOk,
                        "Ok"@,
                        payload@,
                        message.deep_view(),
                        scope_path@,
                        file@,
                        line_number as nat,
                        column as nat,
                    );
                    reveal_strlit("Ok");
                    reveal_strlit("(");
                    reveal_strlit("Ok(");
                    assert("Ok"@ + "("@ =~= "Ok("@);
                }
                Err(text)
            },
        }
    }
}

/// The report of a `Result` met under the wrong variant names that variant,
/// shows the name of the variant with an opening bracket, and holds the
/// position of the call.
proof fn lemma_result_report_contents(
    failure: Failure,
    tag: Seq<char>,
    payload: Seq<char>,
    message: Option<Seq<char>>,
    scope_path: Seq<char>,
    file: Seq<char>,
    line: nat,
    column: nat,
)
    ensures
        ({
            let report = report_text(
                failure,
                Some(tagged(tag, payload)),
                message,
                scope_path,
                file,
                line,
                column,
            );
            &&& occurs_in(report, failure.variant())
            &&& occurs_in(report, tag + "("@)
            &&& occurs_in(report, position(file, line, column))
        }),
{
    let rendering = tagged(tag, payload);
    let report = report_text(failure, Some(rendering), message, scope_path, file, line, column);
    lemma_report_names_failure(failure, Some(rendering), message, scope_path, file, line, column);
    lemma_report_locates(failure, Some(rendering), message, scope_path, file, line, column);
    lemma_report_shows_rendering(failure, rendering, message, scope_path, file, line, column);
    lemma_tagged_shows_tag(tag, payload);
    lemma_occurs_within(report, rendering, tag + "("@);
}

/// Unwrapping a held value can be repeated: two calls on a container that
/// holds a value return that same value, whatever message and call site
/// each of them is given, and neither returns a diagnostic.
pub proof fn lemma_unwrap_repeats<C: VerboseUnwrap>(
    container: C,
    first_call: (Option<&str>, &str, &str, u32, u32),
    first: Result<C::Wrapped, String>,
    second_call: (Option<&str>, &str, &str, u32, u32),
    second: Result<C::Wrapped, String>,
)
    requires
        container.wrapped() is Some,
        call_ensures(
            C::try_verbose_unwrap,
            (container, first_call.0, first_call.1, first_call.2, first_call.3, first_call.4),
            first,
        ),
        call_ensures(
            C::try_verbose_unwrap,
            (container, second_call.0, second_call.1, second_call.2, second_call.3, second_call.4),
            second,
        ),
    ensures
        first == second,
        first == Ok::<C::Wrapped, String>(container.wrapped()->0),
{
}

/// A `Result` holds something for exactly one of the two operations: where
/// it holds a success value, unwrapping returns that value and unwrapping
/// the error returns a diagnostic; where it holds an error, it is the other
/// way round.
pub proof fn lemma_result_unwraps_one_way<T: Debug, E: Debug>(
    result: Result<T, E>,
    call: (Option<&str>, &str, &str, u32, u32),
    unwrapped: Result<T, String>,
    unwrapped_err: Result<E, String>,
)
    requires
        call_ensures(
            Result::<T, E>::try_verbose_unwrap,
            (result, call.0, call.1, call.2, call.3, call.4),
            unwrapped,
        ),
        call_ensures(
            Result::<T, E>::try_verbose_unwrap_err,
            (result, call.0, call.1, call.2, call.3, call.4),
            unwrapped_err,
        ),
    ensures
        result matches Ok(value) ==> unwrapped == Ok::<T, String>(value) && unwrapped_err is Err,
        result matches Err(error) ==> unwrapped is Err && unwrapped_err == Ok::<E, String>(error),
{
}

} // verus!
