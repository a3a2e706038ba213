//! Failures on their way into and out of Python.

use vstd::prelude::*;

use crate::text::{concat2, concat3};

verus! {

/// What is raised in Python as an exception of the base class.
#[derive(Debug)]
pub struct PyException {
    pub message: String,
}

impl PyException {
    /// An exception with the given message.
    pub fn new_err(message: String) -> (exception: PyException)
        ensures
            exception.message@ == message@,
    {
        PyException { message }
    }
}

/// `format!` with `{:?}`: the text that the error's own `Debug` writes. What that text is rests on
/// the error type, so no clause says what it holds; contracts speak of it as what this call
/// gives.
#[verifier::external_body]
pub fn debug_text<E: std::fmt::Debug>(err: &E) -> (text: String) {
    format!("{err:?}")
}

/// `message` is the debug text of `err`.
pub open spec fn is_debug_text<E: std::fmt::Debug>(err: E, message: Seq<char>) -> bool {
    exists|text: String| #[trigger]
        call_ensures(debug_text::<E>, (&err,), text) && text@ == message
}

/// What `write` makes of `err`.
fn text_by<E, F: Fn(&E) -> String>(write: F, err: &E) -> (text: String)
    requires
        call_requires(write, (err,)),
    ensures
        call_ensures(write, (err,), text),
{
    write(err)
}

/// Turns a result into one that Python can raise.
pub trait IntoPyResult<T>: Sized {
    fn into_py_result(self) -> Result<T, PyException>;
}

impl<T, E: std::fmt::Debug> IntoPyResult<T> for Result<T, E> {
    /// A value stays as it is. An error becomes an exception of the base class, whatever the error
    /// was, and its message is the error's debug text.
    fn into_py_result(self) -> (result: Result<T, PyException>)
        ensures
            self matches Ok(value) ==> result == Ok::<T, PyException>(value),
            self matches Err(err) ==> result matches Err(exception) && is_debug_text(
                err,
                exception.message@,
            ),
    {
        match self {
            Ok(value) => Ok(value),
            Err(err) => {
                let text = text_by(debug_text::<E>, &err);
                Err(PyException::new_err(text))
            },
        }
    }
}

/// An error that Python raised: its text, and its traceback where it has one. Formatting the
/// traceback runs Python again and can itself fail.
#[derive(Debug)]
pub struct PyErrReport<F> {
    pub text: String,
    pub traceback: Option<Result<String, F>>,
}

/// How a call into Python failed: with a message, or while its traceback was being formatted.
#[derive(Debug)]
pub enum PyCallError<F> {
    Message(String),
    TracebackFormat(F),
}

/// The message for an error with the given text and, where there is one, the given traceback.
pub open spec fn trace_message(text: Seq<char>, traceback: Option<Seq<char>>) -> Seq<char> {
    let headline = "Error calling Python function: "@ + text;
    match traceback {
        Some(trace) => headline + "\n"@ + trace,
        None => headline,
    }
}

/// A traceback takes nothing from the message: it follows it, on a line of its own.
pub proof fn lemma_traceback_follows_the_message(text: Seq<char>, trace: Seq<char>)
    ensures
        trace_message(text, Some(trace)) == trace_message(text, None) + seq!['\n'] + trace,
{
    reveal_strlit("\n");
    assert("\n"@ =~= seq!['\n']);
}

/// Turns an error that Python raised into one that carries its traceback.
pub trait ToResultWithPyTrace<T>: Sized {
    type FormatError;

    fn to_result_with_py_trace(self) -> Result<T, PyCallError<Self::FormatError>>;
}

impl<T, F> ToResultWithPyTrace<T> for Result<T, PyErrReport<F>> {
    type FormatError = F;

    /// A value stays as it is. An error becomes its message, with the traceback on the lines
    /// below where there is one; if formatting the traceback failed, that failure is the error.
    fn to_result_with_py_trace(self) -> (result: Result<T, PyCallError<F>>)
        ensures
            self matches Ok(value) ==> result == Ok::<T, PyCallError<F>>(value),
            self matches Err(report) ==> match report.traceback {
                None => result matches Err(PyCallError::Message(message)) && message@
                    == trace_message(report.text@, None),
                Some(Ok(trace)) => result matches Err(PyCallError::Message(message)) && message@
                    == trace_message(report.text@, Some(trace@)),
                Some(Err(failure)) => result == Err::<T, PyCallError<F>>(
                    PyCallError::TracebackFormat(failure),
                ),
            },
    {
        match self {
            Ok(value) => Ok(value),
            Err(report) => {
                let headline = concat2("Error calling Python function: ", report.text.as_str());
                match report.traceback {
                    None => Err(PyCallError::Message(headline)),
                    Some(Ok(trace)) => Err(
                        PyCallError::Message(concat3(headline.as_str(), "\n", trace.as_str())),
                    ),
                    Some(Err(failure)) => Err(PyCallError::TracebackFormat(failure)),
                }
            },
        }
    }
}

} // verus!
