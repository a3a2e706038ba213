//! What holds of every failure on its way into or out of Python.

use vstd::prelude::*;

#[allow(unused_imports)]
use crate::errors::{
    debug_text, IntoPyResult, PyCallError, PyErrReport, PyException, ToResultWithPyTrace,
};

verus! {

/// An exception has the message that it is made with.
pub proof fn lemma_exception_keeps_its_message(message: String, exception: PyException)
    requires
        call_ensures(PyException::new_err, (message,), exception),
    ensures
        exception.message@ == message@,
{
}

/// A value passes as it is, and an error becomes an exception whose message is what writing the
/// error for debugging gives.
pub proof fn lemma_py_result_keeps_values_and_words_errors<T, E: std::fmt::Debug>(
    before: Result<T, E>,
    after: Result<T, PyException>,
)
    requires
        call_ensures(<Result<T, E> as IntoPyResult<T>>::into_py_result, (before,), after),
    ensures
        before is Ok ==> after is Ok && after->Ok_0 == before->Ok_0,
        before is Err ==> after is Err && exists|text: String| #[trigger]
            call_ensures(debug_text::<E>, (&before->Err_0,), text) && text@
                == after->Err_0.message@,
{
}

/// A value passes as it is. An error's message starts with what went wrong and goes on with the
/// error's own text, followed on the next line by the traceback where there is one; where the
/// traceback could not be formatted, that failure is the error.
pub proof fn lemma_py_trace_tells_all<T, F>(
    before: Result<T, PyErrReport<F>>,
    after: Result<T, PyCallError<F>>,
)
    requires
        call_ensures(
            <Result<T, PyErrReport<F>> as ToResultWithPyTrace<T>>::to_result_with_py_trace,
            (before,),
            after,
        ),
    ensures
        before is Ok ==> after is Ok && after->Ok_0 == before->Ok_0,
        before is Err ==> after is Err,
        before is Err && before->Err_0.traceback is None ==> after->Err_0 is Message
            && after->Err_0->Message_0@ == "Error calling Python function: "@
            + before->Err_0.text@,
        before is Err && before->Err_0.traceback is Some && before->Err_0.traceback->Some_0 is Ok
            ==> after->Err_0 is Message && after->Err_0->Message_0@
            == "Error calling Python function: "@ + before->Err_0.text@ + "\n"@
            + before->Err_0.traceback->Some_0->Ok_0@,
        before is Err && before->Err_0.traceback is Some && before->Err_0.traceback->Some_0 is Err
            ==> after->Err_0 is TracebackFormat && after->Err_0->TracebackFormat_0
            == before->Err_0.traceback->Some_0->Err_0,
{
}

} // verus!
