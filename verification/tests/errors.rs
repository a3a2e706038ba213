use cocoindex_engine::errors::{
    IntoPyResult, PyCallError, PyErrReport, PyException, ToResultWithPyTrace,
};

#[test]
fn values_pass_into_py_results() {
    let result: Result<i32, String> = Ok(3);
    assert_eq!(result.into_py_result().unwrap(), 3);
}

#[test]
fn errors_become_exceptions_with_their_debug_text() {
    let result: Result<i32, String> = Err("no \"db\"".to_string());
    let exception: PyException = result.into_py_result().unwrap_err();
    assert_eq!(exception.message, "\"no \\\"db\\\"\"");
}

#[test]
fn an_exception_is_reworded_like_any_other_error() {
    let result: Result<(), PyException> = Err(PyException::new_err("gone".to_string()));
    let exception = result.into_py_result().unwrap_err();
    assert_eq!(exception.message, "PyException { message: \"gone\" }");
}

#[test]
fn exceptions_carry_their_message() {
    assert_eq!(PyException::new_err("gone".to_string()).message, "gone");
}

#[test]
fn values_pass_through_the_trace() {
    let result: Result<&str, PyErrReport<u8>> = Ok("value");
    assert_eq!(result.to_result_with_py_trace().unwrap(), "value");
}

#[test]
fn an_error_without_traceback_is_its_headline() {
    let report: PyErrReport<u8> = PyErrReport {
        text: "ValueError: bad".to_string(),
        traceback: None,
    };
    let result: Result<(), PyErrReport<u8>> = Err(report);
    match result.to_result_with_py_trace() {
        Err(PyCallError::Message(message)) => {
            assert_eq!(message, "Error calling Python function: ValueError: bad")
        }
        other => panic!("{other:?}"),
    }
}

#[test]
fn a_traceback_follows_on_its_own_line() {
    let report: PyErrReport<u8> = PyErrReport {
        text: "ValueError: bad".to_string(),
        traceback: Some(Ok("Traceback (most recent call last):\n".to_string())),
    };
    let result: Result<(), PyErrReport<u8>> = Err(report);
    match result.to_result_with_py_trace() {
        Err(PyCallError::Message(message)) => assert_eq!(
            message,
            "Error calling Python function: ValueError: bad\nTraceback (most recent call last):\n"
        ),
        other => panic!("{other:?}"),
    }
}

#[test]
fn a_traceback_that_cannot_be_formatted_is_the_error() {
    let report: PyErrReport<u8> = PyErrReport {
        text: "ValueError: bad".to_string(),
        traceback: Some(Err(7)),
    };
    let result: Result<(), PyErrReport<u8>> = Err(report);
    match result.to_result_with_py_trace() {
        Err(PyCallError::TracebackFormat(failure)) => assert_eq!(failure, 7),
        other => panic!("{other:?}"),
    }
}
