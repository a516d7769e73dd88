use decision_flow::bridge::{
    script_arguments, script_outcome, script_payload, script_response, InvocationError,
    SCRIPT_INTERPRETER,
};

#[test]
fn arguments_are_positional() {
    let args = script_arguments("9182.467", "3057");
    assert_eq!(args, vec!["./static/py/sum.py", "9182.467", "3057"]);
    assert_eq!(SCRIPT_INTERPRETER, "python3");
}

#[test]
fn sum_output_is_trimmed() {
    let out = b"12239.467\n".to_vec();
    assert_eq!(script_response(Ok(out)), "12239.467");
}

#[test]
fn surrounding_white_space_goes() {
    let out = " \t 42 \r\n".as_bytes().to_vec();
    match script_outcome(Ok(out)) {
        Ok(t) => assert_eq!(t, "42"),
        Err(e) => panic!("unexpected {:?}", e),
    }
}

#[test]
fn inner_white_space_stays() {
    let out = "  a b\u{3000}".as_bytes().to_vec();
    assert_eq!(script_response(Ok(out)), "a b");
}

#[test]
fn error_text_from_script_is_a_result() {
    let out = b"Traceback: could not convert string to float: 'vega'\n".to_vec();
    assert_eq!(
        script_response(Ok(out)),
        "Traceback: could not convert string to float: 'vega'"
    );
}

#[test]
fn empty_output_gives_empty_text() {
    assert_eq!(script_response(Ok(Vec::new())), "");
    assert_eq!(script_response(Ok(b" \n".to_vec())), "");
}

#[test]
fn invalid_utf8_is_a_decode_failure() {
    let r = script_outcome(Ok(vec![0x31, 0xff]));
    match &r {
        Err(InvocationError::DecodeFailed(m)) => {
            assert_eq!(m, "invalid utf-8 sequence of 1 bytes from index 1")
        }
        other => panic!("unexpected {:?}", other),
    }
    assert_eq!(
        script_payload(r),
        "couldn't read the script output: invalid utf-8 sequence of 1 bytes from index 1"
    );
}

#[test]
fn launch_failure_is_reported_as_text() {
    let cause = "No such file or directory (os error 2)".to_string();
    let r = script_outcome(Err(cause.clone()));
    match &r {
        Err(InvocationError::LaunchFailed(m)) => assert_eq!(m, &cause),
        other => panic!("unexpected {:?}", other),
    }
    assert_eq!(
        script_payload(r),
        "the script couldn't be executed: No such file or directory (os error 2)"
    );
}
