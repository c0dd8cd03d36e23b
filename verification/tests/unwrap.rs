use unwrap::{VerboseUnwrap, VerboseUnwrapErr};

const SCOPE: &str = "unwrap::tests";
const FILE: &str = "src/lib.rs";

#[test]
fn unwrap_result_ok() {
    let result: Result<u32, u32> = Ok(32);
    let x = VerboseUnwrap::verbose_unwrap(result, None, SCOPE, FILE, 248, 17);
    let y = VerboseUnwrap::verbose_unwrap(result, Some("Here's a message"), SCOPE, FILE, 249, 17);
    assert_eq!(x, 32);
    assert_eq!(y, 32);
}

#[test]
#[should_panic]
fn unwrap_result_err_message_args() {
    let result: Result<u32, u32> = Err(32);
    let message = format!("Here's a message {}", 23);
    match VerboseUnwrap::try_verbose_unwrap(result, Some(&message), SCOPE, FILE, 258, 17) {
        Ok(_) => {}
        Err(text) => panic!("{}", text),
    }
}

#[test]
#[should_panic]
fn unwrap_result_err_message() {
    let result: Result<u32, u32> = Err(32);
    let message = Some("Here's a message");
    match VerboseUnwrap::try_verbose_unwrap(result, message, SCOPE, FILE, 265, 17) {
        Ok(_) => {}
        Err(text) => panic!("{}", text),
    }
}

#[test]
#[should_panic]
fn unwrap_result_err_no_message() {
    let result: Result<u32, u32> = Err(32);
    match VerboseUnwrap::try_verbose_unwrap(result, None, SCOPE, FILE, 272, 17) {
        Ok(_) => {}
        Err(text) => panic!("{}", text),
    }
}

#[test]
fn unwrap_option_some() {
    let option: Option<u32> = Some(32);
    let x = VerboseUnwrap::verbose_unwrap(option, None, SCOPE, FILE, 278, 17);
    let y = VerboseUnwrap::verbose_unwrap(option, Some("Here's a message"), SCOPE, FILE, 279, 17);
    assert_eq!(x, 32);
    assert_eq!(y, 32);
}

#[test]
#[should_panic]
fn unwrap_option_none_message() {
    let option: Option<u32> = None;
    let message = Some("Here's a message");
    match VerboseUnwrap::try_verbose_unwrap(option, message, SCOPE, FILE, 288, 17) {
        Ok(_) => {}
        Err(text) => panic!("{}", text),
    }
}

#[test]
#[should_panic]
fn unwrap_option_none_no_message() {
    let option: Option<u32> = None;
    match VerboseUnwrap::try_verbose_unwrap(option, None, SCOPE, FILE, 295, 17) {
        Ok(_) => {}
        Err(text) => panic!("{}", text),
    }
}

#[test]
fn unwrap_err_result_err() {
    let result: Result<u32, u32> = Err(32);
    let x = VerboseUnwrapErr::verbose_unwrap_err(result, None, SCOPE, FILE, 301, 17);
    let y = VerboseUnwrapErr::verbose_unwrap_err(
        result,
        Some("Here's a message"),
        SCOPE,
        FILE,
        302,
        17,
    );
    assert_eq!(x, 32);
    assert_eq!(y, 32);
}

#[test]
#[should_panic]
fn unwrap_err_result_ok_message_args() {
    let result: Result<u32, u32> = Ok(32);
    let message = format!("Here's a message {}", 23);
    match VerboseUnwrapErr::try_verbose_unwrap_err(result, Some(&message), SCOPE, FILE, 311, 17) {
        Ok(_) => {}
        Err(text) => panic!("{}", text),
    }
}

#[test]
#[should_panic]
fn unwrap_err_result_ok_message() {
    let result: Result<u32, u32> = Ok(32);
    match VerboseUnwrapErr::try_verbose_unwrap_err(
        result,
        Some("Here's a message"),
        SCOPE,
        FILE,
        318,
        17,
    ) {
        Ok(_) => {}
        Err(text) => panic!("{}", text),
    }
}

#[test]
#[should_panic]
fn unwrap_err_result_ok_no_message() {
    let result: Result<u32, u32> = Ok(32);
    match VerboseUnwrapErr::try_verbose_unwrap_err(result, None, SCOPE, FILE, 325, 17) {
        Ok(_) => {}
        Err(text) => panic!("{}", text),
    }
}
