use windows_named_pipe::client::{check_result, timeout_millis, wait_result, Client, NamedPipeCheck};
use windows_named_pipe::os::{OsError, ERROR_FILE_NOT_FOUND, ERROR_PIPE_BUSY, ERROR_SEM_TIMEOUT};

#[test]
fn check_outcomes() {
    let e = OsError { code: 5 };
    assert_eq!(check_result(Ok(()), 0), Ok(NamedPipeCheck::Available));
    assert_eq!(check_result(Err(e), ERROR_FILE_NOT_FOUND), Ok(NamedPipeCheck::Unavailable));
    assert_eq!(check_result(Err(e), ERROR_PIPE_BUSY), Ok(NamedPipeCheck::Busy));
    assert_eq!(check_result(Err(e), 5), Err(e));
}

#[test]
fn wait_outcomes() {
    let e = OsError { code: 2 };
    assert_eq!(wait_result(Ok(()), 0), Ok(true));
    assert_eq!(wait_result(Err(e), ERROR_SEM_TIMEOUT), Ok(false));
    assert_eq!(wait_result(Err(e), ERROR_FILE_NOT_FOUND), Err(e));
}

#[test]
fn timeouts_saturate() {
    assert_eq!(timeout_millis(0), 0);
    assert_eq!(timeout_millis(20_000), 20_000);
    assert_eq!(timeout_millis(u32::MAX as u128 - 1), u32::MAX - 1);
    assert_eq!(timeout_millis(u128::MAX), u32::MAX);
}

#[test]
fn client_handle() {
    assert_eq!(Client::new(12).handle(), 12);
}
