use std::io::{Error, ErrorKind};
use xor_errors::{XorError, XorResult};

#[test]
fn io_error_keeps_its_kind() {
    assert_eq!(
        XorError::from(Error::from(ErrorKind::NotFound)),
        XorError::Io(ErrorKind::NotFound)
    );
    assert_eq!(
        XorError::from(Error::from(ErrorKind::UnexpectedEof)),
        XorError::Io(ErrorKind::UnexpectedEof)
    );
    assert_ne!(
        XorError::from(Error::from(ErrorKind::NotFound)),
        XorError::Io(ErrorKind::PermissionDenied)
    );
}

#[test]
fn io_error_message_is_dropped() {
    let first = XorError::from(Error::new(ErrorKind::PermissionDenied, "no access to a.txt"));
    let second = XorError::from(Error::new(ErrorKind::PermissionDenied, "no access to b.txt"));
    assert_eq!(first, XorError::Io(ErrorKind::PermissionDenied));
    assert_eq!(first, second);
}

#[test]
fn tokio_and_smol_errors_convert_alike() {
    let from_tokio = XorError::from(tokio::io::Error::from(tokio::io::ErrorKind::NotFound));
    let from_smol = XorError::from(smol::io::Error::from(smol::io::ErrorKind::NotFound));
    assert_eq!(from_tokio, XorError::Io(ErrorKind::NotFound));
    assert_eq!(from_smol, XorError::Io(ErrorKind::NotFound));
    assert_eq!(from_tokio, from_smol);

    let from_tokio = XorError::from(tokio::io::Error::new(tokio::io::ErrorKind::TimedOut, "late"));
    let from_smol = XorError::from(smol::io::Error::new(smol::io::ErrorKind::TimedOut, "slow"));
    assert_eq!(from_tokio, from_smol);
    assert_eq!(from_smol, XorError::Io(ErrorKind::TimedOut));
}

fn fail_with(kind: ErrorKind) -> XorResult<'static, u8> {
    let outcome: Result<u8, Error> = Err(Error::from(kind));
    Ok(outcome?)
}

#[test]
fn question_mark_converts_an_io_error() {
    assert_eq!(fail_with(ErrorKind::BrokenPipe), Err(XorError::Io(ErrorKind::BrokenPipe)));
}

#[test]
fn io_errors_order_as_their_kinds_do() {
    let kinds = vec![
        ErrorKind::NotFound,
        ErrorKind::PermissionDenied,
        ErrorKind::ConnectionRefused,
        ErrorKind::AlreadyExists,
        ErrorKind::InvalidInput,
        ErrorKind::TimedOut,
        ErrorKind::UnexpectedEof,
        ErrorKind::Other,
    ];
    for a in kinds.iter() {
        for b in kinds.iter() {
            let (x, y) = (XorError::Io(*a), XorError::Io(*b));
            assert_eq!(x.partial_cmp(&y), Some(a.cmp(b)));
            assert_eq!(x.cmp(&y), a.cmp(b));
            assert_eq!(x == y, a == b);
        }
    }
}
