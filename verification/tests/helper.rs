use std::io;

use socket_activation::helper::{describe_io_error, PublicError};

#[test]
fn an_io_error_is_kept() {
    let error = PublicError::from(io::Error::new(io::ErrorKind::AddrInUse, "taken"));
    let PublicError::IOError(inner) = error;
    assert_eq!(inner.kind(), io::ErrorKind::AddrInUse);
    assert_eq!(inner.to_string(), "taken");
}

#[test]
fn the_message_names_the_error() {
    let error = PublicError::from(io::Error::new(io::ErrorKind::Other, "no luck"));
    assert_eq!(error.message(), "IOError: no luck");
    assert_eq!(describe_io_error(""), "IOError: ");
}

#[test]
fn the_error_is_converted_on_the_way_out() {
    fn fails() -> Result<(), PublicError> {
        Err(io::Error::new(io::ErrorKind::NotFound, "gone"))?;
        Ok(())
    }
    let PublicError::IOError(inner) = fails().unwrap_err();
    assert_eq!(inner.kind(), io::ErrorKind::NotFound);
}
