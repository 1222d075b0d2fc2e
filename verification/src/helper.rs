//! The error of the relaying commands.

use vstd::prelude::*;

verus! {

/// `std::io::Error`, an opaque value that is only carried along.
#[verifier::external_type_specification]
#[verifier::external_body]
pub struct ExIoError(std::io::Error);

/// Why a relaying command gave up.
#[derive(Debug)]
pub enum PublicError {
    /// An input or output operation failed.
    IOError(std::io::Error),
}

impl From<std::io::Error> for PublicError {
    fn from(err: std::io::Error) -> (public: PublicError) {
        PublicError::IOError(err)
    }
}

impl vstd::std_specs::convert::FromSpecImpl<std::io::Error> for PublicError {
    open spec fn obeys_from_spec() -> bool {
        true
    }

    open spec fn from_spec(err: std::io::Error) -> PublicError {
        PublicError::IOError(err)
    }
}

/// The message for an input or output error whose own message is `text`.
pub open spec fn io_error_message(text: Seq<char>) -> Seq<char> {
    "IOError: "@ + text
}

/// Writes the message for an input or output error whose own message is `text`.
pub fn describe_io_error(text: &str) -> (message: String)
    ensures
        message@ == io_error_message(text@),
{
    String::from_str("IOError: ").concat(text)
}

impl PublicError {
    /// Writes the error for a reader: the message of the error inside, after a
    /// word that says what kind of error it is.
    pub fn message(&self) -> (message: String)
        ensures
            exists|text: String|
                #[trigger] vstd::string::to_string_from_display_ensures::<std::io::Error>(
                    &self->IOError_0,
                    text,
                ) && message@ == io_error_message(text@),
    {
        match self {
            PublicError::IOError(err) => {
                let text = err.to_string();
                describe_io_error(text.as_str())
            },
        }
    }
}

/// The message for an input or output error ends with the whole of the error's own
/// message, and says before it what kind of error it is.
pub proof fn law_io_error_message_parts(text: Seq<char>)
    ensures
        io_error_message(text).len() == text.len() + 9,
        io_error_message(text).take(9) == "IOError: "@,
        io_error_message(text).skip(9) == text,
{
    reveal_strlit("IOError: ");
    assert(io_error_message(text).take(9) =~= "IOError: "@);
    assert(io_error_message(text).skip(9) =~= text);
}

} // verus!
