use vstd::prelude::*;

verus! {

#[verifier::external_type_specification]
#[verifier::external_body]
pub struct ExInquireError(inquire::InquireError);

#[verifier::external_type_specification]
#[verifier::external_body]
pub struct ExIoError(std::io::Error);

#[verifier::external_type_specification]
#[verifier::external_body]
pub struct ExFromUtf8Error(std::string::FromUtf8Error);

/// Every failure the wizard can meet, by kind.
#[derive(Debug)]
pub enum FriseError {
    /// A prompt could not be answered (input closed, cancelled, interrupted).
    InquireError(inquire::InquireError),
    /// A child process wrote bytes that are not UTF-8.
    Utf8Error(std::string::FromUtf8Error),
    /// A child process could not be started or waited for.
    IOError(std::io::Error),
    /// A condition of the wizard itself, or a child's error output.
    Custom(String),
}

pub type FriseResult<T> = Result<T, FriseError>;

impl FriseError {
    /// Wraps a prompt failure.
    pub fn from_inquire(e: inquire::InquireError) -> (r: FriseError)
        ensures
            r == FriseError::InquireError(e),
    {
        FriseError::InquireError(e)
    }

    /// Wraps a decoding failure.
    pub fn from_utf8_error(e: std::string::FromUtf8Error) -> (r: FriseError)
        ensures
            r == FriseError::Utf8Error(e),
    {
        FriseError::Utf8Error(e)
    }

    /// Wraps a process start or wait failure.
    pub fn from_io(e: std::io::Error) -> (r: FriseError)
        ensures
            r == FriseError::IOError(e),
    {
        FriseError::IOError(e)
    }
}

} // verus!
