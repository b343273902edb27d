use vstd::prelude::*;

verus! {

#[verifier::external_type_specification]
#[verifier::external_body]
pub struct ExIoError(std::io::Error);

/// The ways in which creating or opening a temporary resource fails.
#[derive(Debug)]
pub enum Error {
    /// An invalid or missing directory was specified.
    InvalidDirectory,
    /// An invalid or missing file was specified.
    InvalidFile,
    /// An I/O error occurred.
    Io(std::io::Error),
}

/// Relies on `std::io::Error`'s `Display`: the operating system's text for the error.
#[verifier::external_body]
fn io_error_text(e: &std::io::Error) -> String {
    e.to_string()
}

impl Error {
    /// The message that describes the error.
    pub fn describe(&self) -> (r: String)
        ensures
            self is InvalidDirectory ==> r@ == "An invalid directory was specified"@,
            self is InvalidFile ==> r@ == "An invalid file name was specified"@,
    {
        match self {
            Error::InvalidDirectory => String::from_str("An invalid directory was specified"),
            Error::InvalidFile => String::from_str("An invalid file name was specified"),
            Error::Io(e) => io_error_text(e),
        }
    }
}

impl From<std::io::Error> for Error {
    fn from(e: std::io::Error) -> (r: Self)
        ensures
            r == Error::Io(e),
    {
        Error::Io(e)
    }
}

impl vstd::std_specs::convert::FromSpecImpl<std::io::Error> for Error {
    open spec fn obeys_from_spec() -> bool {
        true
    }

    open spec fn from_spec(e: std::io::Error) -> Self {
        Error::Io(e)
    }
}

} // verus!
