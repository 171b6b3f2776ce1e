use vstd::prelude::*;

verus! {

#[verifier::external_type_specification]
#[verifier::external_body]
pub struct ExUrlParseError(url::ParseError);

#[verifier::external_type_specification]
#[verifier::external_body]
pub struct ExJsonError(serde_json::Error);

#[verifier::external_type_specification]
#[verifier::external_body]
pub struct ExIoError(std::io::Error);

#[verifier::external_type_specification]
#[verifier::external_body]
pub struct ExHttpError(attohttpc::Error);

/// Errors of the logger and of its delivery clients.
#[derive(Debug)]
pub enum DataDogLoggerError {
    /// The backend's address is not a valid URL
    UrlParsingError(url::ParseError),
    /// A message could not be serialized
    MessageSerializationError(serde_json::Error),
    /// I/O error
    IoError(std::io::Error),
    /// HTTP client error
    HttpError(attohttpc::Error),
    /// Any other error, described by its text
    OtherError(String),
}

/// Relies on the `Display` of url::ParseError for its text.
#[verifier::external_body]
fn url_error_text(e: &url::ParseError) -> String {
    e.to_string()
}

/// Relies on the `Display` of serde_json::Error for its text.
#[verifier::external_body]
fn json_error_text(e: &serde_json::Error) -> String {
    e.to_string()
}

/// Relies on the `Display` of std::io::Error for its text.
#[verifier::external_body]
fn io_error_text(e: &std::io::Error) -> String {
    e.to_string()
}

/// Relies on the `Display` of attohttpc::Error for its text.
#[verifier::external_body]
fn http_error_text(e: &attohttpc::Error) -> String {
    e.to_string()
}

impl DataDogLoggerError {
    /// The human-readable text of the error: the wrapped error's own text,
    /// or the text that `OtherError` carries.
    pub fn to_text(&self) -> (r: String)
        ensures
            self is OtherError ==> r@ == self->OtherError_0@,
    {
        match self {
            DataDogLoggerError::UrlParsingError(e) => url_error_text(e),
            DataDogLoggerError::MessageSerializationError(e) => json_error_text(e),
            DataDogLoggerError::IoError(e) => io_error_text(e),
            DataDogLoggerError::HttpError(e) => http_error_text(e),
            DataDogLoggerError::OtherError(e) => e.clone(),
        }
    }
}

impl From<url::ParseError> for DataDogLoggerError {
    fn from(e: url::ParseError) -> (r: Self) {
        DataDogLoggerError::UrlParsingError(e)
    }
}

impl vstd::std_specs::convert::FromSpecImpl<url::ParseError> for DataDogLoggerError {
    open spec fn obeys_from_spec() -> bool {
        true
    }

    open spec fn from_spec(e: url::ParseError) -> Self {
        DataDogLoggerError::UrlParsingError(e)
    }
}

impl From<serde_json::Error> for DataDogLoggerError {
    fn from(e: serde_json::Error) -> (r: Self) {
        DataDogLoggerError::MessageSerializationError(e)
    }
}

impl vstd::std_specs::convert::FromSpecImpl<serde_json::Error> for DataDogLoggerError {
    open spec fn obeys_from_spec() -> bool {
        true
    }

    open spec fn from_spec(e: serde_json::Error) -> Self {
        DataDogLoggerError::MessageSerializationError(e)
    }
}

impl From<std::io::Error> for DataDogLoggerError {
    fn from(e: std::io::Error) -> (r: Self) {
        DataDogLoggerError::IoError(e)
    }
}

impl vstd::std_specs::convert::FromSpecImpl<std::io::Error> for DataDogLoggerError {
    open spec fn obeys_from_spec() -> bool {
        true
    }

    open spec fn from_spec(e: std::io::Error) -> Self {
        DataDogLoggerError::IoError(e)
    }
}

impl From<attohttpc::Error> for DataDogLoggerError {
    fn from(e: attohttpc::Error) -> (r: Self) {
        DataDogLoggerError::HttpError(e)
    }
}

impl vstd::std_specs::convert::FromSpecImpl<attohttpc::Error> for DataDogLoggerError {
    open spec fn obeys_from_spec() -> bool {
        true
    }

    open spec fn from_spec(e: attohttpc::Error) -> Self {
        DataDogLoggerError::HttpError(e)
    }
}

} // verus!
