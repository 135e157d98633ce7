use vstd::prelude::*;

verus! {

/// The failures that the service reports to its callers.
#[derive(Debug)]
pub enum Error {
    /// The upstream call failed, in transport or with a non-success status.
    NetworkError { message: String },
    /// The configuration is missing, invalid or loaded twice.
    ConfigError { message: String },
}

pub type Result<T> = core::result::Result<T, Error>;

impl Error {
    /// The text of the error as it is shown to an operator.
    pub open spec fn text(&self) -> Seq<char> {
        match self {
            Error::NetworkError { message } => "Network error: "@ + message@,
            Error::ConfigError { message } => "Config error: "@ + message@,
        }
    }

    /// The message that the error carries.
    pub open spec fn message_view(&self) -> Seq<char> {
        match self {
            Error::NetworkError { message } => message@,
            Error::ConfigError { message } => message@,
        }
    }

    /// Renders the error as a line of text, with its kind before its message.
    pub fn to_string(&self) -> (r: String)
        ensures
            r@ == self.text(),
    {
        match self {
            Error::NetworkError { message } => {
                String::from_str("Network error: ").concat(message.as_str())
            },
            Error::ConfigError { message } => {
                String::from_str("Config error: ").concat(message.as_str())
            },
        }
    }
}

} // verus!
