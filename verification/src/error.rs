//! The error type of the crate.

use vstd::prelude::*;
use vstd::std_specs::convert::FromSpecImpl;
use crate::text::concat;
use crate::trusted::{anyhow_error_text, io_error_text, json_error_text};

verus! {

/// What can go wrong in this crate.
#[derive(Debug)]
pub enum ConnectUtilError {
    Config(String),
    Validation(String),
    Terraform(String),
    UserInput(String),
    Io(std::io::Error),
    Json(serde_json::Error),
    Unknown(String),
}

/// An error without what the wrapped I/O and JSON errors hold.
pub enum ErrorView {
    Config(Seq<char>),
    Validation(Seq<char>),
    Terraform(Seq<char>),
    UserInput(Seq<char>),
    Io,
    Json,
    Unknown(Seq<char>),
}

impl View for ConnectUtilError {
    type V = ErrorView;

    open spec fn view(&self) -> ErrorView {
        match self {
            ConnectUtilError::Config(m) => ErrorView::Config(m@),
            ConnectUtilError::Validation(m) => ErrorView::Validation(m@),
            ConnectUtilError::Terraform(m) => ErrorView::Terraform(m@),
            ConnectUtilError::UserInput(m) => ErrorView::UserInput(m@),
            ConnectUtilError::Io(_) => ErrorView::Io,
            ConnectUtilError::Json(_) => ErrorView::Json,
            ConnectUtilError::Unknown(m) => ErrorView::Unknown(m@),
        }
    }
}

impl ConnectUtilError {
    /// The message of the error: what kind it is, then the detail.
    pub fn to_string(&self) -> (r: String)
        ensures
            match self@ {
                ErrorView::Config(m) => r@ == "Configuration error: "@ + m,
                ErrorView::Validation(m) => r@ == "Validation error: "@ + m,
                ErrorView::Terraform(m) => r@ == "Terraform generation error: "@ + m,
                ErrorView::UserInput(m) => r@ == "User input error: "@ + m,
                ErrorView::Io => exists|detail: Seq<char>| r@ == "File I/O error: "@ + detail,
                ErrorView::Json => exists|detail: Seq<char>|
                    r@ == "JSON serialization error: "@ + detail,
                ErrorView::Unknown(m) => r@ == "Unknown error: "@ + m,
            },
    {
        match self {
            ConnectUtilError::Config(m) => concat("Configuration error: ", m.as_str()),
            ConnectUtilError::Validation(m) => concat("Validation error: ", m.as_str()),
            ConnectUtilError::Terraform(m) => concat("Terraform generation error: ", m.as_str()),
            ConnectUtilError::UserInput(m) => concat("User input error: ", m.as_str()),
            ConnectUtilError::Io(err) => {
                let detail = io_error_text(err);
                concat("File I/O error: ", detail.as_str())
            },
            ConnectUtilError::Json(err) => {
                let detail = json_error_text(err);
                concat("JSON serialization error: ", detail.as_str())
            },
            ConnectUtilError::Unknown(m) => concat("Unknown error: ", m.as_str()),
        }
    }
}

impl From<std::io::Error> for ConnectUtilError {
    fn from(err: std::io::Error) -> (r: ConnectUtilError) {
        ConnectUtilError::Io(err)
    }
}

impl FromSpecImpl<std::io::Error> for ConnectUtilError {
    open spec fn obeys_from_spec() -> bool {
        true
    }

    open spec fn from_spec(err: std::io::Error) -> ConnectUtilError {
        ConnectUtilError::Io(err)
    }
}

impl From<serde_json::Error> for ConnectUtilError {
    fn from(err: serde_json::Error) -> (r: ConnectUtilError) {
        ConnectUtilError::Json(err)
    }
}

impl FromSpecImpl<serde_json::Error> for ConnectUtilError {
    open spec fn obeys_from_spec() -> bool {
        true
    }

    open spec fn from_spec(err: serde_json::Error) -> ConnectUtilError {
        ConnectUtilError::Json(err)
    }
}

impl From<anyhow::Error> for ConnectUtilError {
    /// An error of any kind becomes an unknown error with the message that
    /// the error formats itself to.
    fn from(err: anyhow::Error) -> (r: ConnectUtilError)
        ensures
            r is Unknown,
    {
        ConnectUtilError::Unknown(anyhow_error_text(&err))
    }
}

/// The message is what `anyhow` writes for the error, which nothing in this
/// crate can state: `from` promises the kind of the result and no more.
impl FromSpecImpl<anyhow::Error> for ConnectUtilError {
    open spec fn obeys_from_spec() -> bool {
        false
    }

    open spec fn from_spec(err: anyhow::Error) -> ConnectUtilError {
        arbitrary()
    }
}

} // verus!
