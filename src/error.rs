//! The library's error type.

use vstd::prelude::*;

use crate::decimal::{decimal_string, decimal_text};

verus! {

/// Everything that can go wrong in rendering, pushing or configuring.
#[derive(Clone, Debug)]
#[non_exhaustive]
pub enum Error {
    /// Image rendering failed.
    Render(String),
    /// File input or output failed.
    Io(String),
    /// The browser was not found or failed.
    Chrome(String),
    /// The image exceeds what the firmware accepts.
    ImageTooLarge { size: usize, max: usize },
    /// JSON encoding or decoding failed.
    Json(String),
    /// A configuration document is malformed.
    Config(String),
    /// The remote service answered 429.
    RateLimited,
    /// The remote service answered another non-success status.
    Api { status: u16, body: String },
    /// The request could not be carried out.
    Request(String),
}

/// The text that describes an error.
pub open spec fn error_message(e: Error) -> Seq<char> {
    match e {
        Error::Render(s) => "Render failed: "@ + s@,
        Error::Io(s) => "I/O error: "@ + s@,
        Error::Chrome(s) => "Chrome error: "@ + s@,
        Error::ImageTooLarge { size, max } => "Image too large: "@ + decimal_text(size as nat)
            + " bytes (max "@ + decimal_text(max as nat) + " bytes)"@,
        Error::Json(s) => "JSON error: "@ + s@,
        Error::Config(s) => "Config error: "@ + s@,
        Error::RateLimited => "Rate limit exceeded"@,
        Error::Api { status, body } => "API error "@ + decimal_text(status as nat) + ": "@ + body@,
        Error::Request(s) => "Request failed: "@ + s@,
    }
}

impl Error {
    /// Describes the error in words.
    pub fn message(&self) -> (r: String)
        ensures
            r@ == error_message(*self),
    {
        match self {
            Error::Render(s) => String::from_str("Render failed: ").concat(s.as_str()),
            Error::Io(s) => String::from_str("I/O error: ").concat(s.as_str()),
            Error::Chrome(s) => String::from_str("Chrome error: ").concat(s.as_str()),
            Error::ImageTooLarge { size, max } => {
                let a = decimal_string(*size as u64);
                let b = decimal_string(*max as u64);
                String::from_str("Image too large: ").concat(a.as_str()).concat(" bytes (max ").concat(
                    b.as_str(),
                ).concat(" bytes)")
            },
            Error::Json(s) => String::from_str("JSON error: ").concat(s.as_str()),
            Error::Config(s) => String::from_str("Config error: ").concat(s.as_str()),
            Error::RateLimited => String::from_str("Rate limit exceeded"),
            Error::Api { status, body } => {
                let code = decimal_string(*status as u64);
                String::from_str("API error ").concat(code.as_str()).concat(": ").concat(body.as_str())
            },
            Error::Request(s) => String::from_str("Request failed: ").concat(s.as_str()),
        }
    }
}

} // verus!
