//! What can go wrong inside the library. Failures of the transport and of
//! decoding belong to the caller that talks to the network.

use vstd::prelude::*;
use vstd::string::StringExecFns;

verus! {

/// Why the library refuses to build a request, or what the exchange
/// refused.
#[derive(Debug, PartialEq, Eq)]
pub enum OkxError {
    /// Path and query parameters are longer than a URL is allowed to be.
    UrlTooLong,
    /// The base URL followed by the path is not an absolute URL.
    InvalidUrl,
    /// The API key, the passphrase or the timestamp holds a control character
    /// other than the tab, which no header value may hold.
    InvalidHeaderValue,
    /// The exchange answered with a code other than `"0"`.
    ResponseCode { code: String },
}

/// An error with its code as text.
pub ghost enum OkxErrorView {
    UrlTooLong,
    InvalidUrl,
    InvalidHeaderValue,
    ResponseCode(Seq<char>),
}

impl View for OkxError {
    type V = OkxErrorView;

    open spec fn view(&self) -> OkxErrorView {
        match self {
            OkxError::UrlTooLong => OkxErrorView::UrlTooLong,
            OkxError::InvalidUrl => OkxErrorView::InvalidUrl,
            OkxError::InvalidHeaderValue => OkxErrorView::InvalidHeaderValue,
            OkxError::ResponseCode { code } => OkxErrorView::ResponseCode(code@),
        }
    }
}

impl OkxError {
    /// The text of `describe`.
    pub open spec fn description(self) -> Seq<char> {
        match self {
            OkxError::UrlTooLong => "The request path and query are too long for a URL"@,
            OkxError::InvalidUrl => "The request path does not form a valid URL"@,
            OkxError::InvalidHeaderValue => "A header value holds a control character"@,
            OkxError::ResponseCode { code } => "Response code is not OK: "@ + code@,
        }
    }

    /// A sentence for the error; for a response code, the code follows it.
    pub fn describe(&self) -> (text: String)
        ensures
            text@ == self.description(),
    {
        match self {
            OkxError::UrlTooLong => String::from_str(
                "The request path and query are too long for a URL",
            ),
            OkxError::InvalidUrl => String::from_str("The request path does not form a valid URL"),
            OkxError::InvalidHeaderValue => String::from_str(
                "A header value holds a control character",
            ),
            OkxError::ResponseCode { code } => {
                let mut text = String::from_str("Response code is not OK: ");
                text.append(code.as_str());
                text
            },
        }
    }
}

} // verus!
