//! The unified failure taxonomy and the response-classification layer.
//!
//! Every failure a fetch can produce is one of three kinds: a transport
//! failure before any response was obtained, a response whose body did not
//! match the expected schema, or a response with a non-success HTTP status.
//! The inspection methods let callers branch on the common cases without
//! matching the full taxonomy.

use vstd::prelude::*;

use crate::urls::decimal_digits;
use crate::urls::push_decimal;

verus! {

/// A classified failure of a fetch operation.
#[derive(Clone, Debug, PartialEq, Eq)]
pub enum PokeApiError {
    /// A connection-level or protocol-level failure before a response was
    /// obtained; carries the transport error's description.
    RequestError(String),
    /// A response was obtained with a success status, but its body did not
    /// match the expected shape; carries the parse error's description.
    DeserializationError(String),
    /// The server responded with a non-success status; carries the numeric
    /// status code and the fully-resolved request URL.
    ApiError { status: u16, url: String },
}

/// Whether `status` counts as an HTTP success status.
pub open spec fn spec_is_success_status(status: u16) -> bool {
    200 <= status < 300
}

/// Classifies an HTTP status code: success is the 2xx range.
pub fn is_success_status(status: u16) -> (r: bool)
    ensures
        r == spec_is_success_status(status),
{
    200 <= status && status < 300
}

/// Classifies a response's status for a fetched URL: a success status
/// passes, any other yields the API failure carrying that status and URL.
pub fn check_status(status: u16, url: &str) -> (r: Result<(), PokeApiError>)
    ensures
        r is Ok <==> spec_is_success_status(status),
        !spec_is_success_status(status) ==> (r matches Err(e)
            && e matches PokeApiError::ApiError { status: s, url: u }
            && s == status && u@ == url@),
{
    if is_success_status(status) {
        Ok(())
    } else {
        Err(PokeApiError::ApiError { status, url: url.to_owned() })
    }
}

/// Classifies a transport-level failure by whether the transport flagged it
/// as a body-decoding failure: those are deserialization failures, all
/// others are request failures.
pub fn classify_transport(is_decode: bool, message: String) -> (r: PokeApiError)
    ensures
        is_decode ==> r == PokeApiError::DeserializationError(message),
        !is_decode ==> r == PokeApiError::RequestError(message),
{
    if is_decode {
        PokeApiError::DeserializationError(message)
    } else {
        PokeApiError::RequestError(message)
    }
}

impl PokeApiError {
    /// The status code carried by an API failure, if this is one.
    pub open spec fn spec_status_code(&self) -> Option<u16> {
        match *self {
            PokeApiError::ApiError { status, .. } => Some(status),
            _ => None,
        }
    }

    /// Whether this is an API failure with the not-found status.
    pub open spec fn spec_is_not_found(&self) -> bool {
        *self matches PokeApiError::ApiError { status, .. } && status == 404
    }

    /// The URL carried by an API failure, if this is one.
    pub open spec fn spec_url(&self) -> Option<Seq<char>> {
        match *self {
            PokeApiError::ApiError { url: u, .. } => Some(u@),
            _ => None,
        }
    }

    /// Returns the HTTP status code if this is an API failure.
    pub fn status_code(&self) -> (r: Option<u16>)
        ensures
            r == self.spec_status_code(),
    {
        if let PokeApiError::ApiError { status, .. } = self {
            Some(*status)
        } else {
            None
        }
    }

    /// Checks whether this failure is a 404 Not Found API failure.
    pub fn is_not_found(&self) -> (r: bool)
        ensures
            r == self.spec_is_not_found(),
    {
        match self {
            PokeApiError::ApiError { status: 404, .. } => true,
            _ => false,
        }
    }

    /// Retrieves the URL that triggered an API failure, if any.
    pub fn url(&self) -> (r: Option<&str>)
        ensures
            match r {
                Some(u) => self.spec_url() == Some(u@),
                None => self.spec_url() is None,
            },
    {
        match self {
            PokeApiError::ApiError { url, .. } => Some(url.as_str()),
            _ => None,
        }
    }

    /// The human-readable description of this failure.
    pub open spec fn spec_describe(&self) -> Seq<char> {
        match *self {
            PokeApiError::RequestError(m) => "Request error: "@ + m@,
            PokeApiError::DeserializationError(m) => "Deserialization error: "@ + m@,
            PokeApiError::ApiError { status, url: u } => "API error "@
                + decimal_digits(status as nat) + ": "@ + u@,
        }
    }

    /// Renders the failure as one human-readable line.
    pub fn describe(&self) -> (r: String)
        ensures
            r@ == self.spec_describe(),
    {
        match self {
            PokeApiError::RequestError(m) => {
                let mut s = String::new();
                s.append("Request error: ");
                s.append(m.as_str());
                proof {
                    assert(s@ =~= self.spec_describe());
                }
                s
            },
            PokeApiError::DeserializationError(m) => {
                let mut s = String::new();
                s.append("Deserialization error: ");
                s.append(m.as_str());
                proof {
                    assert(s@ =~= self.spec_describe());
                }
                s
            },
            PokeApiError::ApiError { status, url } => {
                let mut s = String::new();
                s.append("API error ");
                push_decimal(&mut s, *status as u32);
                s.append(": ");
                s.append(url.as_str());
                proof {
                    assert(s@ =~= self.spec_describe());
                }
                s
            },
        }
    }
}

} // verus!
