//! The failures of a request to the feed.

use vstd::prelude::*;
use vstd::string::StringExecFns;
use crate::story::{decode_message, DecodeError};
use crate::text::{decimal, push_decimal};

verus! {

/// The feed could not be reached, or it answered with a failure.
#[derive(Clone, Debug, PartialEq, Eq)]
pub struct TransportError {
    /// The status that the feed answered with, where it answered at all.
    pub status: Option<u16>,
    /// What the driver has to say about the failure.
    pub detail: String,
}

/// Why a request gave no value: it did not get through, or what came back
/// could not be decoded.
#[derive(Clone, Debug, PartialEq, Eq)]
pub enum FetchError {
    Transport(TransportError),
    Decode(DecodeError),
}

/// What is said of a failure to reach the feed: the status, where there is
/// one, and what the driver had to say.
pub open spec fn transport_message(status: Option<u16>, detail: Seq<char>) -> Seq<char> {
    match status {
        Some(code) => "status "@ + decimal(code as nat) + ": "@ + detail,
        None => detail,
    }
}

/// What is said of a request that gave no value.
pub open spec fn fetch_message(error: FetchError) -> Seq<char> {
    match error {
        FetchError::Transport(cause) => "transport error: "@ + transport_message(
            cause.status,
            cause.detail@,
        ),
        FetchError::Decode(cause) => "decode error: "@ + decode_message(cause),
    }
}

impl TransportError {
    /// A line that says why the feed could not be read.
    pub fn message(&self) -> (message: String)
        ensures
            message@ == transport_message(self.status, self.detail@),
    {
        match self.status {
            Some(code) => {
                let mut message = String::from_str("status ");
                push_decimal(&mut message, code as u64);
                message.append(": ");
                message.append(self.detail.as_str());
                message
            },
            None => self.detail.clone(),
        }
    }
}

impl FetchError {
    /// A line that says why the request gave no value.
    pub fn message(&self) -> (message: String)
        ensures
            message@ == fetch_message(*self),
    {
        match self {
            FetchError::Transport(cause) => {
                let mut message = String::from_str("transport error: ");
                message.append(cause.message().as_str());
                message
            },
            FetchError::Decode(cause) => {
                let mut message = String::from_str("decode error: ");
                message.append(cause.message().as_str());
                message
            },
        }
    }
}

} // verus!
