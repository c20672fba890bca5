//! The errors of the payment daemon.
//!
//! The errors that outside libraries report (HTTP, JSON, the Solana client,
//! prompts) reach this type as their rendered messages.

use vstd::prelude::*;

use crate::text::{decimal, decimal_string};

verus! {

/// Everything that can stop a payment cycle, a backend call or start-up.
#[derive(Debug, Clone, PartialEq, Eq)]
pub enum PyeCliError {
    ReqwestError(String),
    SerdeJsonError(String),
    TryFromIntError(String),
    SolanaClientError(String),
    DialoguerError(String),
    AuthFailed(String),
    ReadKeypairError(String),
    /// The backend answered with an HTTP status of 300 or more; the body it sent.
    PyeApiError(u16, String),
}

/// The text that describes `e`: the variant's name, `": "`, then what it holds
/// (for an API error the status in decimal, a space and the body).
pub open spec fn error_message(e: PyeCliError) -> Seq<char> {
    match e {
        PyeCliError::ReqwestError(m) => "ReqwestError: "@ + m@,
        PyeCliError::SerdeJsonError(m) => "SerdeJsonError: "@ + m@,
        PyeCliError::TryFromIntError(m) => "TryFromIntError: "@ + m@,
        PyeCliError::SolanaClientError(m) => "SolanaClientError: "@ + m@,
        PyeCliError::DialoguerError(m) => "DialoguerError: "@ + m@,
        PyeCliError::AuthFailed(m) => "AuthFailed: "@ + m@,
        PyeCliError::ReadKeypairError(m) => "ReadKeypairError: "@ + m@,
        PyeCliError::PyeApiError(status, body) => "PyeApiError: "@ + decimal(status as nat) + " "@
            + body@,
    }
}

impl PyeCliError {
    /// The message that reports this error.
    pub fn message(&self) -> (r: String)
        ensures
            r@ == error_message(*self),
    {
        let (mut r, detail) = match self {
            PyeCliError::ReqwestError(m) => ("ReqwestError: ".to_owned(), m),
            PyeCliError::SerdeJsonError(m) => ("SerdeJsonError: ".to_owned(), m),
            PyeCliError::TryFromIntError(m) => ("TryFromIntError: ".to_owned(), m),
            PyeCliError::SolanaClientError(m) => ("SolanaClientError: ".to_owned(), m),
            PyeCliError::DialoguerError(m) => ("DialoguerError: ".to_owned(), m),
            PyeCliError::AuthFailed(m) => ("AuthFailed: ".to_owned(), m),
            PyeCliError::ReadKeypairError(m) => ("ReadKeypairError: ".to_owned(), m),
            PyeCliError::PyeApiError(status, body) => {
                let mut head = "PyeApiError: ".to_owned();
                let code = decimal_string(*status as u64);
                head.append(code.as_str());
                head.append(" ");
                (head, body)
            },
        };
        r.append(detail.as_str());
        r
    }
}

} // verus!
