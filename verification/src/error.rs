//! The failures a request can end in.

use vstd::prelude::*;

verus! {

/// Why the tokenizer gave no answer.
#[derive(Clone, Copy, Debug, PartialEq, Eq, Structural)]
pub enum TokenizeError {
    /// The tokenizer could not be reached.
    ConnectionFailed,
    /// The connection broke while the text was written or the answer read.
    IOFailure,
}

/// Why a store operation gave no result.
#[derive(Clone, Copy, Debug, PartialEq, Eq, Structural)]
pub enum StoreError {
    /// The tokenizer failed, so the write was abandoned before it touched the store.
    TokenizationFailed(TokenizeError),
    /// No row has the id that the operation names.
    NotFound,
    /// The data store reported a failure.
    StoreError,
}

impl TokenizeError {
    /// The characters of [`TokenizeError::message`].
    pub open spec fn message_text(self) -> Seq<char> {
        match self {
            TokenizeError::ConnectionFailed => "tokenizer unreachable"@,
            TokenizeError::IOFailure => "tokenizer connection broke"@,
        }
    }

    /// A short description for logs and error bodies.
    pub fn message(&self) -> (text: &'static str)
        ensures
            text@ == self.message_text(),
    {
        match self {
            TokenizeError::ConnectionFailed => "tokenizer unreachable",
            TokenizeError::IOFailure => "tokenizer connection broke",
        }
    }
}

impl StoreError {
    /// The characters of [`StoreError::message`]: those of its cause when the
    /// tokenizer failed.
    pub open spec fn message_text(self) -> Seq<char> {
        match self {
            StoreError::TokenizationFailed(cause) => cause.message_text(),
            StoreError::NotFound => "no row with that id"@,
            StoreError::StoreError => "data store failure"@,
        }
    }

    /// A short description for logs and error bodies.
    pub fn message(&self) -> (text: &'static str)
        ensures
            text@ == self.message_text(),
    {
        match self {
            StoreError::TokenizationFailed(cause) => cause.message(),
            StoreError::NotFound => "no row with that id",
            StoreError::StoreError => "data store failure",
        }
    }
}

} // verus!
