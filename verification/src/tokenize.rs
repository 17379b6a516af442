//! The tokenizer client: one exchange with the segmentation service.
//!
//! The client never touches a socket. [`process`] starts an exchange and
//! [`advance`] continues it: the caller connects, writes and reads as the
//! actions say and reports each outcome as an event. One exchange is one
//! connection, one payload written whole and without framing, and one answer
//! read until the service closes the stream.

use crate::error::TokenizeError;
use vstd::prelude::*;
use vstd::string::*;
use vstd::utf8::*;

verus! {

/// Host of the tokenizer service.
pub const TOKENIZER_HOST: &'static str = "127.0.0.1";

/// Port of the tokenizer service.
pub const TOKENIZER_PORT: u16 = 9001;

/// How far an exchange has come.
#[derive(Debug, PartialEq, Eq)]
pub enum Wire {
    /// The connection is being opened; the payload waits to be sent.
    Connecting(Vec<u8>),
    /// The payload is being written.
    Sending,
    /// The answer is being read.
    Receiving,
    /// The exchange is over.
    Closed,
}

/// What the caller has to do next.
#[derive(Debug, PartialEq, Eq)]
pub enum WireAction {
    /// Open a connection to the tokenizer at this address.
    Connect { host: &'static str, port: u16 },
    /// Write all of these bytes, as they are.
    Send(Vec<u8>),
    /// Read until the service closes the stream.
    Receive,
    /// Stop: this is the result of the exchange.
    Finish(Result<String, TokenizeError>),
}

/// What the caller saw happen.
#[derive(Debug, PartialEq, Eq)]
pub enum WireEvent {
    /// The connection is open.
    Connected,
    /// The connection could not be opened.
    Refused,
    /// The payload was written whole.
    Sent,
    /// The service closed the stream after these bytes.
    Received(Vec<u8>),
    /// Writing or reading failed.
    Broken,
}

/// A [`Wire`] as a mathematical value.
pub enum WireView {
    Connecting(Seq<u8>),
    Sending,
    Receiving,
    Closed,
}

/// A [`WireAction`] as a mathematical value.
pub enum WireActionView {
    Connect { host: Seq<char>, port: int },
    Send(Seq<u8>),
    Receive,
    Finish(Result<Seq<char>, TokenizeError>),
}

/// A [`WireEvent`] as a mathematical value.
pub enum WireEventView {
    Connected,
    Refused,
    Sent,
    Received(Seq<u8>),
    Broken,
}

impl View for Wire {
    type V = WireView;

    open spec fn view(&self) -> WireView {
        match *self {
            Wire::Connecting(payload) => WireView::Connecting(payload@),
            Wire::Sending => WireView::Sending,
            Wire::Receiving => WireView::Receiving,
            Wire::Closed => WireView::Closed,
        }
    }
}

impl View for WireAction {
    type V = WireActionView;

    open spec fn view(&self) -> WireActionView {
        match *self {
            WireAction::Connect { host, port } => WireActionView::Connect {
                host: host@,
                port: port as int,
            },
            WireAction::Send(payload) => WireActionView::Send(payload@),
            WireAction::Receive => WireActionView::Receive,
            WireAction::Finish(Ok(tokenized)) => WireActionView::Finish(Ok(tokenized@)),
            WireAction::Finish(Err(cause)) => WireActionView::Finish(Err(cause)),
        }
    }
}

impl View for WireEvent {
    type V = WireEventView;

    open spec fn view(&self) -> WireEventView {
        match *self {
            WireEvent::Connected => WireEventView::Connected,
            WireEvent::Refused => WireEventView::Refused,
            WireEvent::Sent => WireEventView::Sent,
            WireEvent::Received(answer) => WireEventView::Received(answer@),
            WireEvent::Broken => WireEventView::Broken,
        }
    }
}

/// The tokenized text that an answer stands for: its characters when the
/// bytes are UTF-8, a transport failure when they are not.
pub open spec fn answer_text(answer: Seq<u8>) -> Result<Seq<char>, TokenizeError> {
    if valid_utf8(answer) {
        Ok(decode_utf8(answer))
    } else {
        Err(TokenizeError::IOFailure)
    }
}

/// The protocol: where an exchange goes on each event, and what it asks for.
///
/// A failure ends the exchange at once. Before the connection stands it is a
/// `ConnectionFailed`, after that an `IOFailure`. An event that the current
/// stage does not wait for counts as a failure of that stage.
pub open spec fn wire_step(wire: WireView, event: WireEventView) -> (WireView, WireActionView) {
    match wire {
        WireView::Connecting(payload) => match event {
            WireEventView::Connected => (WireView::Sending, WireActionView::Send(payload)),
            _ => (
                WireView::Closed,
                WireActionView::Finish(Err(TokenizeError::ConnectionFailed)),
            ),
        },
        WireView::Sending => match event {
            WireEventView::Sent => (WireView::Receiving, WireActionView::Receive),
            _ => (WireView::Closed, WireActionView::Finish(Err(TokenizeError::IOFailure))),
        },
        WireView::Receiving => match event {
            WireEventView::Received(answer) => (
                WireView::Closed,
                WireActionView::Finish(answer_text(answer)),
            ),
            _ => (WireView::Closed, WireActionView::Finish(Err(TokenizeError::IOFailure))),
        },
        WireView::Closed => (
            WireView::Closed,
            WireActionView::Finish(Err(TokenizeError::IOFailure)),
        ),
    }
}

/// `String::from_utf8` of std: the string that owns exactly these bytes when
/// they are valid UTF-8, and nothing when they are not.
#[verifier::external_body]
fn text_of_bytes(bytes: Vec<u8>) -> (text: Option<String>)
    ensures
        valid_utf8(bytes@) <==> text is Some,
        text matches Some(s) ==> encode_utf8(s@) == bytes@,
{
    match String::from_utf8(bytes) {
        Ok(text) => Some(text),
        Err(_) => None,
    }
}

/// Reads an answer as text.
fn decode_answer(answer: Vec<u8>) -> (result: Result<String, TokenizeError>)
    ensures
        match result {
            Ok(tokenized) => answer_text(answer@) == Ok::<Seq<char>, TokenizeError>(tokenized@),
            Err(cause) => answer_text(answer@) == Err::<Seq<char>, TokenizeError>(cause),
        },
{
    match text_of_bytes(answer) {
        Some(tokenized) => {
            proof {
                encode_utf8_decode_utf8(tokenized@);
            }
            Ok(tokenized)
        },
        None => Err(TokenizeError::IOFailure),
    }
}

/// Starts the exchange that tokenizes `text`: a connection to the one
/// address of the service.
///
/// The payload is the UTF-8 bytes of `text` and nothing else. The language
/// tag is not transmitted: the service applies the one behaviour it was
/// set up with.
pub fn process(text: &str, _lang: &str) -> (start: (Wire, WireAction))
    ensures
        start.0@ == WireView::Connecting(encode_utf8(text@)),
        start.1@ == (WireActionView::Connect { host: "127.0.0.1"@, port: 9001 }),
{
    (
        Wire::Connecting(text.as_bytes_vec()),
        WireAction::Connect { host: TOKENIZER_HOST, port: TOKENIZER_PORT },
    )
}

/// Continues an exchange with what the caller saw happen.
pub fn advance(wire: Wire, event: WireEvent) -> (next: (Wire, WireAction))
    ensures
        (next.0@, next.1@) == wire_step(wire@, event@),
{
    match wire {
        Wire::Connecting(payload) => match event {
            WireEvent::Connected => (Wire::Sending, WireAction::Send(payload)),
            _ => (Wire::Closed, WireAction::Finish(Err(TokenizeError::ConnectionFailed))),
        },
        Wire::Sending => match event {
            WireEvent::Sent => (Wire::Receiving, WireAction::Receive),
            _ => (Wire::Closed, WireAction::Finish(Err(TokenizeError::IOFailure))),
        },
        Wire::Receiving => match event {
            WireEvent::Received(answer) => (Wire::Closed, WireAction::Finish(decode_answer(answer))),
            _ => (Wire::Closed, WireAction::Finish(Err(TokenizeError::IOFailure))),
        },
        Wire::Closed => (Wire::Closed, WireAction::Finish(Err(TokenizeError::IOFailure))),
    }
}

} // verus!
