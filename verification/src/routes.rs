//! What each endpoint answers, given what the store returned.
//!
//! An answer is a status and a body. A success carries the value to be sent
//! as JSON, or a line of text; every failure is a 400 with the message of
//! its endpoint, whatever the store's error was.

use crate::error::StoreError;
use crate::model::{Text, Word};
use vstd::prelude::*;
use vstd::string::*;

verus! {

/// Status of an answer that carries a result.
pub const STATUS_OK: u16 = 200;

/// Status of an answer that carries a failure.
pub const STATUS_BAD_REQUEST: u16 = 400;

/// The user whose words `/wordsiknow` lists.
pub const WORDS_USER: i32 = 0;

/// The language whose words `/wordsiknow` lists.
pub const WORDS_LANG: &'static str = "zh_CN";

/// The body of an answer.
#[derive(Debug, PartialEq, Eq)]
pub enum Body<T> {
    /// A value, to be sent as JSON.
    Json(T),
    /// A line of text.
    Message(String),
}

/// An answer to a request.
#[derive(Debug, PartialEq, Eq)]
pub struct Reply<T> {
    pub status: u16,
    pub body: Body<T>,
}

impl<T> Reply<T> {
    /// Whether this is the 200 that carries `value`.
    pub open spec fn carries(self, value: T) -> bool {
        self.status == 200 && self.body == Body::Json(value)
    }

    /// Whether this is the answer with this status and this line of text.
    pub open spec fn says(self, status: int, message: Seq<char>) -> bool {
        self.status == status && (self.body matches Body::Message(text) && text@ == message)
    }
}

/// The decimal digit of a number below ten.
pub open spec fn digit(d: int) -> char {
    if d == 0 {
        '0'
    } else if d == 1 {
        '1'
    } else if d == 2 {
        '2'
    } else if d == 3 {
        '3'
    } else if d == 4 {
        '4'
    } else if d == 5 {
        '5'
    } else if d == 6 {
        '6'
    } else if d == 7 {
        '7'
    } else if d == 8 {
        '8'
    } else {
        '9'
    }
}

/// A number in decimal, without sign or leading zeros.
pub open spec fn decimal_text(n: nat) -> Seq<char>
    decreases n,
{
    if n < 10 {
        seq![digit(n as int)]
    } else {
        decimal_text(n / 10).push(digit((n % 10) as int))
    }
}

/// What a successful deletion of `rows` rows says.
pub open spec fn deleted_text(rows: nat) -> Seq<char> {
    "Successfully deleted "@ + decimal_text(rows) + " record(s)"@
}

/// The digit of a number below ten, as text.
fn digit_text(d: u64) -> (text: &'static str)
    requires
        d < 10,
    ensures
        text@ == seq![digit(d as int)],
{
    proof {
        reveal_strlit("0");
        reveal_strlit("1");
        reveal_strlit("2");
        reveal_strlit("3");
        reveal_strlit("4");
        reveal_strlit("5");
        reveal_strlit("6");
        reveal_strlit("7");
        reveal_strlit("8");
        reveal_strlit("9");
    }
    let text = if d == 0 {
        "0"
    } else if d == 1 {
        "1"
    } else if d == 2 {
        "2"
    } else if d == 3 {
        "3"
    } else if d == 4 {
        "4"
    } else if d == 5 {
        "5"
    } else if d == 6 {
        "6"
    } else if d == 7 {
        "7"
    } else if d == 8 {
        "8"
    } else {
        "9"
    };
    assert(text@ =~= seq![digit(d as int)]);
    text
}

/// Writes a number in decimal.
pub fn decimal(n: u64) -> (text: String)
    ensures
        text@ == decimal_text(n as nat),
    decreases n,
{
    if n < 10 {
        digit_text(n).to_owned()
    } else {
        let mut text = decimal(n / 10);
        text.append(digit_text(n % 10));
        assert(text@ =~= decimal_text((n / 10) as nat).push(digit((n % 10) as int)));
        text
    }
}

/// The 200 that carries a value, or the 400 with the endpoint's message.
fn respond<T>(result: Result<T, StoreError>, failure: &str) -> (reply: Reply<T>)
    ensures
        match result {
            Ok(value) => reply.carries(value),
            Err(_) => reply.says(400, failure@),
        },
{
    match result {
        Ok(value) => Reply { status: STATUS_OK, body: Body::Json(value) },
        Err(_) => Reply { status: STATUS_BAD_REQUEST, body: Body::Message(failure.to_owned()) },
    }
}

/// `GET /texts`.
pub fn find_all(result: Result<Vec<Text>, StoreError>) -> (reply: Reply<Vec<Text>>)
    ensures
        match result {
            Ok(texts) => reply.carries(texts),
            Err(_) => reply.says(400, "Error trying to read all texts from database"@),
        },
{
    respond(result, "Error trying to read all texts from database")
}

/// `GET /text/{id}`.
pub fn find(result: Result<Text, StoreError>) -> (reply: Reply<Text>)
    ensures
        match result {
            Ok(text) => reply.carries(text),
            Err(_) => reply.says(400, "Text not found"@),
        },
{
    respond(result, "Text not found")
}

/// `POST /text`.
pub fn create(result: Result<Text, StoreError>) -> (reply: Reply<Text>)
    ensures
        match result {
            Ok(text) => reply.carries(text),
            Err(_) => reply.says(400, "Error trying to create new text"@),
        },
{
    respond(result, "Error trying to create new text")
}

/// `PUT /text/{id}`.
pub fn update(result: Result<Text, StoreError>) -> (reply: Reply<Text>)
    ensures
        match result {
            Ok(text) => reply.carries(text),
            Err(_) => reply.says(400, "Text not found"@),
        },
{
    respond(result, "Text not found")
}

/// `DELETE /text/{id}`: a 200 that tells the count when a row left, and a
/// 400 when none did or the store failed.
pub fn delete(result: Result<u64, StoreError>) -> (reply: Reply<u64>)
    ensures
        match result {
            Ok(rows) if rows > 0 => reply.says(200, deleted_text(rows as nat)),
            _ => reply.says(400, "Text not found"@),
        },
{
    match result {
        Ok(rows) if rows > 0 => {
            let mut message = "Successfully deleted ".to_owned();
            message.append(decimal(rows).as_str());
            message.append(" record(s)");
            Reply { status: STATUS_OK, body: Body::Message(message) }
        },
        _ => Reply { status: STATUS_BAD_REQUEST, body: Body::Message("Text not found".to_owned()) },
    }
}

/// `GET /wordsiknow`.
pub fn wordsiknow(result: Result<Vec<Word>, StoreError>) -> (reply: Reply<Vec<Word>>)
    ensures
        match result {
            Ok(words) => reply.carries(words),
            Err(_) => reply.says(400, "Error trying to get all words from database"@),
        },
{
    respond(result, "Error trying to get all words from database")
}

/// `POST /createword`.
pub fn createword(result: Result<Word, StoreError>) -> (reply: Reply<Word>)
    ensures
        match result {
            Ok(word) => reply.carries(word),
            Err(_) => reply.says(400, "Error trying to create new word"@),
        },
{
    respond(result, "Error trying to create new word")
}

/// `PUT /updateword/{id}`.
pub fn updateword(result: Result<Word, StoreError>) -> (reply: Reply<Word>)
    ensures
        match result {
            Ok(word) => reply.carries(word),
            Err(_) => reply.says(400, "Error trying to update word"@),
        },
{
    respond(result, "Error trying to update word")
}

} // verus!
