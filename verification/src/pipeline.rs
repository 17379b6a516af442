//! The store's requests as a protocol between the service and its caller.
//!
//! A request never performs I/O here. [`start`] turns a command into the
//! first action, the caller performs it and reports what happened, and
//! [`step`] answers with the next action until it is `Return`. A write to a
//! text is tokenized first and touches the data store only after the
//! tokenizer has answered; every write runs in a transaction of its own that
//! is committed after its one statement succeeded and rolled back otherwise.

use crate::error::{StoreError, TokenizeError};
use crate::model::{
    Text, TextCreateRequest, TextCreateRequestView, TextView, Word, WordRequest, WordRequestView,
    WordView,
};
use vstd::prelude::*;

verus! {

/// What a caller asks of the store.
#[derive(Debug, PartialEq, Eq)]
pub enum Command {
    /// Every text, in ascending order of id.
    FindAll,
    /// The text with this id.
    FindById(i32),
    /// Store a new text.
    Create(TextCreateRequest),
    /// Replace text and language of the text with this id.
    Update(i32, TextCreateRequest),
    /// Remove the text with this id.
    Delete(i32),
    /// The words of this user in this language.
    WordsIKnow(i32, String),
    /// Record a new word.
    CreateWord(WordRequest),
    /// Replace word, state and notes of the word with this id.
    UpdateWord(i32, WordRequest),
}

/// One statement against the tables.
#[derive(Debug, PartialEq, Eq)]
pub enum Statement {
    SelectTexts,
    SelectText { id: i32 },
    InsertText { text: String, tokenized: String, lang: String, user: i32 },
    UpdateText { id: i32, text: String, tokenized: String, lang: String },
    DeleteText { id: i32 },
    SelectWords { user: i32, lang: String },
    InsertWord { word: String, state: i32, notes: String, lang: String, user: i32 },
    UpdateWord { id: i32, word: String, state: i32, notes: String },
}

/// The shape of what a statement yields.
#[derive(Clone, Copy, Debug, PartialEq, Eq, Structural)]
pub enum Kind {
    Texts,
    Text,
    Words,
    Word,
    Count,
}

/// What a statement yielded.
#[derive(Debug, PartialEq, Eq)]
pub enum Payload {
    /// The rows of a selection of texts.
    Texts(Vec<Text>),
    /// The one row that was selected, inserted or updated.
    Text(Text),
    /// The rows of a selection of words.
    Words(Vec<Word>),
    /// The one word that was inserted or updated.
    Word(Word),
    /// How many rows a deletion removed.
    Count(u64),
}

/// What the caller has to do next.
#[derive(Debug, PartialEq, Eq)]
pub enum Action {
    /// Have the tokenizer process `text`.
    Tokenize { text: String, lang: String },
    /// Open a transaction.
    Begin,
    /// Run this statement, inside the open transaction if there is one.
    Execute(Statement),
    /// Commit the open transaction.
    Commit,
    /// Roll the open transaction back.
    Rollback,
    /// Stop: this is the outcome of the request.
    Return(Result<Payload, StoreError>),
}

/// What the caller saw happen.
#[derive(Debug, PartialEq, Eq)]
pub enum Event {
    /// The tokenizer answered, or failed.
    Tokenized(Result<String, TokenizeError>),
    /// The transaction is open.
    Begun,
    /// The statement ran and yielded this.
    Fetched(Payload),
    /// The statement ran and found no row where it had to return one.
    Missing,
    /// The transaction is committed.
    Committed,
    /// The transaction is rolled back.
    RolledBack,
    /// The data store reported a failure.
    Failed,
}

/// How far a request has come.
#[derive(Debug, PartialEq, Eq)]
pub enum Stage {
    /// The tokenizer is at work; `target` is the id to update, or nothing
    /// for a new text.
    Tokenizing { target: Option<i32>, request: TextCreateRequest },
    /// A transaction is being opened for this statement.
    Opening(Statement),
    /// The statement runs inside the transaction.
    Running(Kind),
    /// The transaction is being committed; this is what the statement yielded.
    Committing(Payload),
    /// The transaction is being rolled back because of this error.
    Aborting(StoreError),
    /// A selection runs outside any transaction.
    Reading(Kind),
    /// The outcome has been returned.
    Finished,
}

/// A [`Command`] as a mathematical value.
pub enum CommandView {
    FindAll,
    FindById(int),
    Create(TextCreateRequestView),
    Update(int, TextCreateRequestView),
    Delete(int),
    WordsIKnow(int, Seq<char>),
    CreateWord(WordRequestView),
    UpdateWord(int, WordRequestView),
}

/// A [`Statement`] as a mathematical value.
pub enum StatementView {
    SelectTexts,
    SelectText { id: int },
    InsertText { text: Seq<char>, tokenized: Seq<char>, lang: Seq<char>, user: int },
    UpdateText { id: int, text: Seq<char>, tokenized: Seq<char>, lang: Seq<char> },
    DeleteText { id: int },
    SelectWords { user: int, lang: Seq<char> },
    InsertWord { word: Seq<char>, state: int, notes: Seq<char>, lang: Seq<char>, user: int },
    UpdateWord { id: int, word: Seq<char>, state: int, notes: Seq<char> },
}

/// A [`Payload`] as a mathematical value.
pub enum PayloadView {
    Texts(Seq<TextView>),
    Text(TextView),
    Words(Seq<WordView>),
    Word(WordView),
    Count(int),
}

/// An [`Action`] as a mathematical value.
pub enum ActionView {
    Tokenize { text: Seq<char>, lang: Seq<char> },
    Begin,
    Execute(StatementView),
    Commit,
    Rollback,
    Return(Result<PayloadView, StoreError>),
}

/// An [`Event`] as a mathematical value.
pub enum EventView {
    Tokenized(Result<Seq<char>, TokenizeError>),
    Begun,
    Fetched(PayloadView),
    Missing,
    Committed,
    RolledBack,
    Failed,
}

/// A [`Stage`] as a mathematical value.
pub enum StageView {
    Tokenizing { target: Option<int>, request: TextCreateRequestView },
    Opening(StatementView),
    Running(Kind),
    Committing(PayloadView),
    Aborting(StoreError),
    Reading(Kind),
    Finished,
}

impl View for Command {
    type V = CommandView;

    open spec fn view(&self) -> CommandView {
        match *self {
            Command::FindAll => CommandView::FindAll,
            Command::FindById(id) => CommandView::FindById(id as int),
            Command::Create(request) => CommandView::Create(request@),
            Command::Update(id, request) => CommandView::Update(id as int, request@),
            Command::Delete(id) => CommandView::Delete(id as int),
            Command::WordsIKnow(user, lang) => CommandView::WordsIKnow(user as int, lang@),
            Command::CreateWord(request) => CommandView::CreateWord(request@),
            Command::UpdateWord(id, request) => CommandView::UpdateWord(id as int, request@),
        }
    }
}

impl View for Statement {
    type V = StatementView;

    open spec fn view(&self) -> StatementView {
        match *self {
            Statement::SelectTexts => StatementView::SelectTexts,
            Statement::SelectText { id } => StatementView::SelectText { id: id as int },
            Statement::InsertText { text, tokenized, lang, user } => StatementView::InsertText {
                text: text@,
                tokenized: tokenized@,
                lang: lang@,
                user: user as int,
            },
            Statement::UpdateText { id, text, tokenized, lang } => StatementView::UpdateText {
                id: id as int,
                text: text@,
                tokenized: tokenized@,
                lang: lang@,
            },
            Statement::DeleteText { id } => StatementView::DeleteText { id: id as int },
            Statement::SelectWords { user, lang } => StatementView::SelectWords {
                user: user as int,
                lang: lang@,
            },
            Statement::InsertWord { word, state, notes, lang, user } => StatementView::InsertWord {
                word: word@,
                state: state as int,
                notes: notes@,
                lang: lang@,
                user: user as int,
            },
            Statement::UpdateWord { id, word, state, notes } => StatementView::UpdateWord {
                id: id as int,
                word: word@,
                state: state as int,
                notes: notes@,
            },
        }
    }
}

impl View for Payload {
    type V = PayloadView;

    open spec fn view(&self) -> PayloadView {
        match *self {
            Payload::Texts(rows) => PayloadView::Texts(rows.deep_view()),
            Payload::Text(row) => PayloadView::Text(row@),
            Payload::Words(rows) => PayloadView::Words(rows.deep_view()),
            Payload::Word(row) => PayloadView::Word(row@),
            Payload::Count(count) => PayloadView::Count(count as int),
        }
    }
}

/// The outcome of a request as a mathematical value.
pub open spec fn outcome_view(outcome: Result<Payload, StoreError>) -> Result<
    PayloadView,
    StoreError,
> {
    match outcome {
        Ok(payload) => Ok(payload@),
        Err(error) => Err(error),
    }
}

/// The tokenizer's answer as a mathematical value.
pub open spec fn tokens_view(tokenized: Result<String, TokenizeError>) -> Result<
    Seq<char>,
    TokenizeError,
> {
    match tokenized {
        Ok(tokens) => Ok(tokens@),
        Err(cause) => Err(cause),
    }
}

impl View for Action {
    type V = ActionView;

    open spec fn view(&self) -> ActionView {
        match *self {
            Action::Tokenize { text, lang } => ActionView::Tokenize { text: text@, lang: lang@ },
            Action::Begin => ActionView::Begin,
            Action::Execute(statement) => ActionView::Execute(statement@),
            Action::Commit => ActionView::Commit,
            Action::Rollback => ActionView::Rollback,
            Action::Return(outcome) => ActionView::Return(outcome_view(outcome)),
        }
    }
}

impl View for Event {
    type V = EventView;

    open spec fn view(&self) -> EventView {
        match *self {
            Event::Tokenized(tokenized) => EventView::Tokenized(tokens_view(tokenized)),
            Event::Begun => EventView::Begun,
            Event::Fetched(payload) => EventView::Fetched(payload@),
            Event::Missing => EventView::Missing,
            Event::Committed => EventView::Committed,
            Event::RolledBack => EventView::RolledBack,
            Event::Failed => EventView::Failed,
        }
    }
}

impl View for Stage {
    type V = StageView;

    open spec fn view(&self) -> StageView {
        match *self {
            Stage::Tokenizing { target, request } => StageView::Tokenizing {
                target: match target {
                    Some(id) => Some(id as int),
                    None => None,
                },
                request: request@,
            },
            Stage::Opening(statement) => StageView::Opening(statement@),
            Stage::Running(kind) => StageView::Running(kind),
            Stage::Committing(payload) => StageView::Committing(payload@),
            Stage::Aborting(error) => StageView::Aborting(error),
            Stage::Reading(kind) => StageView::Reading(kind),
            Stage::Finished => StageView::Finished,
        }
    }
}

impl PayloadView {
    /// The shape of this payload.
    pub open spec fn kind(self) -> Kind {
        match self {
            PayloadView::Texts(_) => Kind::Texts,
            PayloadView::Text(_) => Kind::Text,
            PayloadView::Words(_) => Kind::Words,
            PayloadView::Word(_) => Kind::Word,
            PayloadView::Count(_) => Kind::Count,
        }
    }
}

impl StatementView {
    /// The shape of what this statement yields.
    pub open spec fn yields(self) -> Kind {
        match self {
            StatementView::SelectTexts => Kind::Texts,
            StatementView::SelectText { .. } => Kind::Text,
            StatementView::InsertText { .. } => Kind::Text,
            StatementView::UpdateText { .. } => Kind::Text,
            StatementView::DeleteText { .. } => Kind::Count,
            StatementView::SelectWords { .. } => Kind::Words,
            StatementView::InsertWord { .. } => Kind::Word,
            StatementView::UpdateWord { .. } => Kind::Word,
        }
    }
}

impl Payload {
    /// The shape of this payload.
    pub fn kind(&self) -> (kind: Kind)
        ensures
            kind == self@.kind(),
    {
        match self {
            Payload::Texts(_) => Kind::Texts,
            Payload::Text(_) => Kind::Text,
            Payload::Words(_) => Kind::Words,
            Payload::Word(_) => Kind::Word,
            Payload::Count(_) => Kind::Count,
        }
    }
}

impl Statement {
    /// The shape of what this statement yields.
    pub fn yields(&self) -> (kind: Kind)
        ensures
            kind == self@.yields(),
    {
        match self {
            Statement::SelectTexts => Kind::Texts,
            Statement::SelectText { .. } => Kind::Text,
            Statement::InsertText { .. } => Kind::Text,
            Statement::UpdateText { .. } => Kind::Text,
            Statement::DeleteText { .. } => Kind::Count,
            Statement::SelectWords { .. } => Kind::Words,
            Statement::InsertWord { .. } => Kind::Word,
            Statement::UpdateWord { .. } => Kind::Word,
        }
    }
}

/// The statement that writes a text once its tokenized form is known: an
/// update of the row `target`, or an insert when there is no target.
pub open spec fn write_statement(
    target: Option<int>,
    request: TextCreateRequestView,
    tokenized: Seq<char>,
) -> StatementView {
    match target {
        Some(id) => StatementView::UpdateText {
            id,
            text: request.text,
            tokenized,
            lang: request.lang,
        },
        None => StatementView::InsertText {
            text: request.text,
            tokenized,
            lang: request.lang,
            user: request.user,
        },
    }
}

/// Where a request begins.
///
/// A selection runs at once and outside any transaction. A write to a text
/// begins with the tokenizer, whatever the store holds. Every other write
/// begins with its transaction.
pub open spec fn start_spec(command: CommandView) -> (StageView, ActionView) {
    match command {
        CommandView::FindAll => (
            StageView::Reading(Kind::Texts),
            ActionView::Execute(StatementView::SelectTexts),
        ),
        CommandView::FindById(id) => (
            StageView::Reading(Kind::Text),
            ActionView::Execute(StatementView::SelectText { id }),
        ),
        CommandView::WordsIKnow(user, lang) => (
            StageView::Reading(Kind::Words),
            ActionView::Execute(StatementView::SelectWords { user, lang }),
        ),
        CommandView::Create(request) => (
            StageView::Tokenizing { target: None, request },
            ActionView::Tokenize { text: request.text, lang: request.lang },
        ),
        CommandView::Update(id, request) => (
            StageView::Tokenizing { target: Some(id), request },
            ActionView::Tokenize { text: request.text, lang: request.lang },
        ),
        CommandView::Delete(id) => (
            StageView::Opening(StatementView::DeleteText { id }),
            ActionView::Begin,
        ),
        CommandView::CreateWord(request) => (
            StageView::Opening(
                StatementView::InsertWord {
                    word: request.word,
                    state: request.state,
                    notes: request.notes,
                    lang: request.lang,
                    user: request.user,
                },
            ),
            ActionView::Begin,
        ),
        CommandView::UpdateWord(id, request) => (
            StageView::Opening(
                StatementView::UpdateWord {
                    id,
                    word: request.word,
                    state: request.state,
                    notes: request.notes,
                },
            ),
            ActionView::Begin,
        ),
    }
}

/// Where a request goes on an event, and what it asks for next.
///
/// An event that the stage does not wait for counts as a failure of the data
/// store: inside a transaction it leads to a rollback, outside to the end of
/// the request.
pub open spec fn step_spec(stage: StageView, event: EventView) -> (StageView, ActionView) {
    match stage {
        StageView::Tokenizing { target, request } => match event {
            EventView::Tokenized(Ok(tokenized)) => (
                StageView::Opening(write_statement(target, request, tokenized)),
                ActionView::Begin,
            ),
            EventView::Tokenized(Err(cause)) => (
                StageView::Finished,
                ActionView::Return(Err(StoreError::TokenizationFailed(cause))),
            ),
            _ => (StageView::Finished, ActionView::Return(Err(StoreError::StoreError))),
        },
        StageView::Opening(statement) => match event {
            EventView::Begun => (
                StageView::Running(statement.yields()),
                ActionView::Execute(statement),
            ),
            _ => (StageView::Finished, ActionView::Return(Err(StoreError::StoreError))),
        },
        StageView::Running(kind) => match event {
            EventView::Fetched(payload) => if payload.kind() == kind {
                (StageView::Committing(payload), ActionView::Commit)
            } else {
                (StageView::Aborting(StoreError::StoreError), ActionView::Rollback)
            },
            EventView::Missing => (
                StageView::Aborting(StoreError::NotFound),
                ActionView::Rollback,
            ),
            _ => (StageView::Aborting(StoreError::StoreError), ActionView::Rollback),
        },
        StageView::Committing(payload) => match event {
            EventView::Committed => (StageView::Finished, ActionView::Return(Ok(payload))),
            _ => (StageView::Finished, ActionView::Return(Err(StoreError::StoreError))),
        },
        StageView::Aborting(error) => (StageView::Finished, ActionView::Return(Err(error))),
        StageView::Reading(kind) => match event {
            EventView::Fetched(payload) => if payload.kind() == kind {
                (StageView::Finished, ActionView::Return(Ok(payload)))
            } else {
                (StageView::Finished, ActionView::Return(Err(StoreError::StoreError)))
            },
            EventView::Missing => (
                StageView::Finished,
                ActionView::Return(Err(StoreError::NotFound)),
            ),
            _ => (StageView::Finished, ActionView::Return(Err(StoreError::StoreError))),
        },
        StageView::Finished => (
            StageView::Finished,
            ActionView::Return(Err(StoreError::StoreError)),
        ),
    }
}

/// Begins a request: the stage it is in and the first thing to do.
pub fn start(command: Command) -> (first: (Stage, Action))
    ensures
        (first.0@, first.1@) == start_spec(command@),
{
    match command {
        Command::FindAll => (Stage::Reading(Kind::Texts), Action::Execute(Statement::SelectTexts)),
        Command::FindById(id) => (
            Stage::Reading(Kind::Text),
            Action::Execute(Statement::SelectText { id }),
        ),
        Command::WordsIKnow(user, lang) => (
            Stage::Reading(Kind::Words),
            Action::Execute(Statement::SelectWords { user, lang }),
        ),
        Command::Create(request) => {
            let action = Action::Tokenize { text: request.text.clone(), lang: request.lang.clone() };
            (Stage::Tokenizing { target: None, request }, action)
        },
        Command::Update(id, request) => {
            let action = Action::Tokenize { text: request.text.clone(), lang: request.lang.clone() };
            (Stage::Tokenizing { target: Some(id), request }, action)
        },
        Command::Delete(id) => (Stage::Opening(Statement::DeleteText { id }), Action::Begin),
        Command::CreateWord(request) => (
            Stage::Opening(
                Statement::InsertWord {
                    word: request.word,
                    state: request.state,
                    notes: request.notes,
                    lang: request.lang,
                    user: request.user,
                },
            ),
            Action::Begin,
        ),
        Command::UpdateWord(id, request) => (
            Stage::Opening(
                Statement::UpdateWord {
                    id,
                    word: request.word,
                    state: request.state,
                    notes: request.notes,
                },
            ),
            Action::Begin,
        ),
    }
}

/// Continues a request with what the caller saw happen.
pub fn step(stage: Stage, event: Event) -> (next: (Stage, Action))
    ensures
        (next.0@, next.1@) == step_spec(stage@, event@),
{
    match stage {
        Stage::Tokenizing { target, request } => match event {
            Event::Tokenized(Ok(tokenized)) => {
                let statement = match target {
                    Some(id) => Statement::UpdateText {
                        id,
                        text: request.text,
                        tokenized,
                        lang: request.lang,
                    },
                    None => Statement::InsertText {
                        text: request.text,
                        tokenized,
                        lang: request.lang,
                        user: request.user,
                    },
                };
                (Stage::Opening(statement), Action::Begin)
            },
            Event::Tokenized(Err(cause)) => (
                Stage::Finished,
                Action::Return(Err(StoreError::TokenizationFailed(cause))),
            ),
            _ => (Stage::Finished, Action::Return(Err(StoreError::StoreError))),
        },
        Stage::Opening(statement) => match event {
            Event::Begun => (Stage::Running(statement.yields()), Action::Execute(statement)),
            _ => (Stage::Finished, Action::Return(Err(StoreError::StoreError))),
        },
        Stage::Running(kind) => match event {
            Event::Fetched(payload) => if payload.kind() == kind {
                (Stage::Committing(payload), Action::Commit)
            } else {
                (Stage::Aborting(StoreError::StoreError), Action::Rollback)
            },
            Event::Missing => (Stage::Aborting(StoreError::NotFound), Action::Rollback),
            _ => (Stage::Aborting(StoreError::StoreError), Action::Rollback),
        },
        Stage::Committing(payload) => match event {
            Event::Committed => (Stage::Finished, Action::Return(Ok(payload))),
            _ => (Stage::Finished, Action::Return(Err(StoreError::StoreError))),
        },
        Stage::Aborting(error) => (Stage::Finished, Action::Return(Err(error))),
        Stage::Reading(kind) => match event {
            Event::Fetched(payload) => if payload.kind() == kind {
                (Stage::Finished, Action::Return(Ok(payload)))
            } else {
                (Stage::Finished, Action::Return(Err(StoreError::StoreError)))
            },
            Event::Missing => (Stage::Finished, Action::Return(Err(StoreError::NotFound))),
            _ => (Stage::Finished, Action::Return(Err(StoreError::StoreError))),
        },
        Stage::Finished => (Stage::Finished, Action::Return(Err(StoreError::StoreError))),
    }
}

/// The outcome that carries the result of an operation on one text.
pub open spec fn text_payload(result: Result<TextView, StoreError>) -> Result<
    PayloadView,
    StoreError,
> {
    match result {
        Ok(row) => Ok(PayloadView::Text(row)),
        Err(error) => Err(error),
    }
}

/// The outcome that carries the result of a listing of texts.
pub open spec fn texts_payload(result: Result<Seq<TextView>, StoreError>) -> Result<
    PayloadView,
    StoreError,
> {
    match result {
        Ok(rows) => Ok(PayloadView::Texts(rows)),
        Err(error) => Err(error),
    }
}

/// The outcome that carries the result of an operation on one word.
pub open spec fn word_payload(result: Result<WordView, StoreError>) -> Result<
    PayloadView,
    StoreError,
> {
    match result {
        Ok(row) => Ok(PayloadView::Word(row)),
        Err(error) => Err(error),
    }
}

/// The outcome that carries the result of a listing of words.
pub open spec fn words_payload(result: Result<Seq<WordView>, StoreError>) -> Result<
    PayloadView,
    StoreError,
> {
    match result {
        Ok(rows) => Ok(PayloadView::Words(rows)),
        Err(error) => Err(error),
    }
}

/// The outcome that carries the result of a deletion.
pub open spec fn count_payload(result: Result<int, StoreError>) -> Result<PayloadView, StoreError> {
    match result {
        Ok(count) => Ok(PayloadView::Count(count)),
        Err(error) => Err(error),
    }
}

/// What an outcome holds for a caller that expects one text: the text, the
/// error of the request, or a store failure when the payload is of another
/// shape.
pub open spec fn text_of(outcome: Result<PayloadView, StoreError>) -> Result<TextView, StoreError> {
    match outcome {
        Ok(PayloadView::Text(row)) => Ok(row),
        Ok(_) => Err(StoreError::StoreError),
        Err(error) => Err(error),
    }
}

/// What an outcome holds for a caller that expects a list of texts.
pub open spec fn texts_of(outcome: Result<PayloadView, StoreError>) -> Result<
    Seq<TextView>,
    StoreError,
> {
    match outcome {
        Ok(PayloadView::Texts(rows)) => Ok(rows),
        Ok(_) => Err(StoreError::StoreError),
        Err(error) => Err(error),
    }
}

/// What an outcome holds for a caller that expects one word.
pub open spec fn word_of(outcome: Result<PayloadView, StoreError>) -> Result<WordView, StoreError> {
    match outcome {
        Ok(PayloadView::Word(row)) => Ok(row),
        Ok(_) => Err(StoreError::StoreError),
        Err(error) => Err(error),
    }
}

/// What an outcome holds for a caller that expects a list of words.
pub open spec fn words_of(outcome: Result<PayloadView, StoreError>) -> Result<
    Seq<WordView>,
    StoreError,
> {
    match outcome {
        Ok(PayloadView::Words(rows)) => Ok(rows),
        Ok(_) => Err(StoreError::StoreError),
        Err(error) => Err(error),
    }
}

/// What an outcome holds for a caller that expects a count of rows.
pub open spec fn count_of(outcome: Result<PayloadView, StoreError>) -> Result<int, StoreError> {
    match outcome {
        Ok(PayloadView::Count(count)) => Ok(count),
        Ok(_) => Err(StoreError::StoreError),
        Err(error) => Err(error),
    }
}

/// A result that holds one text, as a mathematical value.
pub open spec fn text_result_view(result: Result<Text, StoreError>) -> Result<TextView, StoreError> {
    match result {
        Ok(row) => Ok(row@),
        Err(error) => Err(error),
    }
}

/// A result that holds a list of texts, as a mathematical value.
pub open spec fn texts_result_view(result: Result<Vec<Text>, StoreError>) -> Result<
    Seq<TextView>,
    StoreError,
> {
    match result {
        Ok(rows) => Ok(rows.deep_view()),
        Err(error) => Err(error),
    }
}

/// A result that holds one word, as a mathematical value.
pub open spec fn word_result_view(result: Result<Word, StoreError>) -> Result<WordView, StoreError> {
    match result {
        Ok(row) => Ok(row@),
        Err(error) => Err(error),
    }
}

/// A result that holds a list of words, as a mathematical value.
pub open spec fn words_result_view(result: Result<Vec<Word>, StoreError>) -> Result<
    Seq<WordView>,
    StoreError,
> {
    match result {
        Ok(rows) => Ok(rows.deep_view()),
        Err(error) => Err(error),
    }
}

/// A result that holds a count of rows, as a mathematical value.
pub open spec fn count_result_view(result: Result<u64, StoreError>) -> Result<int, StoreError> {
    match result {
        Ok(count) => Ok(count as int),
        Err(error) => Err(error),
    }
}

/// Takes the one text out of an outcome.
pub fn expect_text(outcome: Result<Payload, StoreError>) -> (result: Result<Text, StoreError>)
    ensures
        text_result_view(result) == text_of(outcome_view(outcome)),
{
    match outcome {
        Ok(Payload::Text(row)) => Ok(row),
        Ok(_) => Err(StoreError::StoreError),
        Err(error) => Err(error),
    }
}

/// Takes the list of texts out of an outcome.
pub fn expect_texts(outcome: Result<Payload, StoreError>) -> (result: Result<Vec<Text>, StoreError>)
    ensures
        texts_result_view(result) == texts_of(outcome_view(outcome)),
{
    match outcome {
        Ok(Payload::Texts(rows)) => Ok(rows),
        Ok(_) => Err(StoreError::StoreError),
        Err(error) => Err(error),
    }
}

/// Takes the one word out of an outcome.
pub fn expect_word(outcome: Result<Payload, StoreError>) -> (result: Result<Word, StoreError>)
    ensures
        word_result_view(result) == word_of(outcome_view(outcome)),
{
    match outcome {
        Ok(Payload::Word(row)) => Ok(row),
        Ok(_) => Err(StoreError::StoreError),
        Err(error) => Err(error),
    }
}

/// Takes the list of words out of an outcome.
pub fn expect_words(outcome: Result<Payload, StoreError>) -> (result: Result<Vec<Word>, StoreError>)
    ensures
        words_result_view(result) == words_of(outcome_view(outcome)),
{
    match outcome {
        Ok(Payload::Words(rows)) => Ok(rows),
        Ok(_) => Err(StoreError::StoreError),
        Err(error) => Err(error),
    }
}

/// Takes the count of rows out of an outcome.
pub fn expect_count(outcome: Result<Payload, StoreError>) -> (result: Result<u64, StoreError>)
    ensures
        count_result_view(result) == count_of(outcome_view(outcome)),
{
    match outcome {
        Ok(Payload::Count(count)) => Ok(count),
        Ok(_) => Err(StoreError::StoreError),
        Err(error) => Err(error),
    }
}

} // verus!
