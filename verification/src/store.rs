//! The store, run against the tables in memory.
//!
//! [`Database`] performs the actions of the pipeline on the tables of this
//! crate. [`Database::run`] carries a whole request through, and the
//! operations on [`Text`] and [`Word`] say of each request what it returns
//! and what it leaves in the tables.

use crate::error::{StoreError, TokenizeError};
use crate::model::{
    Text, TextCreateRequest, TextCreateRequestView, TextView, Word, WordRequest, WordRequestView,
    WordView,
};
use crate::pipeline::{
    count_payload, count_result_view, expect_count, expect_text, expect_texts, expect_word,
    expect_words, outcome_view, start, start_spec, step, step_spec, text_payload,
    text_result_view, texts_payload, texts_result_view, tokens_view, word_payload,
    word_result_view, words_payload, words_result_view, Action, ActionView, Command, CommandView,
    Event, EventView, Payload, PayloadView, StageView, Statement, StatementView,
};
use crate::table::{TextTable, TextTableView, WordTable, WordTableView};
use vstd::prelude::*;

verus! {

/// The tables of the service.
pub struct Database {
    pub texts: TextTable,
    pub words: WordTable,
}

/// The tables as a mathematical value.
pub struct DatabaseView {
    pub texts: TextTableView,
    pub words: WordTableView,
}

impl View for Database {
    type V = DatabaseView;

    open spec fn view(&self) -> DatabaseView {
        DatabaseView { texts: self.texts@, words: self.words@ }
    }
}

impl DatabaseView {
    /// Both tables before anything was inserted.
    pub open spec fn empty() -> DatabaseView {
        DatabaseView { texts: TextTableView::empty(), words: WordTableView::empty() }
    }

    /// Both tables are well formed.
    pub open spec fn wf(self) -> bool {
        self.texts.wf() && self.words.wf()
    }

    /// What a statement leaves in the tables, and what it reports.
    ///
    /// A statement that has to return a row reports `Missing` when no row has
    /// the id. An insert fails when its table has no id left. A statement
    /// that reports anything but `Fetched` leaves the tables as they were.
    pub open spec fn execute(self, statement: StatementView) -> (DatabaseView, EventView) {
        match statement {
            StatementView::SelectTexts => (
                self,
                EventView::Fetched(PayloadView::Texts(self.texts.rows)),
            ),
            StatementView::SelectText { id } => match self.texts.get(id) {
                Some(row) => (self, EventView::Fetched(PayloadView::Text(row))),
                None => (self, EventView::Missing),
            },
            StatementView::InsertText { text, tokenized, lang, user } => if self.texts.full() {
                (self, EventView::Failed)
            } else {
                (
                    DatabaseView {
                        texts: self.texts.insert(text, tokenized, lang, user),
                        words: self.words,
                    },
                    EventView::Fetched(
                        PayloadView::Text(self.texts.fresh_row(text, tokenized, lang, user)),
                    ),
                )
            },
            StatementView::UpdateText { id, text, tokenized, lang } => if self.texts.has(id) {
                (
                    DatabaseView {
                        texts: self.texts.update(id, text, tokenized, lang),
                        words: self.words,
                    },
                    EventView::Fetched(
                        PayloadView::Text(self.texts.replaced_row(id, text, tokenized, lang)),
                    ),
                )
            } else {
                (self, EventView::Missing)
            },
            StatementView::DeleteText { id } => if self.texts.has(id) {
                (
                    DatabaseView { texts: self.texts.delete(id), words: self.words },
                    EventView::Fetched(PayloadView::Count(1)),
                )
            } else {
                (self, EventView::Fetched(PayloadView::Count(0)))
            },
            StatementView::SelectWords { user, lang } => (
                self,
                EventView::Fetched(PayloadView::Words(self.words.known(user, lang))),
            ),
            StatementView::InsertWord { word, state, notes, lang, user } => if self.words.full() {
                (self, EventView::Failed)
            } else {
                (
                    DatabaseView {
                        texts: self.texts,
                        words: self.words.insert(word, state, notes, lang, user),
                    },
                    EventView::Fetched(
                        PayloadView::Word(
                            self.words.fresh_row(word, state, notes, lang, user).word(),
                        ),
                    ),
                )
            },
            StatementView::UpdateWord { id, word, state, notes } => if self.words.has(id) {
                (
                    DatabaseView {
                        texts: self.texts,
                        words: self.words.update(id, word, state, notes),
                    },
                    EventView::Fetched(
                        PayloadView::Word(self.words.replaced_row(id, word, state, notes).word()),
                    ),
                )
            } else {
                (self, EventView::Missing)
            },
        }
    }
}

impl Database {
    /// Two empty tables.
    pub fn new() -> (db: Database)
        ensures
            db@ == DatabaseView::empty(),
            db@.wf(),
    {
        Database { texts: TextTable::new(), words: WordTable::new() }
    }

    /// Runs a statement that only reads. Any other statement is refused as a
    /// failure.
    pub fn query(&self, statement: &Statement) -> (event: Event)
        ensures
            self@.wf(),
            match statement@ {
                StatementView::SelectTexts
                | StatementView::SelectText { .. }
                | StatementView::SelectWords { .. } => event@ == self@.execute(statement@).1,
                _ => event@ == EventView::Failed,
            },
    {
        proof {
            use_type_invariant(&self.texts);
            use_type_invariant(&self.words);
        }
        match statement {
            Statement::SelectTexts => Event::Fetched(Payload::Texts(self.texts.select_all())),
            Statement::SelectText { id } => match self.texts.select(*id) {
                Some(row) => Event::Fetched(Payload::Text(row)),
                None => Event::Missing,
            },
            Statement::SelectWords { user, lang } => Event::Fetched(
                Payload::Words(self.words.select_known(*user, lang.as_str())),
            ),
            _ => Event::Failed,
        }
    }

    /// Runs a statement.
    pub fn execute(&mut self, statement: Statement) -> (event: Event)
        ensures
            final(self)@.wf(),
            (final(self)@, event@) == old(self)@.execute(statement@),
    {
        proof {
            use_type_invariant(&self.texts);
            use_type_invariant(&self.words);
        }
        match statement {
            Statement::InsertText { text, tokenized, lang, user } => {
                match self.texts.insert(text, tokenized, lang, user) {
                    Some(row) => Event::Fetched(Payload::Text(row)),
                    None => Event::Failed,
                }
            },
            Statement::UpdateText { id, text, tokenized, lang } => {
                match self.texts.update(id, text, tokenized, lang) {
                    Some(row) => Event::Fetched(Payload::Text(row)),
                    None => Event::Missing,
                }
            },
            Statement::DeleteText { id } => Event::Fetched(Payload::Count(self.texts.delete(id))),
            Statement::InsertWord { word, state, notes, lang, user } => {
                match self.words.insert(word, state, notes, lang, user) {
                    Some(row) => Event::Fetched(Payload::Word(row)),
                    None => Event::Failed,
                }
            },
            Statement::UpdateWord { id, word, state, notes } => {
                match self.words.update(id, word, state, notes) {
                    Some(row) => Event::Fetched(Payload::Word(row)),
                    None => Event::Missing,
                }
            },
            selection => self.query(&selection),
        }
    }
}

impl DatabaseView {
    /// What a listing of the texts returns.
    pub open spec fn find_all(self) -> Result<Seq<TextView>, StoreError> {
        Ok(self.texts.rows)
    }

    /// What a lookup of the text with this id returns.
    pub open spec fn find_by_id(self, id: int) -> Result<TextView, StoreError> {
        match self.texts.get(id) {
            Some(row) => Ok(row),
            None => Err(StoreError::NotFound),
        }
    }

    /// What creating a text leaves and returns, given what the tokenizer said
    /// of its text. A failed tokenization leaves the tables as they were.
    pub open spec fn create(
        self,
        request: TextCreateRequestView,
        tokenized: Result<Seq<char>, TokenizeError>,
    ) -> (DatabaseView, Result<TextView, StoreError>) {
        match tokenized {
            Err(cause) => (self, Err(StoreError::TokenizationFailed(cause))),
            Ok(tokens) => if self.texts.full() {
                (self, Err(StoreError::StoreError))
            } else {
                (
                    DatabaseView {
                        texts: self.texts.insert(request.text, tokens, request.lang, request.user),
                        words: self.words,
                    },
                    Ok(self.texts.fresh_row(request.text, tokens, request.lang, request.user)),
                )
            },
        }
    }

    /// What updating the text with this id leaves and returns, given what the
    /// tokenizer said of the new text. A failed tokenization leaves the tables
    /// as they were, and so does an id that no row has.
    pub open spec fn update(
        self,
        id: int,
        request: TextCreateRequestView,
        tokenized: Result<Seq<char>, TokenizeError>,
    ) -> (DatabaseView, Result<TextView, StoreError>) {
        match tokenized {
            Err(cause) => (self, Err(StoreError::TokenizationFailed(cause))),
            Ok(tokens) => if self.texts.has(id) {
                (
                    DatabaseView {
                        texts: self.texts.update(id, request.text, tokens, request.lang),
                        words: self.words,
                    },
                    Ok(self.texts.replaced_row(id, request.text, tokens, request.lang)),
                )
            } else {
                (self, Err(StoreError::NotFound))
            },
        }
    }

    /// What deleting the text with this id leaves and returns: the number of
    /// rows that left, one or none.
    pub open spec fn delete(self, id: int) -> (DatabaseView, Result<int, StoreError>) {
        if self.texts.has(id) {
            (DatabaseView { texts: self.texts.delete(id), words: self.words }, Ok(1))
        } else {
            (self, Ok(0))
        }
    }

    /// What a listing of the words of a user in a language returns.
    pub open spec fn wordsiknow(self, user: int, lang: Seq<char>) -> Result<
        Seq<WordView>,
        StoreError,
    > {
        Ok(self.words.known(user, lang))
    }

    /// What recording a word leaves and returns.
    pub open spec fn create_word(self, request: WordRequestView) -> (
        DatabaseView,
        Result<WordView, StoreError>,
    ) {
        if self.words.full() {
            (self, Err(StoreError::StoreError))
        } else {
            (
                DatabaseView {
                    texts: self.texts,
                    words: self.words.insert(
                        request.word,
                        request.state,
                        request.notes,
                        request.lang,
                        request.user,
                    ),
                },
                Ok(
                    self.words.fresh_row(
                        request.word,
                        request.state,
                        request.notes,
                        request.lang,
                        request.user,
                    ).word(),
                ),
            )
        }
    }

    /// What updating the word with this id leaves and returns. The language
    /// and the owner of the request are not written.
    pub open spec fn update_word(self, id: int, request: WordRequestView) -> (
        DatabaseView,
        Result<WordView, StoreError>,
    ) {
        if self.words.has(id) {
            (
                DatabaseView {
                    texts: self.texts,
                    words: self.words.update(id, request.word, request.state, request.notes),
                },
                Ok(
                    self.words.replaced_row(id, request.word, request.state, request.notes).word(),
                ),
            )
        } else {
            (self, Err(StoreError::NotFound))
        }
    }
}

impl DatabaseView {
    /// What a whole request leaves in the tables and returns, given what the
    /// tokenizer said of its text, if it was asked. A write to a text for
    /// which no answer of the tokenizer is at hand fails and writes nothing.
    pub open spec fn answer(
        self,
        command: CommandView,
        tokenized: Option<Result<Seq<char>, TokenizeError>>,
    ) -> (DatabaseView, Result<PayloadView, StoreError>) {
        match command {
            CommandView::FindAll => (self, texts_payload(self.find_all())),
            CommandView::FindById(id) => (self, text_payload(self.find_by_id(id))),
            CommandView::Create(request) => match tokenized {
                Some(answer) => (
                    self.create(request, answer).0,
                    text_payload(self.create(request, answer).1),
                ),
                None => (self, Err(StoreError::StoreError)),
            },
            CommandView::Update(id, request) => match tokenized {
                Some(answer) => (
                    self.update(id, request, answer).0,
                    text_payload(self.update(id, request, answer).1),
                ),
                None => (self, Err(StoreError::StoreError)),
            },
            CommandView::Delete(id) => (self.delete(id).0, count_payload(self.delete(id).1)),
            CommandView::WordsIKnow(user, lang) => (
                self,
                words_payload(self.wordsiknow(user, lang)),
            ),
            CommandView::CreateWord(request) => (
                self.create_word(request).0,
                word_payload(self.create_word(request).1),
            ),
            CommandView::UpdateWord(id, request) => (
                self.update_word(id, request).0,
                word_payload(self.update_word(id, request).1),
            ),
        }
    }
}

/// How many steps a request in this stage has before it at most.
pub open spec fn steps_left(stage: StageView) -> nat {
    match stage {
        StageView::Tokenizing { .. } => 4,
        StageView::Opening(_) => 3,
        StageView::Running(_) => 2,
        StageView::Reading(_) => 2,
        StageView::Committing(_) => 1,
        StageView::Aborting(_) => 1,
        StageView::Finished => 0,
    }
}

impl DatabaseView {
    /// What performing an action against these tables leads to: the tables
    /// afterwards, the event to report, and what is left of the tokenizer's
    /// answer, which is handed over once.
    pub open spec fn perform(
        self,
        action: ActionView,
        tokenized: Option<Result<Seq<char>, TokenizeError>>,
    ) -> (DatabaseView, EventView, Option<Result<Seq<char>, TokenizeError>>) {
        match action {
            ActionView::Tokenize { .. } => match tokenized {
                Some(answer) => (self, EventView::Tokenized(answer), None),
                None => (self, EventView::Failed, None),
            },
            ActionView::Begin => (self, EventView::Begun, tokenized),
            ActionView::Execute(statement) => {
                let (after, event) = self.execute(statement);
                (after, event, tokenized)
            },
            ActionView::Commit => (self, EventView::Committed, tokenized),
            ActionView::Rollback => (self, EventView::RolledBack, tokenized),
            ActionView::Return(_) => (self, EventView::Failed, tokenized),
        }
    }

    /// Where a request ends that stands in `stage` with `action` to perform:
    /// the tables it leaves and the outcome it returns.
    pub open spec fn finish(
        self,
        stage: StageView,
        action: ActionView,
        tokenized: Option<Result<Seq<char>, TokenizeError>>,
    ) -> (DatabaseView, Result<PayloadView, StoreError>)
        decreases steps_left(stage), (if action is Return { 0nat } else { 1nat }),
    {
        match action {
            ActionView::Return(outcome) => (self, outcome),
            _ => {
                let (after, event, rest) = self.perform(action, tokenized);
                let (next_stage, next_action) = step_spec(stage, event);
                after.finish(next_stage, next_action, rest)
            },
        }
    }

    /// Where a request ends: the tables it leaves and the outcome it returns.
    pub open spec fn run(
        self,
        command: CommandView,
        tokenized: Option<Result<Seq<char>, TokenizeError>>,
    ) -> (DatabaseView, Result<PayloadView, StoreError>) {
        let (stage, action) = start_spec(command);
        self.finish(stage, action, tokenized)
    }
}

/// The tokenizer's answer, if one is at hand, as a mathematical value.
pub open spec fn answer_view(tokenized: Option<Result<String, TokenizeError>>) -> Option<
    Result<Seq<char>, TokenizeError>,
> {
    match tokenized {
        Some(Ok(tokens)) => Some(Ok(tokens@)),
        Some(Err(cause)) => Some(Err(cause)),
        None => None,
    }
}

impl DatabaseView {
    /// Driving the pipeline against the tables gives every request the
    /// answer that is stated of it.
    pub proof fn lemma_run_answers(
        self,
        command: CommandView,
        tokenized: Option<Result<Seq<char>, TokenizeError>>,
    )
        ensures
            self.run(command, tokenized) == self.answer(command, tokenized),
    {
        reveal_with_fuel(DatabaseView::finish, 6);
    }
}

impl Database {
    /// Carries a request through: performs each action the pipeline asks for
    /// and reports it back, until the pipeline returns the outcome.
    /// `tokenized` is what the tokenizer said of the request's text; it is
    /// handed over when the pipeline asks for it.
    pub fn run(&mut self, command: Command, tokenized: Option<Result<String, TokenizeError>>) -> (outcome:
        Result<Payload, StoreError>)
        ensures
            final(self)@.wf(),
            (final(self)@, outcome_view(outcome)) == old(self)@.answer(
                command@,
                answer_view(tokenized),
            ),
    {
        proof {
            use_type_invariant(&self.texts);
            use_type_invariant(&self.words);
        }
        let first = start(command);
        let mut stage = first.0;
        let mut action = first.1;
        let mut answer = tokenized;
        loop
            invariant
                self@.wf(),
                self@.finish(stage@, action@, answer_view(answer)) == old(self)@.run(
                    command@,
                    answer_view(tokenized),
                ),
            decreases steps_left(stage@), (if action@ is Return { 0nat } else { 1nat }),
        {
            let event = match action {
                Action::Return(outcome) => {
                    proof {
                        old(self)@.lemma_run_answers(command@, answer_view(tokenized));
                    }
                    return outcome;
                },
                Action::Tokenize { .. } => match answer.take() {
                    Some(tokens) => Event::Tokenized(tokens),
                    None => Event::Failed,
                },
                Action::Begin => Event::Begun,
                Action::Execute(statement) => self.execute(statement),
                Action::Commit => Event::Committed,
                Action::Rollback => Event::RolledBack,
            };
            let next = step(stage, event);
            stage = next.0;
            action = next.1;
        }
    }
}

impl CommandView {
    /// Whether the command only reads.
    pub open spec fn reads(self) -> bool {
        self is FindAll || self is FindById || self is WordsIKnow
    }
}

impl Database {
    /// Carries through a request that only reads. A command that writes is
    /// refused as a store failure.
    pub fn read(&self, command: Command) -> (outcome: Result<Payload, StoreError>)
        ensures
            self@.wf(),
            command@.reads() ==> outcome_view(outcome) == self@.answer(command@, None).1,
            !command@.reads() ==> outcome_view(outcome) == Err::<PayloadView, StoreError>(
                StoreError::StoreError,
            ),
    {
        proof {
            use_type_invariant(&self.texts);
            use_type_invariant(&self.words);
        }
        let first = start(command);
        match first.1 {
            Action::Execute(statement) => {
                let event = self.query(&statement);
                let last = step(first.0, event);
                match last.1 {
                    Action::Return(outcome) => outcome,
                    _ => Err(StoreError::StoreError),
                }
            },
            _ => Err(StoreError::StoreError),
        }
    }
}

impl Text {
    /// Every text, in ascending order of id. An empty table gives an empty
    /// list.
    pub fn find_all(db: &Database) -> (result: Result<Vec<Text>, StoreError>)
        ensures
            texts_result_view(result) == db@.find_all(),
            result matches Ok(rows) && forall|i: int, j: int|
                0 <= i < j < rows.len() ==> rows[i].id < rows[j].id,
    {
        let result = expect_texts(db.read(Command::FindAll));
        proof {
            let rows = result->Ok_0;
            assert forall|i: int, j: int| 0 <= i < j < rows.len() implies rows[i].id
                < rows[j].id by {
                assert(rows.deep_view()[i] == rows[i]@);
                assert(rows.deep_view()[j] == rows[j]@);
            }
        }
        result
    }

    /// The text with this id, or `NotFound`.
    pub fn find_by_id(id: i32, db: &Database) -> (result: Result<Text, StoreError>)
        ensures
            text_result_view(result) == db@.find_by_id(id as int),
    {
        expect_text(db.read(Command::FindById(id)))
    }

    /// Stores a new text with the tokenized form that the tokenizer gave for
    /// it, and returns the row with the id it was given. When the tokenizer
    /// failed, nothing is written and the failure is returned as
    /// `TokenizationFailed`.
    pub fn create(
        textreq: TextCreateRequest,
        tokenized: Result<String, TokenizeError>,
        db: &mut Database,
    ) -> (result: Result<Text, StoreError>)
        ensures
            final(db)@.wf(),
            (final(db)@, text_result_view(result)) == old(db)@.create(
                textreq@,
                tokens_view(tokenized),
            ),
    {
        expect_text(db.run(Command::Create(textreq), Some(tokenized)))
    }

    /// Replaces text, tokenized form and language of the text with this id,
    /// and returns the row as it then stands. The tokenized form is always
    /// the one handed in, whether or not the text changed. When the tokenizer
    /// failed, nothing is written; when no row has the id, the result is
    /// `NotFound`.
    pub fn update(
        id: i32,
        textreq: TextCreateRequest,
        tokenized: Result<String, TokenizeError>,
        db: &mut Database,
    ) -> (result: Result<Text, StoreError>)
        ensures
            final(db)@.wf(),
            (final(db)@, text_result_view(result)) == old(db)@.update(
                id as int,
                textreq@,
                tokens_view(tokenized),
            ),
    {
        expect_text(db.run(Command::Update(id, textreq), Some(tokenized)))
    }

    /// Removes the text with this id and returns how many rows left: one, or
    /// none when no row had the id.
    pub fn delete(id: i32, db: &mut Database) -> (result: Result<u64, StoreError>)
        ensures
            final(db)@.wf(),
            (final(db)@, count_result_view(result)) == old(db)@.delete(id as int),
    {
        expect_count(db.run(Command::Delete(id), None))
    }
}

impl Word {
    /// The words of this user in this language.
    pub fn wordsiknow(user: i32, lang: &str, db: &Database) -> (result: Result<
        Vec<Word>,
        StoreError,
    >)
        ensures
            words_result_view(result) == db@.wordsiknow(user as int, lang@),
    {
        expect_words(db.read(Command::WordsIKnow(user, lang.to_owned())))
    }

    /// Records a new word and returns it with the id it was given.
    pub fn create(wordreq: WordRequest, db: &mut Database) -> (result: Result<Word, StoreError>)
        ensures
            final(db)@.wf(),
            (final(db)@, word_result_view(result)) == old(db)@.create_word(wordreq@),
    {
        expect_word(db.run(Command::CreateWord(wordreq), None))
    }

    /// Replaces word, state and notes of the word with this id and returns it
    /// as it then stands, or `NotFound` when no row has the id.
    pub fn update(id: i32, wordreq: WordRequest, db: &mut Database) -> (result: Result<
        Word,
        StoreError,
    >)
        ensures
            final(db)@.wf(),
            (final(db)@, word_result_view(result)) == old(db)@.update_word(id as int, wordreq@),
    {
        expect_word(db.run(Command::UpdateWord(id, wordreq), None))
    }
}

} // verus!
