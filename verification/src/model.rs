//! The records of the service and the payloads that create them.

use vstd::prelude::*;

verus! {

/// What a client sends to create a text or to replace one.
#[derive(Debug, PartialEq, Eq)]
pub struct TextCreateRequest {
    pub text: String,
    pub lang: String,
    pub user: i32,
}

/// A stored text together with its tokenized form.
#[derive(Debug, PartialEq, Eq)]
pub struct Text {
    pub id: i32,
    pub text: String,
    pub tokenized: String,
    pub lang: String,
    pub user: i32,
}

/// A text as a mathematical value.
pub struct TextView {
    pub id: int,
    pub text: Seq<char>,
    pub tokenized: Seq<char>,
    pub lang: Seq<char>,
    pub user: int,
}

/// A request as a mathematical value.
pub struct TextCreateRequestView {
    pub text: Seq<char>,
    pub lang: Seq<char>,
    pub user: int,
}

impl View for TextCreateRequest {
    type V = TextCreateRequestView;

    open spec fn view(&self) -> TextCreateRequestView {
        TextCreateRequestView { text: self.text@, lang: self.lang@, user: self.user as int }
    }
}

impl View for Text {
    type V = TextView;

    open spec fn view(&self) -> TextView {
        TextView {
            id: self.id as int,
            text: self.text@,
            tokenized: self.tokenized@,
            lang: self.lang@,
            user: self.user as int,
        }
    }
}

impl DeepView for TextCreateRequest {
    type V = TextCreateRequestView;

    open spec fn deep_view(&self) -> TextCreateRequestView {
        self@
    }
}

impl DeepView for Text {
    type V = TextView;

    open spec fn deep_view(&self) -> TextView {
        self@
    }
}

impl Clone for TextCreateRequest {
    fn clone(&self) -> (copy: Self)
        ensures
            copy == *self,
    {
        TextCreateRequest { text: self.text.clone(), lang: self.lang.clone(), user: self.user }
    }
}

impl Clone for Text {
    fn clone(&self) -> (copy: Self)
        ensures
            copy == *self,
    {
        Text {
            id: self.id,
            text: self.text.clone(),
            tokenized: self.tokenized.clone(),
            lang: self.lang.clone(),
            user: self.user,
        }
    }
}

/// A word that a user is learning, as it is handed out: the language and the
/// owner stay in the store.
#[derive(Debug, PartialEq, Eq)]
pub struct Word {
    pub id: i32,
    pub word: String,
    pub state: i32,
    pub notes: String,
}

/// What a client sends to record a word or to replace one.
#[derive(Debug, PartialEq, Eq)]
pub struct WordRequest {
    pub word: String,
    pub state: i32,
    pub notes: String,
    pub lang: String,
    pub user: i32,
}

/// A word as a mathematical value.
pub struct WordView {
    pub id: int,
    pub word: Seq<char>,
    pub state: int,
    pub notes: Seq<char>,
}

/// A word request as a mathematical value.
pub struct WordRequestView {
    pub word: Seq<char>,
    pub state: int,
    pub notes: Seq<char>,
    pub lang: Seq<char>,
    pub user: int,
}

impl View for Word {
    type V = WordView;

    open spec fn view(&self) -> WordView {
        WordView {
            id: self.id as int,
            word: self.word@,
            state: self.state as int,
            notes: self.notes@,
        }
    }
}

impl DeepView for Word {
    type V = WordView;

    open spec fn deep_view(&self) -> WordView {
        self@
    }
}

impl View for WordRequest {
    type V = WordRequestView;

    open spec fn view(&self) -> WordRequestView {
        WordRequestView {
            word: self.word@,
            state: self.state as int,
            notes: self.notes@,
            lang: self.lang@,
            user: self.user as int,
        }
    }
}

impl DeepView for WordRequest {
    type V = WordRequestView;

    open spec fn deep_view(&self) -> WordRequestView {
        self@
    }
}

impl Clone for Word {
    fn clone(&self) -> (copy: Self)
        ensures
            copy == *self,
    {
        Word {
            id: self.id,
            word: self.word.clone(),
            state: self.state,
            notes: self.notes.clone(),
        }
    }
}

impl Clone for WordRequest {
    fn clone(&self) -> (copy: Self)
        ensures
            copy == *self,
    {
        WordRequest {
            word: self.word.clone(),
            state: self.state,
            notes: self.notes.clone(),
            lang: self.lang.clone(),
            user: self.user,
        }
    }
}

} // verus!
