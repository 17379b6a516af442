//! What holds of the store whatever it holds and whatever is asked of it.

use crate::error::{StoreError, TokenizeError};
use crate::model::{TextCreateRequestView, TextView};
use crate::pipeline::{
    start_spec, step_spec, ActionView, CommandView, EventView, StageView, StatementView,
};
use crate::store::DatabaseView;
use crate::table::TextTableView;
use vstd::prelude::*;

verus! {

/// The rows stand in strictly ascending order of id.
pub open spec fn ascending(rows: Seq<TextView>) -> bool {
    forall|i: int, j: int| 0 <= i < j < rows.len() ==> rows[i].id < rows[j].id
}

/// An insert keeps the table well formed, and the new row is found under the
/// id it was given.
pub proof fn lemma_insert(
    table: TextTableView,
    text: Seq<char>,
    tokenized: Seq<char>,
    lang: Seq<char>,
    user: int,
)
    requires
        table.wf(),
        !table.full(),
    ensures
        table.insert(text, tokenized, lang, user).wf(),
        !table.has(table.next_id),
        table.insert(text, tokenized, lang, user).get(table.next_id) == Some(
            table.fresh_row(text, tokenized, lang, user),
        ),
        forall|id: int|
            id != table.next_id ==> table.insert(text, tokenized, lang, user).get(id)
                == table.get(id),
{
    let after = table.insert(text, tokenized, lang, user);
    let last = table.rows.len() as int;
    assert(after.rows[last] == table.fresh_row(text, tokenized, lang, user));
    assert forall|i: int| 0 <= i < after.rows.len() implies 1 <= (#[trigger] after.rows[i]).id
        < after.next_id by {
        if i < last {
            assert(after.rows[i] == table.rows[i]);
        }
    }
    assert forall|i: int, j: int| 0 <= i < j < after.rows.len() implies after.rows[i].id
        < after.rows[j].id by {
        assert(after.rows[i] == table.rows[i]);
        if j < last {
            assert(after.rows[j] == table.rows[j]);
        }
    }
    after.lemma_index(table.next_id, last);
    assert forall|id: int| id != table.next_id implies after.get(id) == table.get(id) by {
        if table.has(id) {
            let k = table.index_of(id);
            assert(after.rows[k] == table.rows[k]);
            after.lemma_index(id, k);
        } else if after.has(id) {
            let k = after.index_of(id);
            assert(k < last);
            assert(after.rows[k] == table.rows[k]);
        }
    }
}

/// An update keeps the table well formed, changes the one row it names and
/// leaves every other row as it was.
pub proof fn lemma_update(
    table: TextTableView,
    id: int,
    text: Seq<char>,
    tokenized: Seq<char>,
    lang: Seq<char>,
)
    requires
        table.wf(),
        table.has(id),
    ensures
        table.update(id, text, tokenized, lang).wf(),
        table.update(id, text, tokenized, lang).rows.len() == table.rows.len(),
        table.update(id, text, tokenized, lang).get(id) == Some(
            table.replaced_row(id, text, tokenized, lang),
        ),
        forall|other: int|
            other != id ==> table.update(id, text, tokenized, lang).get(other) == table.get(
                other,
            ),
{
    let after = table.update(id, text, tokenized, lang);
    let at = table.index_of(id);
    assert forall|i: int| 0 <= i < after.rows.len() implies 1 <= (#[trigger] after.rows[i]).id
        < after.next_id by {
        assert(after.rows[i].id == table.rows[i].id);
    }
    assert forall|i: int, j: int| 0 <= i < j < after.rows.len() implies after.rows[i].id
        < after.rows[j].id by {
        assert(after.rows[i].id == table.rows[i].id);
        assert(after.rows[j].id == table.rows[j].id);
    }
    after.lemma_index(id, at);
    assert forall|other: int| other != id implies after.get(other) == table.get(other) by {
        if table.has(other) {
            let k = table.index_of(other);
            assert(after.rows[k] == table.rows[k]);
            after.lemma_index(other, k);
        } else if after.has(other) {
            let k = after.index_of(other);
            assert(after.rows[k].id == table.rows[k].id);
        }
    }
}

/// A delete keeps the table well formed, removes the one row it names and
/// leaves every other row as it was.
pub proof fn lemma_delete(table: TextTableView, id: int)
    requires
        table.wf(),
        table.has(id),
    ensures
        table.delete(id).wf(),
        table.delete(id).rows.len() == table.rows.len() - 1,
        table.delete(id).get(id) == None::<TextView>,
        forall|other: int| other != id ==> table.delete(id).get(other) == table.get(other),
{
    let after = table.delete(id);
    let at = table.index_of(id);
    assert forall|i: int| 0 <= i < after.rows.len() implies after.rows[i] == table.rows[if i
        < at {
        i
    } else {
        i + 1
    }] by {}
    assert forall|i: int| 0 <= i < after.rows.len() implies 1 <= (#[trigger] after.rows[i]).id
        < after.next_id by {
        assert(after.rows[i] == table.rows[if i < at {
            i
        } else {
            i + 1
        }]);
    }
    assert forall|i: int, j: int| 0 <= i < j < after.rows.len() implies after.rows[i].id
        < after.rows[j].id by {
        assert(after.rows[i] == table.rows[if i < at {
            i
        } else {
            i + 1
        }]);
        assert(after.rows[j] == table.rows[if j < at {
            j
        } else {
            j + 1
        }]);
    }
    if after.has(id) {
        let k = after.index_of(id);
        let from = if k < at {
            k
        } else {
            k + 1
        };
        assert(after.rows[k] == table.rows[from]);
        table.lemma_index(id, from);
    }
    assert forall|other: int| other != id implies after.get(other) == table.get(other) by {
        if table.has(other) {
            let k = table.index_of(other);
            let to = if k < at {
                k
            } else {
                k - 1
            };
            assert(after.rows[to] == table.rows[k]);
            after.lemma_index(other, to);
        } else if after.has(other) {
            let k = after.index_of(other);
            let from = if k < at {
                k
            } else {
                k + 1
            };
            assert(after.rows[k] == table.rows[from]);
        }
    }
}

/// After a text was created, a lookup of the id it was given returns that
/// row: it holds the request's text, language and owner, and the tokenized
/// form that the tokenizer gave.
pub proof fn law_create_then_find(
    db: DatabaseView,
    request: TextCreateRequestView,
    tokens: Seq<char>,
)
    requires
        db.wf(),
    ensures
        db.create(request, Ok(tokens)).1 is Ok <==> !db.texts.full(),
        db.create(request, Ok(tokens)).1 matches Ok(row) ==> {
            &&& db.create(request, Ok(tokens)).0.find_by_id(row.id) == Ok::<TextView, StoreError>(
                row,
            )
            &&& row.tokenized == tokens
            &&& row.text == request.text
            &&& row.lang == request.lang
            &&& row.user == request.user
            &&& !db.texts.has(row.id)
        },
{
    if !db.texts.full() {
        lemma_insert(db.texts, request.text, tokens, request.lang, request.user);
    }
}

/// An update asks for the tokenizer before anything else, with the text and
/// the language of the request and whatever the store holds; and the row it
/// writes holds the tokenizer's answer, also when the text is the one
/// already stored.
pub proof fn law_update_always_tokenizes(
    db: DatabaseView,
    id: int,
    request: TextCreateRequestView,
    tokens: Seq<char>,
)
    requires
        db.wf(),
    ensures
        start_spec(CommandView::Update(id, request)).1 == (ActionView::Tokenize {
            text: request.text,
            lang: request.lang,
        }),
        step_spec(
            start_spec(CommandView::Update(id, request)).0,
            EventView::Tokenized(Ok(tokens)),
        ) == (
            StageView::Opening(
                StatementView::UpdateText {
                    id,
                    text: request.text,
                    tokenized: tokens,
                    lang: request.lang,
                },
            ),
            ActionView::Begin,
        ),
        db.update(id, request, Ok(tokens)).1 is Ok <==> db.texts.has(id),
        db.update(id, request, Ok(tokens)).1 matches Ok(row) ==> {
            &&& row.tokenized == tokens
            &&& row.text == request.text
            &&& row.lang == request.lang
            &&& row.id == id
            &&& db.update(id, request, Ok(tokens)).0.find_by_id(id) == Ok::<TextView, StoreError>(
                row,
            )
        },
{
    if db.texts.has(id) {
        lemma_update(db.texts, id, request.text, tokens, request.lang);
    }
}

/// A delete of an id that no row has returns 0 and leaves the store as it
/// was. A delete of an id that a row has returns 1 and removes that row and
/// no other: one row fewer, the id no longer found, every other id found as
/// before, the words untouched.
pub proof fn law_delete(db: DatabaseView, id: int)
    requires
        db.wf(),
    ensures
        !db.texts.has(id) ==> db.delete(id) == (db, Ok::<int, StoreError>(0)),
        db.texts.has(id) ==> {
            &&& db.delete(id).1 == Ok::<int, StoreError>(1)
            &&& db.delete(id).0.texts.rows.len() == db.texts.rows.len() - 1
            &&& db.delete(id).0.find_by_id(id) == Err::<TextView, StoreError>(StoreError::NotFound)
            &&& forall|other: int|
                other != id ==> db.delete(id).0.find_by_id(other) == db.find_by_id(other)
            &&& db.delete(id).0.words == db.words
            &&& db.delete(id).0.texts.next_id == db.texts.next_id
        },
{
    if db.texts.has(id) {
        lemma_delete(db.texts, id);
    }
}

/// When the tokenizer fails, a create returns the failure and inserts no
/// row: the store is as it was, and the request ends on the tokenizer's
/// answer, before any statement was asked for.
pub proof fn law_failed_tokenization_creates_nothing(
    db: DatabaseView,
    request: TextCreateRequestView,
    cause: TokenizeError,
)
    ensures
        db.create(request, Err(cause)) == (
            db,
            Err::<TextView, StoreError>(StoreError::TokenizationFailed(cause)),
        ),
        step_spec(start_spec(CommandView::Create(request)).0, EventView::Tokenized(Err(cause)))
            == (
            StageView::Finished,
            ActionView::Return(Err(StoreError::TokenizationFailed(cause))),
        ),
{
}

/// When the tokenizer fails, an update returns the failure and changes no
/// row: the store is as it was, and the request ends on the tokenizer's
/// answer, before any statement was asked for.
pub proof fn law_failed_tokenization_updates_nothing(
    db: DatabaseView,
    id: int,
    request: TextCreateRequestView,
    cause: TokenizeError,
)
    ensures
        db.update(id, request, Err(cause)) == (
            db,
            Err::<TextView, StoreError>(StoreError::TokenizationFailed(cause)),
        ),
        step_spec(
            start_spec(CommandView::Update(id, request)).0,
            EventView::Tokenized(Err(cause)),
        ) == (StageView::Finished, ActionView::Return(Err(StoreError::TokenizationFailed(cause)))),
{
}

/// A listing returns the texts in ascending order of id, and every write
/// leaves the store in a state of which that holds again: the order of a
/// listing does not depend on the order of the writes before it.
pub proof fn law_find_all_ascending(
    db: DatabaseView,
    id: int,
    request: TextCreateRequestView,
    tokenized: Result<Seq<char>, TokenizeError>,
)
    requires
        db.wf(),
    ensures
        db.find_all() matches Ok(rows) && ascending(rows),
        db.create(request, tokenized).0.wf(),
        db.update(id, request, tokenized).0.wf(),
        db.delete(id).0.wf(),
{
    match tokenized {
        Ok(tokens) => {
            if !db.texts.full() {
                lemma_insert(db.texts, request.text, tokens, request.lang, request.user);
            }
            if db.texts.has(id) {
                lemma_update(db.texts, id, request.text, tokens, request.lang);
            }
        },
        Err(_) => {},
    }
    if db.texts.has(id) {
        lemma_delete(db.texts, id);
    }
}

} // verus!
