//! The tables of the service, held in memory.
//!
//! A table keeps its rows in ascending order of id and hands out ids from a
//! counter that only grows, so an id is never given twice, not even after its
//! row has been deleted. Every statement takes effect whole or not at all.

use crate::model::{Text, TextView, Word, WordView};
use vstd::prelude::*;

verus! {

/// The `texts` table as a mathematical value: its rows in ascending order of
/// id, and the id that the next insert will assign.
pub struct TextTableView {
    pub rows: Seq<TextView>,
    pub next_id: int,
}

impl TextTableView {
    /// The table before anything was inserted.
    pub open spec fn empty() -> TextTableView {
        TextTableView { rows: Seq::empty(), next_id: 1 }
    }

    /// Ids are positive, ascending along the rows, and below the counter; the
    /// counter stops one past the largest id there is.
    pub open spec fn wf(self) -> bool {
        &&& 1 <= self.next_id <= i32::MAX + 1
        &&& forall|i: int|
            0 <= i < self.rows.len() ==> 1 <= (#[trigger] self.rows[i]).id < self.next_id
        &&& forall|i: int, j: int|
            0 <= i < j < self.rows.len() ==> self.rows[i].id < self.rows[j].id
    }

    /// Whether a row has this id.
    pub open spec fn has(self, id: int) -> bool {
        exists|i: int| 0 <= i < self.rows.len() && self.rows[i].id == id
    }

    /// Where the row with this id stands, if there is one.
    pub open spec fn index_of(self, id: int) -> int {
        choose|i: int| 0 <= i < self.rows.len() && self.rows[i].id == id
    }

    /// The row with this id.
    pub open spec fn get(self, id: int) -> Option<TextView> {
        if self.has(id) {
            Some(self.rows[self.index_of(id)])
        } else {
            None
        }
    }

    /// Whether every id has been handed out.
    pub open spec fn full(self) -> bool {
        self.next_id > i32::MAX
    }

    /// The row that an insert of these columns creates.
    pub open spec fn fresh_row(
        self,
        text: Seq<char>,
        tokenized: Seq<char>,
        lang: Seq<char>,
        user: int,
    ) -> TextView {
        TextView { id: self.next_id, text, tokenized, lang, user }
    }

    /// The table after an insert of these columns.
    pub open spec fn insert(
        self,
        text: Seq<char>,
        tokenized: Seq<char>,
        lang: Seq<char>,
        user: int,
    ) -> TextTableView {
        TextTableView {
            rows: self.rows.push(self.fresh_row(text, tokenized, lang, user)),
            next_id: self.next_id + 1,
        }
    }

    /// What the row with this id becomes when these columns replace its own:
    /// id and owner stay.
    pub open spec fn replaced_row(
        self,
        id: int,
        text: Seq<char>,
        tokenized: Seq<char>,
        lang: Seq<char>,
    ) -> TextView {
        TextView { id, text, tokenized, lang, user: self.rows[self.index_of(id)].user }
    }

    /// The table after the row with this id took these columns.
    pub open spec fn update(
        self,
        id: int,
        text: Seq<char>,
        tokenized: Seq<char>,
        lang: Seq<char>,
    ) -> TextTableView {
        TextTableView {
            rows: self.rows.update(
                self.index_of(id),
                self.replaced_row(id, text, tokenized, lang),
            ),
            next_id: self.next_id,
        }
    }

    /// The table after the row with this id left it.
    pub open spec fn delete(self, id: int) -> TextTableView {
        TextTableView { rows: self.rows.remove(self.index_of(id)), next_id: self.next_id }
    }

    /// A row is found where it stands and nowhere else.
    pub proof fn lemma_index(self, id: int, i: int)
        requires
            self.wf(),
            0 <= i < self.rows.len(),
            self.rows[i].id == id,
        ensures
            self.has(id),
            self.index_of(id) == i,
            self.get(id) == Some(self.rows[i]),
    {
        let j = self.index_of(id);
        assert(0 <= j < self.rows.len() && self.rows[j].id == id);
        if j < i {
            assert(self.rows[j].id < self.rows[i].id);
        } else if i < j {
            assert(self.rows[i].id < self.rows[j].id);
        }
    }
}

/// The `texts` table.
pub struct TextTable {
    rows: Vec<Text>,
    next_id: u32,
}

impl View for TextTable {
    type V = TextTableView;

    closed spec fn view(&self) -> TextTableView {
        TextTableView { rows: self.rows.deep_view(), next_id: self.next_id as int }
    }
}

impl TextTable {
    /// Holds of every table: the rows are well formed.
    #[verifier::type_invariant]
    pub open spec fn inv(&self) -> bool {
        self@.wf()
    }

    /// An empty table.
    pub fn new() -> (table: TextTable)
        ensures
            table@ == TextTableView::empty(),
            table@.wf(),
    {
        let table = TextTable { rows: Vec::new(), next_id: 1 };
        assert(table@.rows =~= Seq::empty());
        table
    }

    /// Where the row with this id stands.
    fn locate(&self, id: i32) -> (found: Option<usize>)
        ensures
            self@.wf(),
            match found {
                Some(i) => i < self.rows.len() && self@.has(id as int) && self@.index_of(id as int)
                    == i,
                None => !self@.has(id as int),
            },
    {
        proof {
            use_type_invariant(self);
        }
        let mut i: usize = 0;
        while i < self.rows.len()
            invariant
                i <= self.rows.len(),
                self@.wf(),
                forall|k: int| 0 <= k < i ==> self@.rows[k].id != id,
            decreases self.rows.len() - i,
        {
            if self.rows[i].id == id {
                proof {
                    self@.lemma_index(id as int, i as int);
                }
                return Some(i);
            }
            i += 1;
        }
        None
    }

    /// Every row, in ascending order of id.
    pub fn select_all(&self) -> (rows: Vec<Text>)
        ensures
            rows.deep_view() == self@.rows,
            self@.wf(),
    {
        proof {
            use_type_invariant(self);
        }
        let mut rows: Vec<Text> = Vec::new();
        let mut i: usize = 0;
        while i < self.rows.len()
            invariant
                i <= self.rows.len(),
                rows.len() == i,
                forall|k: int| 0 <= k < i ==> rows[k] == self.rows[k],
            decreases self.rows.len() - i,
        {
            rows.push(self.rows[i].clone());
            i += 1;
        }
        assert(rows.deep_view() =~= self.rows.deep_view());
        rows
    }

    /// The row with this id.
    pub fn select(&self, id: i32) -> (row: Option<Text>)
        ensures
            row.deep_view() == self@.get(id as int),
            self@.wf(),
    {
        match self.locate(id) {
            Some(i) => Some(self.rows[i].clone()),
            None => None,
        }
    }

    /// Inserts a row with these columns under the next id and returns it.
    /// When no id is left the insert fails and the table stays as it was.
    pub fn insert(&mut self, text: String, tokenized: String, lang: String, user: i32) -> (row:
        Option<Text>)
        ensures
            final(self)@.wf(),
            old(self)@.full() ==> row is None && final(self)@ == old(self)@,
            !old(self)@.full() ==> row.deep_view() == Some(
                old(self)@.fresh_row(text@, tokenized@, lang@, user as int),
            ) && final(self)@ == old(self)@.insert(text@, tokenized@, lang@, user as int),
    {
        proof {
            use_type_invariant(&*self);
        }
        if self.next_id > 0x7fff_ffff {
            return None;
        }
        let row = Text { id: self.next_id as i32, text, tokenized, lang, user };
        let copy = row.clone();
        let mut rows: Vec<Text> = Vec::new();
        std::mem::swap(&mut rows, &mut self.rows);
        rows.push(row);
        self.next_id = self.next_id + 1;
        proof {
            assert(rows.deep_view() =~= old(self)@.rows.push(row@));
        }
        self.rows = rows;
        Some(copy)
    }

    /// Gives the row with this id these columns and returns it as it then
    /// stands; id and owner stay. Without such a row nothing changes.
    pub fn update(&mut self, id: i32, text: String, tokenized: String, lang: String) -> (row:
        Option<Text>)
        ensures
            final(self)@.wf(),
            !old(self)@.has(id as int) ==> row is None && final(self)@ == old(self)@,
            old(self)@.has(id as int) ==> row.deep_view() == Some(
                old(self)@.replaced_row(id as int, text@, tokenized@, lang@),
            ) && final(self)@ == old(self)@.update(id as int, text@, tokenized@, lang@),
    {
        match self.locate(id) {
            None => None,
            Some(i) => {
                let row = Text { id, text, tokenized, lang, user: self.rows[i].user };
                let copy = row.clone();
                let mut rows: Vec<Text> = Vec::new();
                std::mem::swap(&mut rows, &mut self.rows);
                rows.set(i, row);
                proof {
                    assert(rows.deep_view() =~= old(self)@.rows.update(i as int, row@));
                }
                self.rows = rows;
                Some(copy)
            },
        }
    }

    /// Removes the row with this id and says how many rows left: one, or
    /// none when there was no such row.
    pub fn delete(&mut self, id: i32) -> (count: u64)
        ensures
            final(self)@.wf(),
            !old(self)@.has(id as int) ==> count == 0 && final(self)@ == old(self)@,
            old(self)@.has(id as int) ==> count == 1 && final(self)@ == old(self)@.delete(
                id as int,
            ),
    {
        match self.locate(id) {
            None => 0,
            Some(i) => {
                let mut rows: Vec<Text> = Vec::new();
                std::mem::swap(&mut rows, &mut self.rows);
                rows.remove(i);
                proof {
                    assert(rows.deep_view() =~= old(self)@.rows.remove(i as int));
                }
                self.rows = rows;
                1
            },
        }
    }
}

/// A row of the `words` table as a mathematical value.
pub struct WordRowView {
    pub id: int,
    pub word: Seq<char>,
    pub state: int,
    pub notes: Seq<char>,
    pub lang: Seq<char>,
    pub user: int,
}

impl WordRowView {
    /// The columns of the row that are handed out.
    pub open spec fn word(self) -> WordView {
        WordView { id: self.id, word: self.word, state: self.state, notes: self.notes }
    }

    /// Whether the row belongs to this user and language.
    pub open spec fn known_to(self, user: int, lang: Seq<char>) -> bool {
        self.user == user && self.lang == lang
    }
}

/// The `words` table as a mathematical value: its rows in ascending order of
/// id, and the id that the next insert will assign.
pub struct WordTableView {
    pub rows: Seq<WordRowView>,
    pub next_id: int,
}

impl WordTableView {
    /// The table before anything was inserted.
    pub open spec fn empty() -> WordTableView {
        WordTableView { rows: Seq::empty(), next_id: 1 }
    }

    /// Ids are positive, ascending along the rows, and below the counter; the
    /// counter stops one past the largest id there is.
    pub open spec fn wf(self) -> bool {
        &&& 1 <= self.next_id <= i32::MAX + 1
        &&& forall|i: int|
            0 <= i < self.rows.len() ==> 1 <= (#[trigger] self.rows[i]).id < self.next_id
        &&& forall|i: int, j: int|
            0 <= i < j < self.rows.len() ==> self.rows[i].id < self.rows[j].id
    }

    /// Whether a row has this id.
    pub open spec fn has(self, id: int) -> bool {
        exists|i: int| 0 <= i < self.rows.len() && self.rows[i].id == id
    }

    /// Where the row with this id stands, if there is one.
    pub open spec fn index_of(self, id: int) -> int {
        choose|i: int| 0 <= i < self.rows.len() && self.rows[i].id == id
    }

    /// Whether every id has been handed out.
    pub open spec fn full(self) -> bool {
        self.next_id > i32::MAX
    }

    /// The words of this user in this language, in ascending order of id.
    pub open spec fn known(self, user: int, lang: Seq<char>) -> Seq<WordView> {
        self.rows.filter(|row: WordRowView| row.known_to(user, lang)).map_values(
            |row: WordRowView| row.word(),
        )
    }

    /// The row that an insert of these columns creates.
    pub open spec fn fresh_row(
        self,
        word: Seq<char>,
        state: int,
        notes: Seq<char>,
        lang: Seq<char>,
        user: int,
    ) -> WordRowView {
        WordRowView { id: self.next_id, word, state, notes, lang, user }
    }

    /// The table after an insert of these columns.
    pub open spec fn insert(
        self,
        word: Seq<char>,
        state: int,
        notes: Seq<char>,
        lang: Seq<char>,
        user: int,
    ) -> WordTableView {
        WordTableView {
            rows: self.rows.push(self.fresh_row(word, state, notes, lang, user)),
            next_id: self.next_id + 1,
        }
    }

    /// What the row with this id becomes when these columns replace its own:
    /// id, language and owner stay.
    pub open spec fn replaced_row(
        self,
        id: int,
        word: Seq<char>,
        state: int,
        notes: Seq<char>,
    ) -> WordRowView {
        let row = self.rows[self.index_of(id)];
        WordRowView { id, word, state, notes, lang: row.lang, user: row.user }
    }

    /// The table after the row with this id took these columns.
    pub open spec fn update(
        self,
        id: int,
        word: Seq<char>,
        state: int,
        notes: Seq<char>,
    ) -> WordTableView {
        WordTableView {
            rows: self.rows.update(self.index_of(id), self.replaced_row(id, word, state, notes)),
            next_id: self.next_id,
        }
    }

    /// A row is found where it stands and nowhere else.
    pub proof fn lemma_index(self, id: int, i: int)
        requires
            self.wf(),
            0 <= i < self.rows.len(),
            self.rows[i].id == id,
        ensures
            self.has(id),
            self.index_of(id) == i,
    {
        let j = self.index_of(id);
        assert(0 <= j < self.rows.len() && self.rows[j].id == id);
        if j < i {
            assert(self.rows[j].id < self.rows[i].id);
        } else if i < j {
            assert(self.rows[i].id < self.rows[j].id);
        }
    }
}

/// A row of the `words` table.
struct WordRow {
    id: i32,
    word: String,
    state: i32,
    notes: String,
    lang: String,
    user: i32,
}

impl View for WordRow {
    type V = WordRowView;

    closed spec fn view(&self) -> WordRowView {
        WordRowView {
            id: self.id as int,
            word: self.word@,
            state: self.state as int,
            notes: self.notes@,
            lang: self.lang@,
            user: self.user as int,
        }
    }
}

impl DeepView for WordRow {
    type V = WordRowView;

    closed spec fn deep_view(&self) -> WordRowView {
        self@
    }
}

impl WordRow {
    /// The columns that are handed out, copied.
    fn to_word(&self) -> (word: Word)
        ensures
            word@ == self@.word(),
    {
        Word {
            id: self.id,
            word: self.word.clone(),
            state: self.state,
            notes: self.notes.clone(),
        }
    }
}

/// The `words` table.
pub struct WordTable {
    rows: Vec<WordRow>,
    next_id: u32,
}

impl View for WordTable {
    type V = WordTableView;

    closed spec fn view(&self) -> WordTableView {
        WordTableView { rows: self.rows.deep_view(), next_id: self.next_id as int }
    }
}

impl WordTable {
    /// Holds of every table: the rows are well formed.
    #[verifier::type_invariant]
    pub open spec fn inv(&self) -> bool {
        self@.wf()
    }

    /// An empty table.
    pub fn new() -> (table: WordTable)
        ensures
            table@ == WordTableView::empty(),
            table@.wf(),
    {
        let table = WordTable { rows: Vec::new(), next_id: 1 };
        assert(table@.rows =~= Seq::empty());
        table
    }

    /// Where the row with this id stands.
    fn locate(&self, id: i32) -> (found: Option<usize>)
        ensures
            self@.wf(),
            match found {
                Some(i) => i < self.rows.len() && self@.has(id as int) && self@.index_of(id as int)
                    == i,
                None => !self@.has(id as int),
            },
    {
        proof {
            use_type_invariant(self);
        }
        let mut i: usize = 0;
        while i < self.rows.len()
            invariant
                i <= self.rows.len(),
                self@.wf(),
                forall|k: int| 0 <= k < i ==> self@.rows[k].id != id,
            decreases self.rows.len() - i,
        {
            if self.rows[i].id == id {
                proof {
                    self@.lemma_index(id as int, i as int);
                }
                return Some(i);
            }
            i += 1;
        }
        None
    }

    /// The words of this user in this language, in ascending order of id.
    pub fn select_known(&self, user: i32, lang: &str) -> (words: Vec<Word>)
        ensures
            words.deep_view() == self@.known(user as int, lang@),
            self@.wf(),
    {
        proof {
            use_type_invariant(self);
        }
        let wanted = lang.to_owned();
        let ghost known = |row: WordRowView| row.known_to(user as int, lang@);
        let ghost handed = |row: WordRowView| row.word();
        let mut words: Vec<Word> = Vec::new();
        let mut i: usize = 0;
        proof {
            reveal(Seq::filter);
            assert(self@.rows.take(0).filter(known).map_values(handed) =~= words.deep_view());
        }
        while i < self.rows.len()
            invariant
                i <= self.rows.len(),
                wanted@ == lang@,
                known == |row: WordRowView| row.known_to(user as int, lang@),
                handed == |row: WordRowView| row.word(),
                words.deep_view() == self@.rows.take(i as int).filter(known).map_values(handed),
            decreases self.rows.len() - i,
        {
            let ghost row = self.rows[i as int]@;
            let ghost earlier = words.deep_view();
            proof {
                let before = self@.rows.take(i as int);
                assert(self@.rows.take(i + 1) =~= before.push(row));
                before.lemma_filter_push(row, known);
            }
            if self.rows[i].user == user && self.rows[i].lang == wanted {
                words.push(self.rows[i].to_word());
                proof {
                    let kept = self@.rows.take(i as int).filter(known);
                    assert(words.deep_view() =~= earlier.push(row.word()));
                    assert(kept.push(row).map_values(handed) =~= kept.map_values(handed).push(
                        row.word(),
                    ));
                }
            }
            i += 1;
        }
        assert(self@.rows.take(i as int) =~= self@.rows);
        words
    }

    /// Inserts a row with these columns under the next id and returns what is
    /// handed out of it. When no id is left the insert fails and the table
    /// stays as it was.
    pub fn insert(&mut self, word: String, state: i32, notes: String, lang: String, user: i32) -> (row:
        Option<Word>)
        ensures
            final(self)@.wf(),
            old(self)@.full() ==> row is None && final(self)@ == old(self)@,
            !old(self)@.full() ==> row.deep_view() == Some(
                old(self)@.fresh_row(word@, state as int, notes@, lang@, user as int).word(),
            ) && final(self)@ == old(self)@.insert(
                word@,
                state as int,
                notes@,
                lang@,
                user as int,
            ),
    {
        proof {
            use_type_invariant(&*self);
        }
        if self.next_id > 0x7fff_ffff {
            return None;
        }
        let row = WordRow { id: self.next_id as i32, word, state, notes, lang, user };
        let handed = row.to_word();
        let mut rows: Vec<WordRow> = Vec::new();
        std::mem::swap(&mut rows, &mut self.rows);
        rows.push(row);
        self.next_id = self.next_id + 1;
        proof {
            assert(rows.deep_view() =~= old(self)@.rows.push(row@));
        }
        self.rows = rows;
        Some(handed)
    }

    /// Gives the row with this id these columns and returns what is handed
    /// out of it as it then stands; id, language and owner stay. Without such
    /// a row nothing changes.
    pub fn update(&mut self, id: i32, word: String, state: i32, notes: String) -> (row: Option<
        Word,
    >)
        ensures
            final(self)@.wf(),
            !old(self)@.has(id as int) ==> row is None && final(self)@ == old(self)@,
            old(self)@.has(id as int) ==> row.deep_view() == Some(
                old(self)@.replaced_row(id as int, word@, state as int, notes@).word(),
            ) && final(self)@ == old(self)@.update(id as int, word@, state as int, notes@),
    {
        match self.locate(id) {
            None => None,
            Some(i) => {
                let row = WordRow {
                    id,
                    word,
                    state,
                    notes,
                    lang: self.rows[i].lang.clone(),
                    user: self.rows[i].user,
                };
                let handed = row.to_word();
                let mut rows: Vec<WordRow> = Vec::new();
                std::mem::swap(&mut rows, &mut self.rows);
                rows.set(i, row);
                proof {
                    assert(rows.deep_view() =~= old(self)@.rows.update(i as int, row@));
                }
                self.rows = rows;
                Some(handed)
            },
        }
    }
}

} // verus!
