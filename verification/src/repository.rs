//! The table of quotes and the operations on it.
//!
//! [`QuoteTable`] keeps the rows in memory, one row per id, in the order in
//! which they were added. [`QuoteRepository`] holds the five operations, each
//! stated over the rows before and after the call, and
//! [`QuoteRepository::execute`] says what each [`StoreCommand`] means.
//!
//! A database that holds the rows is reached from outside this library, by
//! whoever runs the commands of the handlers. Nothing here speaks for that
//! database: what is proved of a request is proved of this table.

use vstd::prelude::*;
use crate::quote::{clone_quotes, quotes_view, Quote, QuoteView};
use crate::store::{CommandView, ReplyView, StoreCommand, StoreError, StoreReply};

verus! {

/// The number of rows that are read where no limit is given.
pub const DEFAULT_LIMIT: i64 = 10;

/// Some row has this id.
pub open spec fn has_id(rows: Seq<QuoteView>, id: Seq<char>) -> bool {
    exists|i: int| 0 <= i < rows.len() && (#[trigger] rows[i]).id == id
}

/// The place of a row with this id, where there is one.
pub open spec fn index_of(rows: Seq<QuoteView>, id: Seq<char>) -> int {
    choose|i: int| 0 <= i < rows.len() && (#[trigger] rows[i]).id == id
}

/// The row with this id, where there is one.
pub open spec fn row_of(rows: Seq<QuoteView>, id: Seq<char>) -> QuoteView {
    rows[index_of(rows, id)]
}

/// No two rows share an id.
pub open spec fn distinct_ids(rows: Seq<QuoteView>) -> bool {
    forall|i: int, j: int|
        0 <= i < j < rows.len() ==> (#[trigger] rows[i]).id != (#[trigger] rows[j]).id
}

/// The limit that a read works with.
pub open spec fn limit_of(limit: Option<i64>) -> int {
    match limit {
        Some(n) => n as int,
        None => DEFAULT_LIMIT as int,
    }
}

/// What a read of at most `limit` rows gives: the first rows, as many as
/// there are up to the limit. A negative limit is refused.
pub open spec fn listed(rows: Seq<QuoteView>, limit: int) -> Result<Seq<QuoteView>, StoreError> {
    if limit < 0 {
        Err(StoreError::Failed)
    } else if limit < rows.len() {
        Ok(rows.subrange(0, limit))
    } else {
        Ok(rows)
    }
}

/// What a lookup gives.
pub open spec fn found(rows: Seq<QuoteView>, id: Seq<char>) -> Result<QuoteView, StoreError> {
    if has_id(rows, id) {
        Ok(row_of(rows, id))
    } else {
        Err(StoreError::NotFound)
    }
}

/// The rows after adding `row`: it goes to the end, unless its id is taken.
pub open spec fn after_insert(rows: Seq<QuoteView>, row: QuoteView) -> Seq<QuoteView> {
    if has_id(rows, row.id) {
        rows
    } else {
        rows.push(row)
    }
}

/// The rows after replacing the row that has the id of `row`.
pub open spec fn after_update(rows: Seq<QuoteView>, row: QuoteView) -> Seq<QuoteView> {
    if has_id(rows, row.id) {
        rows.update(index_of(rows, row.id), row)
    } else {
        rows
    }
}

/// The rows after deleting the row with this id.
pub open spec fn after_remove(rows: Seq<QuoteView>, id: Seq<char>) -> Seq<QuoteView> {
    if has_id(rows, id) {
        rows.remove(index_of(rows, id))
    } else {
        rows
    }
}

/// How many rows a write to this id touches.
pub open spec fn touched(rows: Seq<QuoteView>, id: Seq<char>) -> nat {
    if has_id(rows, id) {
        1
    } else {
        0
    }
}

/// What an insert answers: one row written, or a refusal where the id is
/// taken.
pub open spec fn insert_result(rows: Seq<QuoteView>, row: QuoteView) -> Result<nat, StoreError> {
    if has_id(rows, row.id) {
        Err(StoreError::Failed)
    } else {
        Ok(1)
    }
}

/// The rows that a command leaves behind.
pub open spec fn rows_after(rows: Seq<QuoteView>, command: CommandView) -> Seq<QuoteView> {
    match command {
        CommandView::List { limit } => rows,
        CommandView::Find { id } => rows,
        CommandView::Insert { row } => after_insert(rows, row),
        CommandView::Update { row } => after_update(rows, row),
        CommandView::Delete { id } => after_remove(rows, id),
    }
}

/// What the table answers to a command.
pub open spec fn reply_to(rows: Seq<QuoteView>, command: CommandView) -> ReplyView {
    match command {
        CommandView::List { limit } => match listed(rows, limit) {
            Ok(read) => ReplyView::Rows(read),
            Err(e) => ReplyView::Error(e),
        },
        CommandView::Find { id } => match found(rows, id) {
            Ok(row) => ReplyView::Row(row),
            Err(e) => ReplyView::Error(e),
        },
        CommandView::Insert { row } => match insert_result(rows, row) {
            Ok(n) => ReplyView::Written(n),
            Err(e) => ReplyView::Error(e),
        },
        CommandView::Update { row } => ReplyView::Written(touched(rows, row.id)),
        CommandView::Delete { id } => ReplyView::Written(touched(rows, id)),
    }
}

/// Where ids are distinct, the row with an id is the only one that has it.
pub proof fn lemma_index_is_unique(rows: Seq<QuoteView>, i: int)
    requires
        distinct_ids(rows),
        0 <= i < rows.len(),
    ensures
        has_id(rows, rows[i].id),
        index_of(rows, rows[i].id) == i,
        row_of(rows, rows[i].id) == rows[i],
{
    let j = index_of(rows, rows[i].id);
    if j < i {
        assert(rows[j].id != rows[i].id);
    } else if i < j {
        assert(rows[i].id != rows[j].id);
    }
}

/// Every write keeps the ids distinct.
pub proof fn lemma_writes_keep_ids_distinct(rows: Seq<QuoteView>, command: CommandView)
    requires
        distinct_ids(rows),
    ensures
        distinct_ids(rows_after(rows, command)),
{
    let after = rows_after(rows, command);
    match command {
        CommandView::Insert { row } => {
            if !has_id(rows, row.id) {
                assert forall|i: int, j: int| 0 <= i < j < after.len() implies (
                #[trigger] after[i]).id != (#[trigger] after[j]).id by {
                    if j == rows.len() {
                        assert(rows[i].id != row.id);
                    } else {
                        assert(rows[i].id != rows[j].id);
                    }
                }
            }
        },
        CommandView::Update { row } => {
            if has_id(rows, row.id) {
                let at = index_of(rows, row.id);
                assert forall|i: int, j: int| 0 <= i < j < after.len() implies (
                #[trigger] after[i]).id != (#[trigger] after[j]).id by {
                    assert(rows[i].id != rows[j].id);
                    assert(after[at].id == rows[at].id);
                }
            }
        },
        CommandView::Delete { id } => {
            if has_id(rows, id) {
                let at = index_of(rows, id);
                assert forall|i: int, j: int| 0 <= i < j < after.len() implies (
                #[trigger] after[i]).id != (#[trigger] after[j]).id by {
                    let i0 = if i < at { i } else { i + 1 };
                    let j0 = if j < at { j } else { j + 1 };
                    assert(rows[i0].id != rows[j0].id);
                }
            }
        },
        _ => {},
    }
}

/// A row that was added is the row that a lookup of its id gives.
pub proof fn lemma_insert_then_get(rows: Seq<QuoteView>, row: QuoteView)
    requires
        distinct_ids(rows),
        !has_id(rows, row.id),
    ensures
        insert_result(rows, row) == Ok::<nat, StoreError>(1),
        after_insert(rows, row).len() == rows.len() + 1,
        found(after_insert(rows, row), row.id) == Ok::<QuoteView, StoreError>(row),
{
    let after = after_insert(rows, row);
    lemma_writes_keep_ids_distinct(rows, CommandView::Insert { row });
    assert(after[rows.len() as int] == row);
    lemma_index_is_unique(after, rows.len() as int);
}

/// After a delete no row has the id, whether or not one had it before.
pub proof fn lemma_remove_then_get(rows: Seq<QuoteView>, id: Seq<char>)
    requires
        distinct_ids(rows),
    ensures
        !has_id(after_remove(rows, id), id),
        found(after_remove(rows, id), id) == Err::<QuoteView, StoreError>(StoreError::NotFound),
        after_remove(rows, id).len() == rows.len() - touched(rows, id),
{
    let after = after_remove(rows, id);
    if has_id(rows, id) {
        let at = index_of(rows, id);
        assert forall|k: int| 0 <= k < after.len() implies (#[trigger] after[k]).id != id by {
            if k < at {
                assert(rows[k].id != rows[at].id);
            } else {
                assert(rows[at].id != rows[k + 1].id);
            }
        }
    }
}

/// A delete leaves every other row as it was.
pub proof fn lemma_remove_keeps_other_rows(rows: Seq<QuoteView>, id: Seq<char>, other: Seq<char>)
    requires
        distinct_ids(rows),
        other != id,
    ensures
        found(after_remove(rows, id), other) == found(rows, other),
{
    let after = after_remove(rows, id);
    lemma_writes_keep_ids_distinct(rows, CommandView::Delete { id });
    if has_id(rows, id) {
        let at = index_of(rows, id);
        if has_id(rows, other) {
            let k = index_of(rows, other);
            let k1 = if k < at { k } else { k - 1 };
            assert(after[k1] == rows[k]);
            lemma_index_is_unique(after, k1);
        }
        if has_id(after, other) {
            let k1 = index_of(after, other);
            let k = if k1 < at { k1 } else { k1 + 1 };
            assert(rows[k] == after[k1]);
            lemma_index_is_unique(rows, k);
        }
    }
}

/// After an update a lookup of the id gives the new row, every other row is
/// as it was, and no row was added or lost. An update of an id that no row
/// has changes nothing.
pub proof fn lemma_update_then_get(rows: Seq<QuoteView>, row: QuoteView, other: Seq<char>)
    requires
        distinct_ids(rows),
    ensures
        after_update(rows, row).len() == rows.len(),
        has_id(rows, row.id) ==> found(after_update(rows, row), row.id) == Ok::<
            QuoteView,
            StoreError,
        >(row),
        !has_id(rows, row.id) ==> after_update(rows, row) == rows,
        other != row.id ==> found(after_update(rows, row), other) == found(rows, other),
{
    let after = after_update(rows, row);
    lemma_writes_keep_ids_distinct(rows, CommandView::Update { row });
    if has_id(rows, row.id) {
        let at = index_of(rows, row.id);
        assert(after[at] == row);
        lemma_index_is_unique(after, at);
        if other != row.id {
            if has_id(rows, other) {
                let k = index_of(rows, other);
                assert(after[k] == rows[k]);
                lemma_index_is_unique(after, k);
            }
            if has_id(after, other) {
                let k = index_of(after, other);
                assert(rows[k] == after[k]);
                lemma_index_is_unique(rows, k);
            }
        }
    }
}

/// A read with a limit gives the first rows: as many as the limit says, or
/// all where there are fewer.
pub proof fn lemma_list_respects_limit(rows: Seq<QuoteView>, limit: int)
    requires
        0 <= limit,
    ensures
        listed(rows, limit) matches Ok(read) && read.len() == (if limit < rows.len() {
            limit
        } else {
            rows.len() as int
        }) && forall|k: int| 0 <= k < read.len() ==> read[k] == rows[k],
{
}

/// The rows of the service, one per id.
#[derive(Debug)]
pub struct QuoteTable {
    rows: Vec<Quote>,
}

impl View for QuoteTable {
    type V = Seq<QuoteView>;

    closed spec fn view(&self) -> Seq<QuoteView> {
        quotes_view(self.rows@)
    }
}

impl QuoteTable {
    /// No two rows of the table share an id.
    #[verifier::type_invariant]
    pub open spec fn wf(&self) -> bool {
        distinct_ids(self@)
    }

    /// A table without rows.
    pub fn new() -> (table: QuoteTable)
        ensures
            table@.len() == 0,
    {
        QuoteTable { rows: Vec::new() }
    }

    /// The number of rows.
    pub fn len(&self) -> (count: usize)
        ensures
            count == self@.len(),
    {
        self.rows.len()
    }

    /// A copy of all rows, in their order.
    pub fn rows(&self) -> (copy: Vec<Quote>)
        ensures
            quotes_view(copy@) == self@,
    {
        clone_quotes(&self.rows)
    }

    /// The place of the row with this id.
    fn position(&self, id: &String) -> (at: Option<usize>)
        ensures
            match at {
                Some(i) => has_id(self@, id@) && i == index_of(self@, id@),
                None => !has_id(self@, id@),
            },
    {
        proof {
            use_type_invariant(self);
        }
        let mut i: usize = 0;
        while i < self.rows.len()
            invariant
                self.wf(),
                i <= self.rows.len(),
                forall|k: int| 0 <= k < i ==> (#[trigger] self@[k]).id != id@,
            decreases self.rows.len() - i,
        {
            if self.rows[i].id == *id {
                proof {
                    assert(self@[i as int].id == id@);
                    lemma_index_is_unique(self@, i as int);
                }
                return Some(i);
            }
            i = i + 1;
        }
        None
    }
}

/// The five operations on the table of quotes.
#[derive(Debug, Clone, Copy)]
pub struct QuoteRepository;

/// The value of the answer of a read of several rows.
pub open spec fn rows_result_view(answer: Result<Vec<Quote>, StoreError>) -> Result<
    Seq<QuoteView>,
    StoreError,
> {
    match answer {
        Ok(rows) => Ok(quotes_view(rows@)),
        Err(e) => Err(e),
    }
}

/// The value of the answer of a read of one row.
pub open spec fn row_result_view(answer: Result<Quote, StoreError>) -> Result<
    QuoteView,
    StoreError,
> {
    match answer {
        Ok(row) => Ok(row@),
        Err(e) => Err(e),
    }
}

/// The value of the answer of a write.
pub open spec fn count_result_view(answer: Result<usize, StoreError>) -> Result<nat, StoreError> {
    match answer {
        Ok(n) => Ok(n as nat),
        Err(e) => Err(e),
    }
}

impl QuoteRepository {
    /// Reads at most `limit` rows, or at most ten where no limit is given.
    pub fn get_quotes(&self, limit: Option<i64>, connection: &QuoteTable) -> (answer: Result<
        Vec<Quote>,
        StoreError,
    >)
        ensures
            rows_result_view(answer) == listed(connection@, limit_of(limit)),
    {
        let limit = match limit {
            Some(n) => n,
            None => DEFAULT_LIMIT,
        };
        if limit < 0 {
            return Err(StoreError::Failed);
        }
        let all = connection.rows.len();
        let count = if (all as u128) <= (limit as u128) {
            all
        } else {
            limit as usize
        };
        let mut read: Vec<Quote> = Vec::new();
        let mut i: usize = 0;
        while i < count
            invariant
                i <= count <= connection.rows.len(),
                read.len() == i,
                forall|k: int| 0 <= k < i ==> (#[trigger] read[k])@ == connection.rows[k]@,
            decreases count - i,
        {
            read.push(connection.rows[i].clone());
            i = i + 1;
        }
        assert(quotes_view(read@) =~= connection@.subrange(0, count as int));
        assert(connection@.subrange(0, connection@.len() as int) =~= connection@);
        Ok(read)
    }

    /// Reads the row with this id. That there is none is an answer, not a
    /// fault: `NotFound`.
    pub fn get_quote(&self, other_id: String, connection: &QuoteTable) -> (answer: Result<
        Quote,
        StoreError,
    >)
        ensures
            row_result_view(answer) == found(connection@, other_id@),
    {
        match connection.position(&other_id) {
            Some(at) => Ok(connection.rows[at].clone()),
            None => Err(StoreError::NotFound),
        }
    }

    /// Deletes the row with this id and says how many rows went: one, or
    /// none where no row had the id.
    pub fn remove(&self, other_id: String, connection: &mut QuoteTable) -> (answer: Result<
        usize,
        StoreError,
    >)
        ensures
            final(connection)@ == after_remove(old(connection)@, other_id@),
            count_result_view(answer) == Ok::<nat, StoreError>(
                touched(old(connection)@, other_id@),
            ),
    {
        proof {
            use_type_invariant(&*connection);
            lemma_writes_keep_ids_distinct(connection@, CommandView::Delete { id: other_id@ });
        }
        match connection.position(&other_id) {
            Some(at) => {
                let ghost before = connection@;
                let mut rows: Vec<Quote> = Vec::new();
                std::mem::swap(&mut rows, &mut connection.rows);
                rows.remove(at);
                assert(quotes_view(rows@) =~= before.remove(at as int));
                connection.rows = rows;
                Ok(1)
            },
            None => Ok(0),
        }
    }

    /// Adds the row. Exactly one row is written; a row whose id is taken is
    /// refused and nothing is written.
    pub fn insert(&self, quote_new: Quote, connection: &mut QuoteTable) -> (answer: Result<
        usize,
        StoreError,
    >)
        ensures
            final(connection)@ == after_insert(old(connection)@, quote_new@),
            count_result_view(answer) == insert_result(old(connection)@, quote_new@),
    {
        proof {
            use_type_invariant(&*connection);
            lemma_writes_keep_ids_distinct(connection@, CommandView::Insert { row: quote_new@ });
        }
        match connection.position(&quote_new.id) {
            Some(_) => Err(StoreError::Failed),
            None => {
                let ghost before = connection@;
                let mut rows: Vec<Quote> = Vec::new();
                std::mem::swap(&mut rows, &mut connection.rows);
                rows.push(quote_new);
                assert(quotes_view(rows@) =~= before.push(quote_new@));
                connection.rows = rows;
                Ok(1)
            },
        }
    }

    /// Replaces the row that has the id of `quote_new` and says how many
    /// rows changed: one, or none where no row has that id. No other row is
    /// touched.
    pub fn update(&self, quote_new: Quote, connection: &mut QuoteTable) -> (answer: Result<
        usize,
        StoreError,
    >)
        ensures
            final(connection)@ == after_update(old(connection)@, quote_new@),
            count_result_view(answer) == Ok::<nat, StoreError>(
                touched(old(connection)@, quote_new@.id),
            ),
    {
        proof {
            use_type_invariant(&*connection);
            lemma_writes_keep_ids_distinct(connection@, CommandView::Update { row: quote_new@ });
        }
        match connection.position(&quote_new.id) {
            Some(at) => {
                let ghost before = connection@;
                let mut rows: Vec<Quote> = Vec::new();
                std::mem::swap(&mut rows, &mut connection.rows);
                rows.set(at, quote_new);
                assert(quotes_view(rows@) =~= before.update(at as int, quote_new@));
                connection.rows = rows;
                Ok(1)
            },
            None => Ok(0),
        }
    }

    /// Carries out one command and wraps what came of it as a reply.
    pub fn execute(&self, command: StoreCommand, connection: &mut QuoteTable) -> (reply: StoreReply)
        ensures
            final(connection)@ == rows_after(old(connection)@, command@),
            reply@ == reply_to(old(connection)@, command@),
    {
        match command {
            StoreCommand::List { limit } => match self.get_quotes(Some(limit), connection) {
                Ok(rows) => StoreReply::Rows(rows),
                Err(e) => StoreReply::Error(e),
            },
            StoreCommand::Find { id } => match self.get_quote(id, connection) {
                Ok(row) => StoreReply::Row(row),
                Err(e) => StoreReply::Error(e),
            },
            StoreCommand::Insert { row } => match self.insert(row, connection) {
                Ok(n) => StoreReply::Written(n),
                Err(e) => StoreReply::Error(e),
            },
            StoreCommand::Update { row } => match self.update(row, connection) {
                Ok(n) => StoreReply::Written(n),
                Err(e) => StoreReply::Error(e),
            },
            StoreCommand::Delete { id } => match self.remove(id, connection) {
                Ok(n) => StoreReply::Written(n),
                Err(e) => StoreReply::Error(e),
            },
        }
    }
}

} // verus!
