//! A whole request, from its admission to the response, served from a
//! [`QuoteTable`].
//!
//! The handlers of [`crate::controllers`] decide turn by turn; here their
//! commands are run against the table until a response comes out. What a
//! request does to the table and what it answers is stated in one piece by
//! [`served`], and the laws of the service are proved from it.

use vstd::prelude::*;
use crate::auth::{admits, credential_view, validator};
use crate::controllers::{
    add_turn, add_with_id, delete, delete_turn, item, item_turn, list, list_turn, update,
    update_turn, Action, ActionView, Response, ResponseView, Stage, StageView, Turn, TurnView,
    LIST_LIMIT,
};
use crate::error::MyError;
use crate::ident::{is_uuid_text, new_id};
use crate::quote::{quote_of, revised, ApiPayloadQuote, PayloadView, QuoteView};
use crate::repository::{
    after_insert, after_remove, after_update, distinct_ids, found, has_id, index_of,
    insert_result, lemma_insert_then_get, lemma_remove_then_get, lemma_update_then_get,
    lemma_writes_keep_ids_distinct, reply_to, row_of, rows_after, QuoteRepository, QuoteTable,
};
use crate::store::{CommandView, ReplyView, StoreReply, reply_view};
use crate::token::TokenCodec;
use crate::validation::{is_valid, violations_of};

verus! {

/// What a client asks for.
#[derive(Debug, PartialEq, Eq)]
pub enum Request {
    /// All quotes.
    List,
    /// The quote with this id.
    Item { id: String },
    /// That the quote with this id be deleted.
    Delete { id: String },
    /// That a quote be created from this payload.
    Add { form: ApiPayloadQuote },
    /// That the quote with this id take the fields of this payload.
    Update { id: String, form: ApiPayloadQuote },
}

/// The mathematical value of a [`Request`].
pub enum RequestView {
    List,
    Item { id: Seq<char> },
    Delete { id: Seq<char> },
    Add { form: PayloadView },
    Update { id: Seq<char>, form: PayloadView },
}

impl View for Request {
    type V = RequestView;

    open spec fn view(&self) -> RequestView {
        match self {
            Request::List => RequestView::List,
            Request::Item { id } => RequestView::Item { id: id@ },
            Request::Delete { id } => RequestView::Delete { id: id@ },
            Request::Add { form } => RequestView::Add { form: form@ },
            Request::Update { id, form } => RequestView::Update { id: id@, form: form@ },
        }
    }
}

/// The turn that the handler of `request` takes, where `new_id` is the
/// identifier drawn for a row to be created.
pub open spec fn turn_of(
    request: RequestView,
    new_id: Seq<char>,
    stage: StageView,
    reply: Option<ReplyView>,
) -> TurnView {
    match request {
        RequestView::List => list_turn(stage, reply),
        RequestView::Item { id } => item_turn(id, stage, reply),
        RequestView::Delete { id } => delete_turn(id, stage, reply),
        RequestView::Add { form } => add_turn(form, new_id, stage, reply),
        RequestView::Update { id, form } => update_turn(form, id, stage, reply),
    }
}

/// The first `limit` rows, or all where there are no more.
pub open spec fn first_rows(rows: Seq<QuoteView>, limit: int) -> Seq<QuoteView> {
    if 0 <= limit < rows.len() {
        rows.subrange(0, limit)
    } else {
        rows
    }
}

/// What a request answers and what it leaves in the table, where `new_id` is
/// the identifier drawn for a row to be created.
///
/// - A list answers with the first rows, at most a thousand.
/// - A read answers with the row, or `NotFound`.
/// - A delete succeeds whether or not the row was there.
/// - A create refuses a payload that fails the check; else it adds the row
///   made of `new_id` and the payload and answers with it, or answers
///   `ServerUnavailable` where the store refuses the row.
/// - A replace refuses a payload that fails the check; else it answers
///   `NotFound` where no row has the id; else it puts the payload's fields
///   onto the row and answers with the row as it now is.
pub open spec fn served(request: RequestView, new_id: Seq<char>, rows: Seq<QuoteView>) -> (
    ResponseView,
    Seq<QuoteView>,
) {
    match request {
        RequestView::List => (ResponseView::Listed(first_rows(rows, LIST_LIMIT as int)), rows),
        RequestView::Item { id } => match found(rows, id) {
            Ok(row) => (ResponseView::Single(row), rows),
            Err(_) => (ResponseView::Failed(MyError::NotFound), rows),
        },
        RequestView::Delete { id } => (ResponseView::Deleted, after_remove(rows, id)),
        RequestView::Add { form } => if !is_valid(form) {
            (ResponseView::Rejected(violations_of(form)), rows)
        } else {
            match insert_result(rows, quote_of(new_id, form)) {
                Ok(_) => (
                    ResponseView::Single(quote_of(new_id, form)),
                    after_insert(rows, quote_of(new_id, form)),
                ),
                Err(_) => (ResponseView::Failed(MyError::ServerUnavailable), rows),
            }
        },
        RequestView::Update { id, form } => if !is_valid(form) {
            (ResponseView::Rejected(violations_of(form)), rows)
        } else {
            match found(rows, id) {
                Ok(row) => (
                    ResponseView::Single(revised(row, form)),
                    after_update(rows, revised(row, form)),
                ),
                Err(_) => (ResponseView::Failed(MyError::NotFound), rows),
            }
        },
    }
}

/// What comes of letting the handler of `request` take its turns, each
/// command carried out on the rows and its reply handed to the next turn.
pub open spec fn run(request: RequestView, new_id: Seq<char>, rows: Seq<QuoteView>) -> (
    ResponseView,
    Seq<QuoteView>,
) {
    let first = turn_of(request, new_id, StageView::Start, None);
    match first.action {
        ActionView::Send(response) => (response, rows),
        ActionView::Run(asked) => {
            let then = rows_after(rows, asked);
            let second = turn_of(request, new_id, first.stage, Some(reply_to(rows, asked)));
            match second.action {
                ActionView::Send(response) => (response, then),
                ActionView::Run(written) => {
                    let at_last = rows_after(then, written);
                    let third = turn_of(
                        request,
                        new_id,
                        second.stage,
                        Some(reply_to(then, written)),
                    );
                    match third.action {
                        ActionView::Send(response) => (response, at_last),
                        ActionView::Run(_) => (
                            ResponseView::Failed(MyError::InternalError),
                            at_last,
                        ),
                    }
                },
            }
        },
    }
}

/// Turn by turn the handlers do what [`served`] says in one piece: whoever
/// runs their commands on a table of distinct ids ends with the response and
/// the rows that [`served`] gives.
pub proof fn lemma_run_is_served(request: RequestView, new_id: Seq<char>, rows: Seq<QuoteView>)
    requires
        distinct_ids(rows),
    ensures
        run(request, new_id, rows) == served(request, new_id, rows),
{
    match request {
        RequestView::Update { id, form } => {
            if is_valid(form) && has_id(rows, id) {
                let at = index_of(rows, id);
                assert(rows[at].id == id);
                assert(has_id(rows, revised(row_of(rows, id), form).id));
            }
        },
        _ => {},
    }
}

/// One turn of the handler that `request` belongs to.
pub fn step(request: &Request, new_id: &String, stage: Stage, reply: Option<StoreReply>) -> (turn:
    Turn)
    ensures
        turn@ == turn_of(request@, new_id@, stage@, reply_view(reply)),
{
    match request {
        Request::List => list(stage, reply),
        Request::Item { id } => item(id, stage, reply),
        Request::Delete { id } => delete(id, stage, reply),
        Request::Add { form } => add_with_id(form, new_id.clone(), stage, reply),
        Request::Update { id, form } => update(form, id, stage, reply),
    }
}

/// Serves `request` from `table`, with `new_id` as the identifier of a row
/// to be created: runs the handler's commands against the table until the
/// handler gives its response.
pub fn serve_with_id(request: &Request, new_id: &String, table: &mut QuoteTable) -> (response:
    Response)
    ensures
        (response@, final(table)@) == served(request@, new_id@, old(table)@),
{
    proof {
        use_type_invariant(&*table);
        lemma_run_is_served(request@, new_id@, table@);
    }
    let repository = QuoteRepository;
    let first = step(request, new_id, Stage::Start, None);
    let first_stage = first.stage;
    let first_command = match first.action {
        Action::Send(response) => {
            return response;
        },
        Action::Run(command) => command,
    };
    let first_reply = repository.execute(first_command, table);
    let second = step(request, new_id, first_stage, Some(first_reply));
    let second_stage = second.stage;
    let second_command = match second.action {
        Action::Send(response) => {
            return response;
        },
        Action::Run(command) => command,
    };
    let second_reply = repository.execute(second_command, table);
    let third = step(request, new_id, second_stage, Some(second_reply));
    match third.action {
        Action::Send(response) => response,
        Action::Run(_) => Response::Failed(MyError::InternalError),
    }
}

/// A row will be created for the request, so an identifier has to be drawn.
pub open spec fn needs_new_id(request: RequestView) -> bool {
    request matches RequestView::Add { form } && is_valid(form)
}

/// Serves `request` from `table`. Where a row is to be created, its
/// identifier is drawn here; the response is that of [`serve_with_id`] with
/// it.
pub fn serve(request: &Request, table: &mut QuoteTable) -> (response: Response)
    ensures
        exists|new_id: Seq<char>|
            (needs_new_id(request@) ==> is_uuid_text(new_id)) && (response@, final(table)@)
                == #[trigger] served(request@, new_id, old(table)@),
{
    let new_id = match request {
        Request::Add { form } => match form.validate() {
            Ok(()) => new_id(),
            Err(_) => String::new(),
        },
        _ => String::new(),
    };
    let response = serve_with_id(request, &new_id, table);
    assert((response@, table@) == served(request@, new_id@, old(table)@));
    response
}

/// The whole way of a request: the admission check first, then, only if
/// that lets it through, the handler. A request that is rejected is answered `Unauthorized`
/// and leaves the table as it was.
pub fn handle(
    codec: &TokenCodec,
    path: &str,
    credentials: Option<&str>,
    request: &Request,
    table: &mut QuoteTable,
) -> (response: Response)
    ensures
        if admits(codec.secret(), path@, credential_view(credentials)) {
            exists|new_id: Seq<char>|
                (needs_new_id(request@) ==> is_uuid_text(new_id)) && (response@, final(table)@)
                    == #[trigger] served(request@, new_id, old(table)@)
        } else {
            response@ == ResponseView::Failed(MyError::Unauthorized) && final(table)@ == old(
                table,
            )@
        },
{
    match validator(codec, path, credentials) {
        Err(error) => Response::Failed(error),
        Ok(()) => serve(request, table),
    }
}

/// A quote that was created can be read under its id, with the author and
/// the quote of the payload. The id is the one that was drawn: the payload
/// has none.
pub proof fn lemma_created_quote_can_be_read(
    rows: Seq<QuoteView>,
    form: PayloadView,
    new_id: Seq<char>,
    any_id: Seq<char>,
)
    requires
        distinct_ids(rows),
        is_valid(form),
        !has_id(rows, new_id),
    ensures
        ({
            let (created, after) = served(RequestView::Add { form }, new_id, rows);
            let (read, _) = served(RequestView::Item { id: new_id }, any_id, after);
            &&& created == ResponseView::Single(quote_of(new_id, form))
            &&& read == created
            &&& quote_of(new_id, form).id == new_id
            &&& quote_of(new_id, form).author == form.author
            &&& quote_of(new_id, form).quote == form.quote
            &&& distinct_ids(after)
        }),
{
    let row = quote_of(new_id, form);
    lemma_insert_then_get(rows, row);
    lemma_writes_keep_ids_distinct(rows, CommandView::Insert { row });
}

/// A quote that was deleted can no longer be read: the read ends with
/// `NotFound`. The delete itself succeeds even where the quote was not there,
/// and a second delete succeeds too and changes nothing more.
pub proof fn lemma_deleted_quote_cannot_be_read(
    rows: Seq<QuoteView>,
    id: Seq<char>,
    any_id: Seq<char>,
)
    requires
        distinct_ids(rows),
    ensures
        ({
            let (deleted, after) = served(RequestView::Delete { id }, any_id, rows);
            let (read, _) = served(RequestView::Item { id }, any_id, after);
            let (again, at_last) = served(RequestView::Delete { id }, any_id, after);
            &&& deleted == ResponseView::Deleted
            &&& read == ResponseView::Failed(MyError::NotFound)
            &&& again == ResponseView::Deleted
            &&& at_last == after
            &&& distinct_ids(after)
        }),
{
    lemma_remove_then_get(rows, id);
    lemma_writes_keep_ids_distinct(rows, CommandView::Delete { id });
}

/// A replace gives the row the author and the quote of the payload and
/// leaves its id alone. The row can be read as it now is, no row is added or
/// lost, and every other row stays as it was.
pub proof fn lemma_update_changes_text_and_keeps_id(
    rows: Seq<QuoteView>,
    id: Seq<char>,
    form: PayloadView,
    other: Seq<char>,
    any_id: Seq<char>,
)
    requires
        distinct_ids(rows),
        is_valid(form),
        has_id(rows, id),
    ensures
        ({
            let (updated, after) = served(RequestView::Update { id, form }, any_id, rows);
            let (read, _) = served(RequestView::Item { id }, any_id, after);
            &&& updated == ResponseView::Single(
                QuoteView { id, author: form.author, quote: form.quote },
            )
            &&& read == updated
            &&& after.len() == rows.len()
            &&& other != id ==> found(after, other) == found(rows, other)
            &&& distinct_ids(after)
        }),
{
    let at = index_of(rows, id);
    assert(rows[at].id == id);
    let row = revised(row_of(rows, id), form);
    lemma_update_then_get(rows, row, other);
    lemma_writes_keep_ids_distinct(rows, CommandView::Update { row });
}

/// A replace of an id that no row has ends with `NotFound` and writes
/// nothing. So does one whose payload fails the check, which is refused.
pub proof fn lemma_update_of_unknown_id_writes_nothing(
    rows: Seq<QuoteView>,
    id: Seq<char>,
    form: PayloadView,
    any_id: Seq<char>,
)
    requires
        !has_id(rows, id) || !is_valid(form),
    ensures
        ({
            let (updated, after) = served(RequestView::Update { id, form }, any_id, rows);
            &&& after == rows
            &&& updated == if is_valid(form) {
                ResponseView::Failed(MyError::NotFound)
            } else {
                ResponseView::Rejected(violations_of(form))
            }
        }),
{
}

/// A payload that fails the check changes nothing, whatever is asked with
/// it.
pub proof fn lemma_refused_payload_writes_nothing(
    rows: Seq<QuoteView>,
    id: Seq<char>,
    form: PayloadView,
    any_id: Seq<char>,
)
    requires
        !is_valid(form),
    ensures
        served(RequestView::Add { form }, any_id, rows) == (
            ResponseView::Rejected(violations_of(form)),
            rows,
        ),
        served(RequestView::Update { id, form }, any_id, rows) == (
            ResponseView::Rejected(violations_of(form)),
            rows,
        ),
{
}

/// A list answers with as many rows as there are, up to a thousand, and
/// changes nothing.
pub proof fn lemma_list_is_bounded(rows: Seq<QuoteView>, any_id: Seq<char>)
    ensures
        ({
            let (answer, after) = served(RequestView::List, any_id, rows);
            &&& after == rows
            &&& answer matches ResponseView::Listed(read)
            &&& read.len() <= LIST_LIMIT
            &&& read.len() <= rows.len()
            &&& (rows.len() <= LIST_LIMIT ==> read == rows)
        }),
{
}

} // verus!
