//! The request handlers, one per route.
//!
//! A handler never touches the store. It is told how far the request has come
//! and what the store answered last, and says what to do next: run one command
//! against the store, or send a response. Whoever holds the connection calls
//! the handler again with each reply until a response comes out.

use vstd::prelude::*;
use crate::error::MyError;
use crate::ident::{is_uuid_text, new_id};
use crate::quote::{quote_of, quotes_view, revised, ApiPayloadQuote, PayloadView, Quote, QuoteView};
use crate::store::{CommandView, ReplyView, StoreCommand, StoreError, StoreReply, reply_view};
use crate::validation::{is_valid, violations_of, LengthViolationView, ValidationErrors};

verus! {

/// The most rows the list route asks for.
pub const LIST_LIMIT: i64 = 1000;

/// How far a request has come.
#[derive(Debug, PartialEq, Eq)]
pub enum Stage {
    /// Nothing has been asked of the store yet.
    Start,
    /// A command is under way; nothing has to be remembered for its reply.
    Waiting,
    /// The write of this row is under way.
    Writing(Quote),
    /// The response has been given.
    Done,
}

/// What is sent back to the client.
#[derive(Debug, PartialEq, Eq)]
pub enum Response {
    /// The rows of a list.
    Listed(Vec<Quote>),
    /// The one row that was read, created or replaced.
    Single(Quote),
    /// The delete went through.
    Deleted,
    /// The payload was refused, with everything that is wrong with it.
    Rejected(ValidationErrors),
    /// The request failed.
    Failed(MyError),
}

/// What the caller of a handler does next.
#[derive(Debug, PartialEq, Eq)]
pub enum Action {
    /// Run this command and come back with the reply.
    Run(StoreCommand),
    /// Send this response; the request is over.
    Send(Response),
}

/// One decision of a handler.
#[derive(Debug, PartialEq, Eq)]
pub struct Turn {
    /// The stage to hand in with the next reply.
    pub stage: Stage,
    pub action: Action,
}

/// The mathematical value of a [`Stage`].
pub enum StageView {
    Start,
    Waiting,
    Writing(QuoteView),
    Done,
}

/// The mathematical value of a [`Response`].
pub enum ResponseView {
    Listed(Seq<QuoteView>),
    Single(QuoteView),
    Deleted,
    Rejected(Seq<LengthViolationView>),
    Failed(MyError),
}

/// The mathematical value of an [`Action`].
pub enum ActionView {
    Run(CommandView),
    Send(ResponseView),
}

/// The mathematical value of a [`Turn`].
pub struct TurnView {
    pub stage: StageView,
    pub action: ActionView,
}

impl View for Stage {
    type V = StageView;

    open spec fn view(&self) -> StageView {
        match self {
            Stage::Start => StageView::Start,
            Stage::Waiting => StageView::Waiting,
            Stage::Writing(row) => StageView::Writing(row@),
            Stage::Done => StageView::Done,
        }
    }
}

impl View for Response {
    type V = ResponseView;

    open spec fn view(&self) -> ResponseView {
        match self {
            Response::Listed(rows) => ResponseView::Listed(quotes_view(rows@)),
            Response::Single(row) => ResponseView::Single(row@),
            Response::Deleted => ResponseView::Deleted,
            Response::Rejected(errors) => ResponseView::Rejected(errors@),
            Response::Failed(error) => ResponseView::Failed(*error),
        }
    }
}

impl View for Action {
    type V = ActionView;

    open spec fn view(&self) -> ActionView {
        match self {
            Action::Run(command) => ActionView::Run(command@),
            Action::Send(response) => ActionView::Send(response@),
        }
    }
}

impl View for Turn {
    type V = TurnView;

    open spec fn view(&self) -> TurnView {
        TurnView { stage: self.stage@, action: self.action@ }
    }
}

impl ResponseView {
    /// The HTTP status of the response: 200 for every success, 406 for a
    /// refused payload, and the status of its kind for a failure.
    pub open spec fn status(self) -> int {
        match self {
            ResponseView::Rejected(_) => MyError::ValidationFailed.status(),
            ResponseView::Failed(error) => error.status(),
            _ => 200,
        }
    }
}

impl Response {
    pub fn status_code(&self) -> (code: u16)
        ensures
            code == self@.status(),
    {
        match self {
            Response::Rejected(_) => MyError::ValidationFailed.status_code(),
            Response::Failed(error) => error.status_code(),
            _ => 200,
        }
    }
}

/// How many turns a stage is from the end, at most.
pub open spec fn stage_rank(stage: StageView) -> nat {
    match stage {
        StageView::Start => 3,
        StageView::Waiting => 2,
        StageView::Writing(_) => 1,
        StageView::Done => 0,
    }
}

/// The turn that ends the request with `response`.
pub open spec fn finish(response: ResponseView) -> TurnView {
    TurnView { stage: StageView::Done, action: ActionView::Send(response) }
}

/// The turn that ends the request with a failure.
pub open spec fn fail(error: MyError) -> TurnView {
    finish(ResponseView::Failed(error))
}

/// The turn that hands out a command and waits for its reply.
pub open spec fn ask(command: CommandView) -> TurnView {
    TurnView { stage: StageView::Waiting, action: ActionView::Run(command) }
}

/// The turn that starts the write of `row`.
pub open spec fn write(command: CommandView, row: QuoteView) -> TurnView {
    TurnView { stage: StageView::Writing(row), action: ActionView::Run(command) }
}

/// The failure that stands for a read that gave no rows: a row that is not
/// there is `NotFound`, every other store error is `ServerUnavailable`, and a
/// reply of the wrong shape, or none, is `InternalError`.
pub open spec fn read_failure(reply: Option<ReplyView>) -> MyError {
    match reply {
        Some(ReplyView::Error(StoreError::NotFound)) => MyError::NotFound,
        Some(ReplyView::Error(_)) => MyError::ServerUnavailable,
        _ => MyError::InternalError,
    }
}

/// The failure that stands for a write that was not carried out: every store
/// error is `ServerUnavailable`, and a reply of the wrong shape, or none, is
/// `InternalError`.
pub open spec fn write_failure(reply: Option<ReplyView>) -> MyError {
    match reply {
        Some(ReplyView::Error(_)) => MyError::ServerUnavailable,
        _ => MyError::InternalError,
    }
}

/// What the list route does at each stage.
pub open spec fn list_turn(stage: StageView, reply: Option<ReplyView>) -> TurnView {
    match stage {
        StageView::Start => ask(CommandView::List { limit: LIST_LIMIT as int }),
        StageView::Waiting => match reply {
            Some(ReplyView::Rows(rows)) => finish(ResponseView::Listed(rows)),
            _ => fail(read_failure(reply)),
        },
        _ => fail(MyError::InternalError),
    }
}

/// What the route for one quote does at each stage.
pub open spec fn item_turn(id: Seq<char>, stage: StageView, reply: Option<ReplyView>) -> TurnView {
    match stage {
        StageView::Start => ask(CommandView::Find { id }),
        StageView::Waiting => match reply {
            Some(ReplyView::Row(row)) => finish(ResponseView::Single(row)),
            _ => fail(read_failure(reply)),
        },
        _ => fail(MyError::InternalError),
    }
}

/// What the delete route does at each stage. The delete succeeds whether a
/// row went or none was there. Where the store fails or no connection is to
/// be had, the row may still be there, and the delete fails with
/// `ServerUnavailable`.
pub open spec fn delete_turn(
    id: Seq<char>,
    stage: StageView,
    reply: Option<ReplyView>,
) -> TurnView {
    match stage {
        StageView::Start => ask(CommandView::Delete { id }),
        StageView::Waiting => match reply {
            Some(ReplyView::Written(_)) => finish(ResponseView::Deleted),
            Some(ReplyView::Error(StoreError::NotFound)) => finish(ResponseView::Deleted),
            _ => fail(write_failure(reply)),
        },
        _ => fail(MyError::InternalError),
    }
}

/// What the create route does at each stage, where `id` is the identifier
/// drawn for the new row.
pub open spec fn add_turn(
    form: PayloadView,
    id: Seq<char>,
    stage: StageView,
    reply: Option<ReplyView>,
) -> TurnView {
    match stage {
        StageView::Start => if is_valid(form) {
            write(CommandView::Insert { row: quote_of(id, form) }, quote_of(id, form))
        } else {
            finish(ResponseView::Rejected(violations_of(form)))
        },
        StageView::Writing(row) => match reply {
            Some(ReplyView::Written(_)) => finish(ResponseView::Single(row)),
            _ => fail(write_failure(reply)),
        },
        _ => fail(MyError::InternalError),
    }
}

/// What the replace route does at each stage: check the payload, fetch the
/// row, put the payload's fields onto it, persist it.
pub open spec fn update_turn(
    form: PayloadView,
    id: Seq<char>,
    stage: StageView,
    reply: Option<ReplyView>,
) -> TurnView {
    match stage {
        StageView::Start => if is_valid(form) {
            ask(CommandView::Find { id })
        } else {
            finish(ResponseView::Rejected(violations_of(form)))
        },
        StageView::Waiting => if !is_valid(form) {
            finish(ResponseView::Rejected(violations_of(form)))
        } else {
            match reply {
                Some(ReplyView::Row(row)) => write(
                    CommandView::Update { row: revised(row, form) },
                    revised(row, form),
                ),
                _ => fail(read_failure(reply)),
            }
        },
        StageView::Writing(row) => match reply {
            Some(ReplyView::Written(_)) => finish(ResponseView::Single(row)),
            _ => fail(write_failure(reply)),
        },
        StageView::Done => fail(MyError::InternalError),
    }
}

impl Turn {
    fn finish(response: Response) -> (turn: Turn)
        ensures
            turn@ == finish(response@),
    {
        Turn { stage: Stage::Done, action: Action::Send(response) }
    }

    fn fail(error: MyError) -> (turn: Turn)
        ensures
            turn@ == fail(error),
    {
        Turn { stage: Stage::Done, action: Action::Send(Response::Failed(error)) }
    }

    fn ask(command: StoreCommand) -> (turn: Turn)
        ensures
            turn@ == ask(command@),
    {
        Turn { stage: Stage::Waiting, action: Action::Run(command) }
    }

    fn write(command: StoreCommand, row: Quote) -> (turn: Turn)
        ensures
            turn@ == write(command@, row@),
    {
        Turn { stage: Stage::Writing(row), action: Action::Run(command) }
    }
}

fn failed_read(reply: &Option<StoreReply>) -> (error: MyError)
    ensures
        error == read_failure(reply_view(*reply)),
{
    match reply {
        Some(StoreReply::Error(StoreError::NotFound)) => MyError::NotFound,
        Some(StoreReply::Error(_)) => MyError::ServerUnavailable,
        _ => MyError::InternalError,
    }
}

fn failed_write(reply: &Option<StoreReply>) -> (error: MyError)
    ensures
        error == write_failure(reply_view(*reply)),
{
    match reply {
        Some(StoreReply::Error(_)) => MyError::ServerUnavailable,
        _ => MyError::InternalError,
    }
}

/// Replaces a quote: checks the payload, fetches the row with `quote_id`,
/// copies the payload's author and quote onto it and persists it.
///
/// A payload that fails the check is refused with all its violations before
/// anything is asked of the store. A row that is not there ends the request
/// with `NotFound`, and nothing is written. The row that is written keeps
/// the id of the row that was fetched. A store that fails, at the fetch or at
/// the write, ends the request with `ServerUnavailable`.
pub fn update(
    quote_form: &ApiPayloadQuote,
    quote_id: &String,
    stage: Stage,
    reply: Option<StoreReply>,
) -> (turn: Turn)
    ensures
        turn@ == update_turn(quote_form@, quote_id@, stage@, reply_view(reply)),
{
    match stage {
        Stage::Start => match quote_form.validate() {
            Ok(()) => Turn::ask(StoreCommand::Find { id: quote_id.clone() }),
            Err(errors) => Turn::finish(Response::Rejected(errors)),
        },
        Stage::Waiting => match quote_form.validate() {
            Err(errors) => Turn::finish(Response::Rejected(errors)),
            Ok(()) => match reply {
                Some(StoreReply::Row(db_quote)) => {
                    let row = db_quote.revise(quote_form);
                    Turn::write(StoreCommand::Update { row: row.clone() }, row)
                },
                other => Turn::fail(failed_read(&other)),
            },
        },
        Stage::Writing(row) => match reply {
            Some(StoreReply::Written(_)) => Turn::finish(Response::Single(row)),
            other => Turn::fail(failed_write(&other)),
        },
        Stage::Done => Turn::fail(MyError::InternalError),
    }
}

/// The first turn of a create whose payload passed the check: the row made
/// of `id` and the payload is handed out to be inserted.
fn insert_turn(quote_form: &ApiPayloadQuote, id: String) -> (turn: Turn)
    ensures
        turn@ == write(
            CommandView::Insert { row: quote_of(id@, quote_form@) },
            quote_of(id@, quote_form@),
        ),
{
    let new_quote = Quote::from_payload(id, quote_form);
    Turn::write(StoreCommand::Insert { row: new_quote.clone() }, new_quote)
}

/// Creates a quote under the identifier `id`: checks the payload, then has
/// the row made of `id` and the payload inserted, and answers with that row.
///
/// A payload that fails the check is refused with all its violations and
/// nothing is asked of the store. An insert that the store does not carry out
/// ends the request with `ServerUnavailable`.
pub fn add_with_id(
    quote_form: &ApiPayloadQuote,
    id: String,
    stage: Stage,
    reply: Option<StoreReply>,
) -> (turn: Turn)
    ensures
        turn@ == add_turn(quote_form@, id@, stage@, reply_view(reply)),
{
    match stage {
        Stage::Start => match quote_form.validate() {
            Ok(()) => insert_turn(quote_form, id),
            Err(errors) => Turn::finish(Response::Rejected(errors)),
        },
        Stage::Writing(row) => match reply {
            Some(StoreReply::Written(_)) => Turn::finish(Response::Single(row)),
            other => Turn::fail(failed_write(&other)),
        },
        _ => Turn::fail(MyError::InternalError),
    }
}

/// Creates a quote under a freshly drawn identifier. The client has no say
/// in the id: the payload has no such field, and the id is drawn here, once
/// the payload has passed the check and before anything is asked of the
/// store. Apart from the choice of the id this is [`add_with_id`].
pub fn add(quote_form: &ApiPayloadQuote, stage: Stage, reply: Option<StoreReply>) -> (turn: Turn)
    ensures
        exists|id: Seq<char>|
            (stage@ is Start && is_valid(quote_form@) ==> is_uuid_text(id)) && turn@
                == #[trigger] add_turn(quote_form@, id, stage@, reply_view(reply)),
{
    match stage {
        Stage::Start => match quote_form.validate() {
            Ok(()) => {
                let id = new_id();
                let ghost drawn = id@;
                let turn = insert_turn(quote_form, id);
                assert(turn@ == add_turn(quote_form@, drawn, stage@, reply_view(reply)));
                turn
            },
            Err(errors) => {
                let turn = Turn::finish(Response::Rejected(errors));
                assert(turn@ == add_turn(quote_form@, Seq::empty(), stage@, reply_view(reply)));
                turn
            },
        },
        later => {
            let turn = add_with_id(quote_form, String::new(), later, reply);
            assert(turn@ == add_turn(quote_form@, Seq::empty(), stage@, reply_view(reply)));
            turn
        },
    }
}

/// Lists the quotes, at most [`LIST_LIMIT`] of them, in the order the store
/// gives them. A store that fails ends the request with `ServerUnavailable`.
pub fn list(stage: Stage, reply: Option<StoreReply>) -> (turn: Turn)
    ensures
        turn@ == list_turn(stage@, reply_view(reply)),
{
    match stage {
        Stage::Start => Turn::ask(StoreCommand::List { limit: LIST_LIMIT }),
        Stage::Waiting => match reply {
            Some(StoreReply::Rows(quotes)) => Turn::finish(Response::Listed(quotes)),
            other => Turn::fail(failed_read(&other)),
        },
        _ => Turn::fail(MyError::InternalError),
    }
}

/// Reads the quote with `quote_id`. A row that is not there is reported as
/// `NotFound`, a store that fails as `ServerUnavailable`.
pub fn item(quote_id: &String, stage: Stage, reply: Option<StoreReply>) -> (turn: Turn)
    ensures
        turn@ == item_turn(quote_id@, stage@, reply_view(reply)),
{
    match stage {
        Stage::Start => Turn::ask(StoreCommand::Find { id: quote_id.clone() }),
        Stage::Waiting => match reply {
            Some(StoreReply::Row(quote)) => Turn::finish(Response::Single(quote)),
            other => Turn::fail(failed_read(&other)),
        },
        _ => Turn::fail(MyError::InternalError),
    }
}

/// Deletes the quote with `quote_id`. Deleting a quote that is not there
/// succeeds like any other delete; a store that fails ends the request with
/// `ServerUnavailable`.
pub fn delete(quote_id: &String, stage: Stage, reply: Option<StoreReply>) -> (turn: Turn)
    ensures
        turn@ == delete_turn(quote_id@, stage@, reply_view(reply)),
{
    match stage {
        Stage::Start => Turn::ask(StoreCommand::Delete { id: quote_id.clone() }),
        Stage::Waiting => match reply {
            Some(StoreReply::Written(_)) => Turn::finish(Response::Deleted),
            Some(StoreReply::Error(StoreError::NotFound)) => Turn::finish(Response::Deleted),
            other => Turn::fail(failed_write(&other)),
        },
        _ => Turn::fail(MyError::InternalError),
    }
}

/// Whatever the stage and the reply, the create and replace routes hand out
/// a command only for a payload that passed the check, and the row of a write
/// carries the payload's author and quote.
pub proof fn lemma_only_checked_payloads_reach_the_store(
    form: PayloadView,
    id: Seq<char>,
    stage: StageView,
    reply: Option<ReplyView>,
)
    ensures
        add_turn(form, id, stage, reply).action matches ActionView::Run(command) ==> is_valid(
            form,
        ) && command == (CommandView::Insert { row: quote_of(id, form) }),
        update_turn(form, id, stage, reply).action matches ActionView::Run(command) ==> is_valid(
            form,
        ) && match command {
            CommandView::Find { id: asked } => asked == id,
            CommandView::Update { row } => row.author == form.author && row.quote == form.quote,
            _ => false,
        },
{
}

/// The replace route writes only after a fetch that gave a row, and then it
/// writes that row's id back; after a fetch that gave none it ends with a
/// failure.
pub proof fn lemma_update_writes_only_what_it_fetched(
    form: PayloadView,
    id: Seq<char>,
    stage: StageView,
    reply: Option<ReplyView>,
)
    ensures
        update_turn(form, id, stage, reply).action matches ActionView::Run(
            CommandView::Update { row },
        ) ==> stage is Waiting && (reply matches Some(ReplyView::Row(fetched)) && row.id
            == fetched.id),
        stage is Waiting && is_valid(form) && !(reply matches Some(ReplyView::Row(_)))
            ==> update_turn(form, id, stage, reply) == fail(read_failure(reply)),
        read_failure(Some(ReplyView::Error(StoreError::NotFound))) == MyError::NotFound,
{
}

/// A store that fails, or a pool without a free connection, is answered
/// `ServerUnavailable` by every route, whatever command was under way.
pub proof fn lemma_store_failures_are_unavailable(
    form: PayloadView,
    id: Seq<char>,
    row: QuoteView,
    error: StoreError,
)
    requires
        error != StoreError::NotFound,
    ensures
        ({
            let reply = Some(ReplyView::Error(error));
            let unavailable = fail(MyError::ServerUnavailable);
            &&& list_turn(StageView::Waiting, reply) == unavailable
            &&& item_turn(id, StageView::Waiting, reply) == unavailable
            &&& delete_turn(id, StageView::Waiting, reply) == unavailable
            &&& add_turn(form, id, StageView::Writing(row), reply) == unavailable
            &&& is_valid(form) ==> update_turn(form, id, StageView::Waiting, reply) == unavailable
            &&& update_turn(form, id, StageView::Writing(row), reply) == unavailable
        }),
{
}

/// Every route comes to its response: a turn that hands out a command moves
/// to a later stage, and the turn after a write always sends.
pub proof fn lemma_every_route_finishes(
    form: PayloadView,
    id: Seq<char>,
    stage: StageView,
    reply: Option<ReplyView>,
)
    ensures
        stage_rank(list_turn(stage, reply).stage) < stage_rank(stage) || stage is Done,
        stage_rank(item_turn(id, stage, reply).stage) < stage_rank(stage) || stage is Done,
        stage_rank(delete_turn(id, stage, reply).stage) < stage_rank(stage) || stage is Done,
        stage_rank(add_turn(form, id, stage, reply).stage) < stage_rank(stage) || stage is Done,
        stage_rank(update_turn(form, id, stage, reply).stage) < stage_rank(stage) || stage is Done,
        list_turn(stage, reply).action is Send <==> list_turn(stage, reply).stage is Done,
        item_turn(id, stage, reply).action is Send <==> item_turn(id, stage, reply).stage is Done,
        delete_turn(id, stage, reply).action is Send <==> delete_turn(id, stage, reply).stage
            is Done,
        add_turn(form, id, stage, reply).action is Send <==> add_turn(form, id, stage, reply).stage
            is Done,
        update_turn(form, id, stage, reply).action is Send <==> update_turn(
            form,
            id,
            stage,
            reply,
        ).stage is Done,
{
}

} // verus!
