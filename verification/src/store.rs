//! What the handlers ask of the store and what the store answers, as plain
//! values. Whoever holds the connection runs the command and hands the reply
//! back.

use vstd::prelude::*;
use crate::quote::{quotes_view, Quote, QuoteView};

verus! {

/// Why the store gave no result.
#[derive(Debug, Clone, Copy, PartialEq, Eq, Structural)]
pub enum StoreError {
    /// The row asked for does not exist.
    NotFound,
    /// No connection could be had from the pool in time.
    Unavailable,
    /// The store refused or failed the command.
    Failed,
}

/// One call on the table of quotes.
#[derive(Debug, PartialEq, Eq)]
pub enum StoreCommand {
    /// Read at most `limit` rows.
    List { limit: i64 },
    /// Read the row with this id.
    Find { id: String },
    /// Add this row.
    Insert { row: Quote },
    /// Replace the free-text fields of the row that has this row's id.
    Update { row: Quote },
    /// Delete the row with this id.
    Delete { id: String },
}

/// The answer to one command.
#[derive(Debug, PartialEq, Eq)]
pub enum StoreReply {
    /// The rows read by a `List`.
    Rows(Vec<Quote>),
    /// The row read by a `Find`.
    Row(Quote),
    /// The number of rows that a write touched.
    Written(usize),
    /// The command gave no result.
    Error(StoreError),
}

/// The mathematical value of a [`StoreCommand`].
pub enum CommandView {
    List { limit: int },
    Find { id: Seq<char> },
    Insert { row: QuoteView },
    Update { row: QuoteView },
    Delete { id: Seq<char> },
}

/// The mathematical value of a [`StoreReply`].
pub enum ReplyView {
    Rows(Seq<QuoteView>),
    Row(QuoteView),
    Written(nat),
    Error(StoreError),
}

impl View for StoreCommand {
    type V = CommandView;

    open spec fn view(&self) -> CommandView {
        match self {
            StoreCommand::List { limit } => CommandView::List { limit: *limit as int },
            StoreCommand::Find { id } => CommandView::Find { id: id@ },
            StoreCommand::Insert { row } => CommandView::Insert { row: row@ },
            StoreCommand::Update { row } => CommandView::Update { row: row@ },
            StoreCommand::Delete { id } => CommandView::Delete { id: id@ },
        }
    }
}

impl View for StoreReply {
    type V = ReplyView;

    open spec fn view(&self) -> ReplyView {
        match self {
            StoreReply::Rows(rows) => ReplyView::Rows(quotes_view(rows@)),
            StoreReply::Row(row) => ReplyView::Row(row@),
            StoreReply::Written(count) => ReplyView::Written(*count as nat),
            StoreReply::Error(error) => ReplyView::Error(*error),
        }
    }
}

/// The value of a reply that may not have come yet.
pub open spec fn reply_view(reply: Option<StoreReply>) -> Option<ReplyView> {
    match reply {
        Some(r) => Some(r@),
        None => None,
    }
}

} // verus!
