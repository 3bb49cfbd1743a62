//! The record the service keeps, and the payload a client sends for it.

use vstd::prelude::*;

verus! {

/// A stored quote. The id is given by the service on creation and never
/// changes afterwards.
#[derive(Debug, PartialEq, Eq)]
pub struct Quote {
    pub id: String,
    pub author: String,
    pub quote: String,
}

/// What a client sends to create or replace a quote. It carries no id.
#[derive(Debug, PartialEq, Eq)]
pub struct ApiPayloadQuote {
    pub author: String,
    pub quote: String,
}

/// The mathematical value of a [`Quote`].
pub struct QuoteView {
    pub id: Seq<char>,
    pub author: Seq<char>,
    pub quote: Seq<char>,
}

/// The mathematical value of an [`ApiPayloadQuote`].
pub struct PayloadView {
    pub author: Seq<char>,
    pub quote: Seq<char>,
}

impl View for Quote {
    type V = QuoteView;

    open spec fn view(&self) -> QuoteView {
        QuoteView { id: self.id@, author: self.author@, quote: self.quote@ }
    }
}

impl View for ApiPayloadQuote {
    type V = PayloadView;

    open spec fn view(&self) -> PayloadView {
        PayloadView { author: self.author@, quote: self.quote@ }
    }
}

/// The values of a sequence of quotes, in the same order.
pub open spec fn quotes_view(rows: Seq<Quote>) -> Seq<QuoteView> {
    rows.map_values(|q: Quote| q@)
}

/// The record that `id` and `payload` make together.
pub open spec fn quote_of(id: Seq<char>, payload: PayloadView) -> QuoteView {
    QuoteView { id, author: payload.author, quote: payload.quote }
}

/// `row` with its two free-text fields replaced by those of `payload`.
pub open spec fn revised(row: QuoteView, payload: PayloadView) -> QuoteView {
    QuoteView { id: row.id, author: payload.author, quote: payload.quote }
}

impl Clone for Quote {
    fn clone(&self) -> (copy: Quote)
        ensures
            copy@ == self@,
    {
        Quote { id: self.id.clone(), author: self.author.clone(), quote: self.quote.clone() }
    }
}

impl Clone for ApiPayloadQuote {
    fn clone(&self) -> (copy: ApiPayloadQuote)
        ensures
            copy@ == self@,
    {
        ApiPayloadQuote { author: self.author.clone(), quote: self.quote.clone() }
    }
}

impl Quote {
    /// The record for a new quote: the given id with the payload's fields.
    pub fn from_payload(id: String, payload: &ApiPayloadQuote) -> (row: Quote)
        ensures
            row@ == quote_of(id@, payload@),
    {
        Quote { id, author: payload.author.clone(), quote: payload.quote.clone() }
    }

    /// This record with `author` and `quote` taken from the payload. The id
    /// stays.
    pub fn revise(&self, payload: &ApiPayloadQuote) -> (row: Quote)
        ensures
            row@ == revised(self@, payload@),
            row@.id == self@.id,
    {
        Quote {
            id: self.id.clone(),
            author: payload.author.clone(),
            quote: payload.quote.clone(),
        }
    }
}

/// Copies a list of quotes.
pub fn clone_quotes(rows: &Vec<Quote>) -> (copy: Vec<Quote>)
    ensures
        quotes_view(copy@) == quotes_view(rows@),
{
    let mut copy: Vec<Quote> = Vec::new();
    let mut i: usize = 0;
    while i < rows.len()
        invariant
            i <= rows.len(),
            copy.len() == i,
            forall|k: int| 0 <= k < i ==> (#[trigger] copy[k])@ == rows[k]@,
        decreases rows.len() - i,
    {
        copy.push(rows[i].clone());
        i = i + 1;
    }
    assert(quotes_view(copy@) =~= quotes_view(rows@));
    copy
}

} // verus!
