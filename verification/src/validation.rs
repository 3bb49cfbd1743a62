//! The constraints a payload must meet before it may reach the store.
//!
//! Every constraint is checked on its own and every failing one is reported:
//! a short author does not hide a short quote.

use vstd::prelude::*;
use crate::quote::{ApiPayloadQuote, PayloadView};

verus! {

/// The least number of characters an author must have.
pub const AUTHOR_MIN_LENGTH: usize = 10;

/// The least number of characters a quote must have.
pub const QUOTE_MIN_LENGTH: usize = 5;

/// A constrained field of the payload.
#[derive(Debug, Clone, Copy, PartialEq, Eq, Structural)]
pub enum Field {
    Author,
    Quote,
}

/// One field that is shorter than it must be.
#[derive(Debug, PartialEq, Eq)]
pub struct LengthViolation {
    pub field: Field,
    /// The least length the field must have.
    pub min: usize,
    /// The value that was refused.
    pub value: String,
}

/// The mathematical value of a [`LengthViolation`].
pub struct LengthViolationView {
    pub field: Field,
    pub min: nat,
    pub value: Seq<char>,
}

impl View for LengthViolation {
    type V = LengthViolationView;

    open spec fn view(&self) -> LengthViolationView {
        LengthViolationView { field: self.field, min: self.min as nat, value: self.value@ }
    }
}

/// All the violations of one payload, the author's before the quote's.
#[derive(Debug, PartialEq, Eq)]
pub struct ValidationErrors {
    pub violations: Vec<LengthViolation>,
}

impl View for ValidationErrors {
    type V = Seq<LengthViolationView>;

    open spec fn view(&self) -> Seq<LengthViolationView> {
        self.violations@.map_values(|v: LengthViolation| v@)
    }
}

/// The author is long enough.
pub open spec fn author_ok(p: PayloadView) -> bool {
    p.author.len() >= AUTHOR_MIN_LENGTH
}

/// The quote is long enough.
pub open spec fn quote_ok(p: PayloadView) -> bool {
    p.quote.len() >= QUOTE_MIN_LENGTH
}

/// The payload meets every constraint.
pub open spec fn is_valid(p: PayloadView) -> bool {
    author_ok(p) && quote_ok(p)
}

/// What is reported of the author: nothing, or its one violation.
pub open spec fn author_violations(p: PayloadView) -> Seq<LengthViolationView> {
    if author_ok(p) {
        Seq::empty()
    } else {
        seq![
            LengthViolationView {
                field: Field::Author,
                min: AUTHOR_MIN_LENGTH as nat,
                value: p.author,
            },
        ]
    }
}

/// What is reported of the quote: nothing, or its one violation.
pub open spec fn quote_violations(p: PayloadView) -> Seq<LengthViolationView> {
    if quote_ok(p) {
        Seq::empty()
    } else {
        seq![
            LengthViolationView {
                field: Field::Quote,
                min: QUOTE_MIN_LENGTH as nat,
                value: p.quote,
            },
        ]
    }
}

/// Everything that is wrong with a payload.
pub open spec fn violations_of(p: PayloadView) -> Seq<LengthViolationView> {
    author_violations(p) + quote_violations(p)
}

/// `field` is named by one of the violations.
pub open spec fn lists(violations: Seq<LengthViolationView>, field: Field) -> bool {
    exists|i: int| 0 <= i < violations.len() && (#[trigger] violations[i]).field == field
}

impl Field {
    /// The name of the field in the payload.
    pub open spec fn name_text(self) -> Seq<char> {
        match self {
            Field::Author => "author"@,
            Field::Quote => "quote"@,
        }
    }

    pub fn name(&self) -> (text: &'static str)
        ensures
            text@ == self.name_text(),
    {
        match self {
            Field::Author => "author",
            Field::Quote => "quote",
        }
    }
}

impl Clone for LengthViolation {
    fn clone(&self) -> (copy: LengthViolation)
        ensures
            copy@ == self@,
    {
        LengthViolation { field: self.field, min: self.min, value: self.value.clone() }
    }
}

impl Clone for ValidationErrors {
    fn clone(&self) -> (copy: ValidationErrors)
        ensures
            copy@ == self@,
    {
        let mut violations: Vec<LengthViolation> = Vec::new();
        let mut i: usize = 0;
        while i < self.violations.len()
            invariant
                i <= self.violations.len(),
                violations.len() == i,
                forall|k: int| 0 <= k < i ==> (#[trigger] violations[k])@ == self.violations[k]@,
            decreases self.violations.len() - i,
        {
            violations.push(self.violations[i].clone());
            i = i + 1;
        }
        let copy = ValidationErrors { violations };
        assert(copy@ =~= self@);
        copy
    }
}

impl ValidationErrors {
    /// Whether nothing was found wrong.
    pub fn is_empty(&self) -> (empty: bool)
        ensures
            empty == (self@.len() == 0),
    {
        self.violations.len() == 0
    }

    /// Whether a violation of `field` is among these.
    pub fn mentions(&self, field: Field) -> (found: bool)
        ensures
            found == lists(self@, field),
    {
        let mut i: usize = 0;
        while i < self.violations.len()
            invariant
                i <= self.violations.len(),
                forall|k: int| 0 <= k < i ==> (#[trigger] self@[k]).field != field,
            decreases self.violations.len() - i,
        {
            if self.violations[i].field == field {
                assert(self@[i as int].field == field);
                return true;
            }
            i = i + 1;
        }
        false
    }
}

impl ApiPayloadQuote {
    /// Checks every constraint and reports all that fail.
    pub fn validate(&self) -> (checked: Result<(), ValidationErrors>)
        ensures
            checked is Ok <==> is_valid(self@),
            checked matches Err(errors) ==> errors@ == violations_of(self@),
    {
        let mut violations: Vec<LengthViolation> = Vec::new();
        if self.author.as_str().unicode_len() < AUTHOR_MIN_LENGTH {
            violations.push(
                LengthViolation {
                    field: Field::Author,
                    min: AUTHOR_MIN_LENGTH,
                    value: self.author.clone(),
                },
            );
        }
        let ghost first = violations@.map_values(|v: LengthViolation| v@);
        assert(first =~= author_violations(self@));
        if self.quote.as_str().unicode_len() < QUOTE_MIN_LENGTH {
            violations.push(
                LengthViolation {
                    field: Field::Quote,
                    min: QUOTE_MIN_LENGTH,
                    value: self.quote.clone(),
                },
            );
        }
        assert(violations@.map_values(|v: LengthViolation| v@) =~= first + quote_violations(
            self@,
        ));
        if violations.len() == 0 {
            Ok(())
        } else {
            Err(ValidationErrors { violations })
        }
    }
}

/// A payload is refused exactly when a field is too short, and then the
/// report names every field that is too short and no other.
pub proof fn lemma_every_violated_field_is_listed(p: PayloadView)
    ensures
        !is_valid(p) <==> (p.author.len() < 10 || p.quote.len() < 5),
        is_valid(p) <==> violations_of(p).len() == 0,
        lists(violations_of(p), Field::Author) <==> p.author.len() < 10,
        lists(violations_of(p), Field::Quote) <==> p.quote.len() < 5,
{
    let all = violations_of(p);
    if p.author.len() < 10 {
        assert(all[0].field == Field::Author);
    }
    if p.quote.len() < 5 {
        let last = all.len() - 1;
        assert(all[last].field == Field::Quote);
    }
}

} // verus!
