use quote_service::quote::{clone_quotes, ApiPayloadQuote, Quote};
use quote_service::validation::{
    Field, LengthViolation, ValidationErrors, AUTHOR_MIN_LENGTH, QUOTE_MIN_LENGTH,
};

fn payload(author: &str, quote: &str) -> ApiPayloadQuote {
    ApiPayloadQuote { author: author.to_string(), quote: quote.to_string() }
}

fn author_violation(value: &str) -> LengthViolation {
    LengthViolation { field: Field::Author, min: 10, value: value.to_string() }
}

fn quote_violation(value: &str) -> LengthViolation {
    LengthViolation { field: Field::Quote, min: 5, value: value.to_string() }
}

#[test]
fn limits_are_ten_and_five() {
    assert_eq!(AUTHOR_MIN_LENGTH, 10);
    assert_eq!(QUOTE_MIN_LENGTH, 5);
}

#[test]
fn long_enough_payload_passes() {
    assert_eq!(payload("Tintin le beau", "Il ne pas respirer la compote").validate(), Ok(()));
    assert_eq!(payload("0123456789", "01234").validate(), Ok(()));
}

#[test]
fn short_author_is_reported() {
    assert_eq!(
        payload("012345678", "01234").validate(),
        Err(ValidationErrors { violations: vec![author_violation("012345678")] })
    );
}

#[test]
fn short_quote_is_reported() {
    assert_eq!(
        payload("0123456789", "0123").validate(),
        Err(ValidationErrors { violations: vec![quote_violation("0123")] })
    );
}

#[test]
fn both_violations_are_reported_together() {
    let errors = payload("", "").validate().unwrap_err();
    assert_eq!(
        errors,
        ValidationErrors { violations: vec![author_violation(""), quote_violation("")] }
    );
    assert!(errors.mentions(Field::Author));
    assert!(errors.mentions(Field::Quote));
    assert!(!errors.is_empty());
}

#[test]
fn mentions_tells_the_fields_apart() {
    let errors = payload("short", "long enough").validate().unwrap_err();
    assert!(errors.mentions(Field::Author));
    assert!(!errors.mentions(Field::Quote));
    let errors = payload("long enough author", "abcd").validate().unwrap_err();
    assert!(!errors.mentions(Field::Author));
    assert!(errors.mentions(Field::Quote));
    assert!(ValidationErrors { violations: vec![] }.is_empty());
}

#[test]
fn length_counts_characters_not_bytes() {
    // Ten characters in twenty bytes, five in ten.
    assert_eq!(payload("éééééééééé", "ééééé").validate(), Ok(()));
    // Nine characters, though eighteen bytes; four, though twelve.
    assert_eq!(
        payload("ééééééééé", "日本語の").validate(),
        Err(ValidationErrors {
            violations: vec![author_violation("ééééééééé"), quote_violation("日本語の")],
        })
    );
}

#[test]
fn field_names_are_those_of_the_payload() {
    assert_eq!(Field::Author.name(), "author");
    assert_eq!(Field::Quote.name(), "quote");
}

#[test]
fn clones_are_equal() {
    let errors = payload("a", "b").validate().unwrap_err();
    assert_eq!(errors.clone(), errors);
    let violation = author_violation("x");
    assert_eq!(violation.clone(), violation);
    let form = payload("Tintin le beau", "Mille sabords");
    assert_eq!(form.clone(), form);
    let quote = Quote { id: "1".into(), author: "a".into(), quote: "q".into() };
    assert_eq!(quote.clone(), quote);
    let rows = vec![quote.clone(), Quote { id: "2".into(), author: "b".into(), quote: "r".into() }];
    assert_eq!(clone_quotes(&rows), rows);
    assert_eq!(clone_quotes(&Vec::new()), Vec::new());
}

#[test]
fn quote_is_made_from_id_and_payload() {
    let form = payload("Tintin le beau", "Mille sabords");
    assert_eq!(
        Quote::from_payload("new-id".to_string(), &form),
        Quote {
            id: "new-id".to_string(),
            author: "Tintin le beau".to_string(),
            quote: "Mille sabords".to_string(),
        }
    );
}

#[test]
fn revise_keeps_the_id() {
    let stored = Quote {
        id: "kept".to_string(),
        author: "Capitaine Haddock".to_string(),
        quote: "Tonnerre de Brest".to_string(),
    };
    let form = payload("Tintin le beau", "Mille sabords");
    assert_eq!(
        stored.revise(&form),
        Quote {
            id: "kept".to_string(),
            author: "Tintin le beau".to_string(),
            quote: "Mille sabords".to_string(),
        }
    );
}
