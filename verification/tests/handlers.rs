use quote_service::controllers::{
    add, add_with_id, delete, item, list, update, Action, Response, Stage, Turn, LIST_LIMIT,
};
use quote_service::error::MyError;
use quote_service::quote::{ApiPayloadQuote, Quote};
use quote_service::repository::{QuoteRepository, QuoteTable};
use quote_service::service::{handle, serve, serve_with_id, step, Request};
use quote_service::store::{StoreCommand, StoreError, StoreReply};
use quote_service::token::{create_jwt, TokenCodec};
use quote_service::validation::{Field, LengthViolation, ValidationErrors};

fn payload(author: &str, quote: &str) -> ApiPayloadQuote {
    ApiPayloadQuote { author: author.to_string(), quote: quote.to_string() }
}

fn row(id: &str, author: &str, quote: &str) -> Quote {
    Quote { id: id.to_string(), author: author.to_string(), quote: quote.to_string() }
}

fn table_of(rows: Vec<Quote>) -> QuoteTable {
    let mut table = QuoteTable::new();
    for r in rows {
        assert_eq!(QuoteRepository.insert(r, &mut table), Ok(1));
    }
    table
}

fn five_rows() -> QuoteTable {
    table_of(vec![
        row("id-1", "Author number one", "First quote"),
        row("id-2", "Author number two", "Second quote"),
        row("id-3", "Author number three", "Third quote"),
        row("id-4", "Author number four", "Fourth quote"),
        row("id-5", "Author number five", "Fifth quote"),
    ])
}

fn done(response: Response) -> Turn {
    Turn { stage: Stage::Done, action: Action::Send(response) }
}

fn is_uuid_text(id: &str) -> bool {
    let chars: Vec<char> = id.chars().collect();
    chars.len() == 36
        && chars.iter().enumerate().all(|(i, c)| {
            if i == 8 || i == 13 || i == 18 || i == 23 {
                *c == '-'
            } else {
                c.is_ascii_digit() || ('a'..='f').contains(c)
            }
        })
        && chars[14] == '4'
        && matches!(chars[19], '8' | '9' | 'a' | 'b')
}

#[test]
fn test_get_list() {
    let mut table = five_rows();
    let response = serve(&Request::List, &mut table);
    let success = response.status_code() == 200;
    println!("Out: {:?}", response);
    assert!(success);
}

#[test]
fn test_get_item() {
    let mut table = table_of(vec![row(
        "072f58a7-4150-431e-3729-60aea434088e",
        "Tintin le beau",
        "Il ne pas respirer la compote",
    )]);
    let request = Request::Item { id: "072f58a7-4150-431e-3729-60aea434088e".to_string() };
    let response = serve(&request, &mut table);
    let success = response.status_code() == 200;
    println!("Out: {:?}", response);
    assert!(success);
}

#[test]
fn test_post() {
    let mut table = QuoteTable::new();
    let request = Request::Add {
        form: ApiPayloadQuote {
            quote: "Il ne pas respirer la compote".to_string(),
            author: "Tintin le beau".to_string(),
        },
    };
    let response = serve(&request, &mut table);
    let success = response.status_code() == 200;
    println!("Out: {:?}", response);
    assert!(success);
}

#[test]
fn test_put() {
    let mut table = table_of(vec![row(
        "172f58a7-3729-431e-aa80-9189c808623c",
        "Someone else entirely",
        "An older quote",
    )]);
    let request = Request::Update {
        id: "172f58a7-3729-431e-aa80-9189c808623c".to_string(),
        form: ApiPayloadQuote {
            quote: "Nouvelle technique : on passe pour des cons, les autres se marrent, et on frappe. C’est nouveau. ".to_string(),
            author: "Tintin le beau".to_string(),
        },
    };
    let response = serve(&request, &mut table);
    let success = response.status_code() == 200;
    println!("Out: {:?}", response);
    assert!(success);
}

#[test]
fn update_walks_through_fetch_and_persist() {
    let form = payload("Tintin le beau", "Mille sabords");
    let id = "abc".to_string();

    let first = update(&form, &id, Stage::Start, None);
    assert_eq!(
        first,
        Turn {
            stage: Stage::Waiting,
            action: Action::Run(StoreCommand::Find { id: "abc".to_string() }),
        }
    );

    let fetched = row("abc", "Capitaine Haddock", "Tonnerre de Brest");
    let second = update(&form, &id, first.stage, Some(StoreReply::Row(fetched)));
    let revised = row("abc", "Tintin le beau", "Mille sabords");
    assert_eq!(
        second,
        Turn {
            stage: Stage::Writing(revised.clone()),
            action: Action::Run(StoreCommand::Update { row: revised.clone() }),
        }
    );

    let third = update(&form, &id, second.stage, Some(StoreReply::Written(1)));
    assert_eq!(third, done(Response::Single(revised)));
}

#[test]
fn update_keeps_the_id_of_the_fetched_row() {
    let form = payload("Tintin le beau", "Mille sabords");
    let fetched = row("id-in-the-store", "Capitaine Haddock", "Tonnerre de Brest");
    let turn = update(&form, &"id-in-the-path".to_string(), Stage::Waiting, Some(StoreReply::Row(fetched)));
    match turn.action {
        Action::Run(StoreCommand::Update { row }) => assert_eq!(row.id, "id-in-the-store"),
        other => panic!("unexpected action {:?}", other),
    }
}

#[test]
fn update_of_unknown_id_is_not_found_and_writes_nothing() {
    let form = payload("Tintin le beau", "Mille sabords");
    let id = "missing".to_string();
    let turn = update(&form, &id, Stage::Waiting, Some(StoreReply::Error(StoreError::NotFound)));
    assert_eq!(turn, done(Response::Failed(MyError::NotFound)));

    let mut table = five_rows();
    let before = table.rows();
    let response = serve(&Request::Update { id, form }, &mut table);
    assert_eq!(response, Response::Failed(MyError::NotFound));
    assert_eq!(response.status_code(), 404);
    assert_eq!(table.rows(), before);
}

#[test]
fn update_maps_every_store_failure() {
    let form = payload("Tintin le beau", "Mille sabords");
    let id = "abc".to_string();
    let fetch = |reply| update(&form, &id, Stage::Waiting, reply);
    assert_eq!(
        fetch(Some(StoreReply::Error(StoreError::Unavailable))),
        done(Response::Failed(MyError::ServerUnavailable))
    );
    assert_eq!(
        fetch(Some(StoreReply::Error(StoreError::Failed))),
        done(Response::Failed(MyError::ServerUnavailable))
    );
    assert_eq!(
        fetch(Some(StoreReply::Error(StoreError::NotFound))),
        done(Response::Failed(MyError::NotFound))
    );
    assert_eq!(fetch(Some(StoreReply::Written(1))), done(Response::Failed(MyError::InternalError)));
    assert_eq!(fetch(None), done(Response::Failed(MyError::InternalError)));

    let pending = row("abc", "Tintin le beau", "Mille sabords");
    let persist = |reply| update(&form, &id, Stage::Writing(pending.clone()), reply);
    assert_eq!(
        persist(Some(StoreReply::Error(StoreError::Unavailable))),
        done(Response::Failed(MyError::ServerUnavailable))
    );
    assert_eq!(
        persist(Some(StoreReply::Error(StoreError::Failed))),
        done(Response::Failed(MyError::ServerUnavailable))
    );
    assert_eq!(
        persist(Some(StoreReply::Error(StoreError::NotFound))),
        done(Response::Failed(MyError::ServerUnavailable))
    );
    assert_eq!(
        persist(Some(StoreReply::Row(pending.clone()))),
        done(Response::Failed(MyError::InternalError))
    );
    assert_eq!(persist(Some(StoreReply::Written(0))), done(Response::Single(pending.clone())));
    assert_eq!(persist(None), done(Response::Failed(MyError::InternalError)));
    assert_eq!(
        update(&form, &id, Stage::Done, Some(StoreReply::Written(1))),
        done(Response::Failed(MyError::InternalError))
    );
}

#[test]
fn update_refuses_a_bad_payload_before_the_store() {
    let form = payload("Tintin", "Ah");
    let id = "abc".to_string();
    let expected = ValidationErrors {
        violations: vec![
            LengthViolation { field: Field::Author, min: 10, value: "Tintin".to_string() },
            LengthViolation { field: Field::Quote, min: 5, value: "Ah".to_string() },
        ],
    };
    assert_eq!(update(&form, &id, Stage::Start, None), done(Response::Rejected(expected.clone())));
    let fetched = row("abc", "Capitaine Haddock", "Tonnerre de Brest");
    assert_eq!(
        update(&form, &id, Stage::Waiting, Some(StoreReply::Row(fetched))),
        done(Response::Rejected(expected))
    );
}

#[test]
fn add_with_id_inserts_the_payload_under_the_id() {
    let form = payload("Tintin le beau", "Il ne pas respirer la compote");
    let new_quote = row("fresh", "Tintin le beau", "Il ne pas respirer la compote");
    let first = add_with_id(&form, "fresh".to_string(), Stage::Start, None);
    assert_eq!(
        first,
        Turn {
            stage: Stage::Writing(new_quote.clone()),
            action: Action::Run(StoreCommand::Insert { row: new_quote.clone() }),
        }
    );
    let second = add_with_id(&form, String::new(), first.stage, Some(StoreReply::Written(1)));
    assert_eq!(second, done(Response::Single(new_quote)));
}

#[test]
fn add_maps_every_store_failure() {
    let form = payload("Tintin le beau", "Il ne pas respirer la compote");
    let pending = row("fresh", "Tintin le beau", "Il ne pas respirer la compote");
    let finish = |reply| add_with_id(&form, String::new(), Stage::Writing(pending.clone()), reply);
    for error in [StoreError::NotFound, StoreError::Unavailable, StoreError::Failed] {
        assert_eq!(
            finish(Some(StoreReply::Error(error))),
            done(Response::Failed(MyError::ServerUnavailable))
        );
    }
    assert_eq!(finish(Some(StoreReply::Rows(vec![]))), done(Response::Failed(MyError::InternalError)));
    assert_eq!(finish(None), done(Response::Failed(MyError::InternalError)));
    assert_eq!(
        add_with_id(&form, "x".to_string(), Stage::Waiting, Some(StoreReply::Written(1))),
        done(Response::Failed(MyError::InternalError))
    );
}

#[test]
fn add_refuses_a_bad_payload_with_every_violation() {
    let form = payload("Tintin", "Ah");
    let turn = add(&form, Stage::Start, None);
    let expected = ValidationErrors {
        violations: vec![
            LengthViolation { field: Field::Author, min: 10, value: "Tintin".to_string() },
            LengthViolation { field: Field::Quote, min: 5, value: "Ah".to_string() },
        ],
    };
    assert_eq!(turn, done(Response::Rejected(expected)));
    match turn.action {
        Action::Send(response) => assert_eq!(response.status_code(), 406),
        other => panic!("unexpected action {:?}", other),
    }
}

#[test]
fn add_draws_a_fresh_uuid_each_time() {
    let form = payload("Tintin le beau", "Il ne pas respirer la compote");
    let drawn = |turn: Turn| match (turn.stage, turn.action) {
        (Stage::Writing(pending), Action::Run(StoreCommand::Insert { row })) => {
            assert_eq!(pending, row);
            assert_eq!(row.author, "Tintin le beau");
            assert_eq!(row.quote, "Il ne pas respirer la compote");
            row.id
        }
        other => panic!("unexpected turn {:?}", other),
    };
    let one = drawn(add(&form, Stage::Start, None));
    let two = drawn(add(&form, Stage::Start, None));
    assert!(is_uuid_text(&one), "{}", one);
    assert!(is_uuid_text(&two), "{}", two);
    assert_ne!(one, two);
}

#[test]
fn list_asks_for_a_thousand_rows() {
    assert_eq!(LIST_LIMIT, 1000);
    let first = list(Stage::Start, None);
    assert_eq!(
        first,
        Turn { stage: Stage::Waiting, action: Action::Run(StoreCommand::List { limit: 1000 }) }
    );
    let rows = vec![row("a", "Author number one", "First quote")];
    assert_eq!(
        list(first.stage, Some(StoreReply::Rows(rows.clone()))),
        done(Response::Listed(rows))
    );
}

#[test]
fn list_and_item_map_every_store_failure() {
    let id = "abc".to_string();
    for (error, kind) in [
        (StoreError::Unavailable, MyError::ServerUnavailable),
        (StoreError::NotFound, MyError::NotFound),
        (StoreError::Failed, MyError::ServerUnavailable),
    ] {
        assert_eq!(
            list(Stage::Waiting, Some(StoreReply::Error(error))),
            done(Response::Failed(kind))
        );
        assert_eq!(
            item(&id, Stage::Waiting, Some(StoreReply::Error(error))),
            done(Response::Failed(kind))
        );
    }
    assert_eq!(
        list(Stage::Waiting, Some(StoreReply::Written(3))),
        done(Response::Failed(MyError::InternalError))
    );
    assert_eq!(
        item(&id, Stage::Waiting, Some(StoreReply::Rows(vec![]))),
        done(Response::Failed(MyError::InternalError))
    );
    assert_eq!(list(Stage::Done, None), done(Response::Failed(MyError::InternalError)));
    assert_eq!(item(&id, Stage::Done, None), done(Response::Failed(MyError::InternalError)));
}

#[test]
fn item_asks_for_the_row_and_answers_with_it() {
    let id = "abc".to_string();
    let first = item(&id, Stage::Start, None);
    assert_eq!(
        first,
        Turn {
            stage: Stage::Waiting,
            action: Action::Run(StoreCommand::Find { id: "abc".to_string() }),
        }
    );
    let found = row("abc", "Capitaine Haddock", "Tonnerre de Brest");
    assert_eq!(
        item(&id, first.stage, Some(StoreReply::Row(found.clone()))),
        done(Response::Single(found))
    );
}

#[test]
fn delete_succeeds_whether_or_not_the_row_was_there_but_not_where_the_store_fails() {
    let id = "abc".to_string();
    let first = delete(&id, Stage::Start, None);
    assert_eq!(
        first,
        Turn {
            stage: Stage::Waiting,
            action: Action::Run(StoreCommand::Delete { id: "abc".to_string() }),
        }
    );
    for reply in [
        StoreReply::Written(1),
        StoreReply::Written(0),
        StoreReply::Error(StoreError::NotFound),
    ] {
        assert_eq!(delete(&id, Stage::Waiting, Some(reply)), done(Response::Deleted));
    }
    for error in [StoreError::Unavailable, StoreError::Failed] {
        assert_eq!(
            delete(&id, Stage::Waiting, Some(StoreReply::Error(error))),
            done(Response::Failed(MyError::ServerUnavailable))
        );
    }
    assert_eq!(
        delete(&id, Stage::Waiting, Some(StoreReply::Rows(vec![]))),
        done(Response::Failed(MyError::InternalError))
    );
    assert_eq!(delete(&id, Stage::Waiting, None), done(Response::Failed(MyError::InternalError)));
    assert_eq!(delete(&id, Stage::Done, None), done(Response::Failed(MyError::InternalError)));
    assert_eq!(Response::Deleted.status_code(), 200);
}

#[test]
fn step_follows_the_handler_of_the_request() {
    let id = "abc".to_string();
    let none = String::new();
    assert_eq!(step(&Request::List, &none, Stage::Start, None), list(Stage::Start, None));
    assert_eq!(
        step(&Request::Item { id: id.clone() }, &none, Stage::Start, None),
        item(&id, Stage::Start, None)
    );
    assert_eq!(
        step(&Request::Delete { id: id.clone() }, &none, Stage::Start, None),
        delete(&id, Stage::Start, None)
    );
    let form = payload("Tintin le beau", "Mille sabords");
    assert_eq!(
        step(&Request::Add { form: form.clone() }, &id, Stage::Start, None),
        add_with_id(&form, id.clone(), Stage::Start, None)
    );
    assert_eq!(
        step(&Request::Update { id: id.clone(), form: form.clone() }, &none, Stage::Start, None),
        update(&form, &id, Stage::Start, None)
    );
}

#[test]
fn created_quote_can_be_read_under_its_id() {
    let mut table = five_rows();
    let form = payload("Tintin le beau", "Il ne pas respirer la compote");
    let created = serve(&Request::Add { form }, &mut table);
    let quote = match created {
        Response::Single(quote) => quote,
        other => panic!("unexpected response {:?}", other),
    };
    assert!(is_uuid_text(&quote.id));
    assert_eq!(quote.author, "Tintin le beau");
    assert_eq!(quote.quote, "Il ne pas respirer la compote");
    assert_eq!(table.len(), 6);
    let read = serve(&Request::Item { id: quote.id.clone() }, &mut table);
    assert_eq!(read, Response::Single(quote));
}

#[test]
fn create_with_a_taken_id_is_unavailable_and_writes_nothing() {
    let mut table = five_rows();
    let before = table.rows();
    let form = payload("Tintin le beau", "Il ne pas respirer la compote");
    let response = serve_with_id(&Request::Add { form }, &"id-3".to_string(), &mut table);
    assert_eq!(response, Response::Failed(MyError::ServerUnavailable));
    assert_eq!(response.status_code(), 503);
    assert_eq!(table.rows(), before);
}

#[test]
fn deleted_quote_cannot_be_read() {
    let mut table = five_rows();
    let id = "id-2".to_string();
    assert_eq!(serve(&Request::Delete { id: id.clone() }, &mut table), Response::Deleted);
    assert_eq!(table.len(), 4);
    assert_eq!(
        serve(&Request::Item { id: id.clone() }, &mut table),
        Response::Failed(MyError::NotFound)
    );
    assert_eq!(serve(&Request::Delete { id }, &mut table), Response::Deleted);
    assert_eq!(table.len(), 4);
}

#[test]
fn update_changes_text_and_leaves_id_and_other_rows() {
    let mut table = five_rows();
    let form = payload("Hergé himself", "Mille millions de mille sabords");
    let response = serve(&Request::Update { id: "id-4".to_string(), form }, &mut table);
    let expected = row("id-4", "Hergé himself", "Mille millions de mille sabords");
    assert_eq!(response, Response::Single(expected.clone()));
    assert_eq!(
        table.rows(),
        vec![
            row("id-1", "Author number one", "First quote"),
            row("id-2", "Author number two", "Second quote"),
            row("id-3", "Author number three", "Third quote"),
            expected.clone(),
            row("id-5", "Author number five", "Fifth quote"),
        ]
    );
    assert_eq!(
        serve(&Request::Item { id: "id-4".to_string() }, &mut table),
        Response::Single(expected)
    );
}

#[test]
fn rejected_request_touches_nothing() {
    let codec = TokenCodec::new("s3cret".to_string());
    let other = TokenCodec::new("another secret".to_string());
    let forged = create_jwt(&other).unwrap();
    let mut table = five_rows();
    let before = table.rows();
    let requests = vec![
        Request::Add { form: payload("Tintin le beau", "Il ne pas respirer la compote") },
        Request::Update { id: "id-1".to_string(), form: payload("Tintin le beau", "Mille sabords") },
        Request::Delete { id: "id-1".to_string() },
        Request::List,
    ];
    for request in &requests {
        for credentials in [None, Some(forged.as_str()), Some("not a token")] {
            let response = handle(&codec, "/api/quotes", credentials, request, &mut table);
            assert_eq!(response, Response::Failed(MyError::Unauthorized));
            assert_eq!(response.status_code(), 401);
            assert_eq!(table.rows(), before);
        }
    }
}

#[test]
fn post_with_a_valid_token_creates_the_quote() {
    let codec = TokenCodec::new("s3cret".to_string());
    let token = create_jwt(&codec).unwrap();
    let mut table = QuoteTable::new();
    let form = payload(
        "Antoine de Saint-Exupery",
        "Perfection is achieved not when there is nothing more to add.",
    );
    let request = Request::Add { form };

    let response = handle(&codec, "/api/quotes", Some(token.as_str()), &request, &mut table);
    assert_eq!(response.status_code(), 200);
    let created = match response {
        Response::Single(quote) => quote,
        other => panic!("unexpected response {:?}", other),
    };
    assert!(is_uuid_text(&created.id));
    assert_eq!(created.author, "Antoine de Saint-Exupery");
    assert_eq!(
        created.quote,
        "Perfection is achieved not when there is nothing more to add."
    );
    assert_eq!(table.rows(), vec![created]);

    let refused = handle(&codec, "/api/quotes", None, &request, &mut table);
    assert_eq!(refused, Response::Failed(MyError::Unauthorized));
    assert_eq!(refused.status_code(), 401);
    assert_eq!(table.len(), 1);
}

#[test]
fn response_status_follows_the_kind() {
    assert_eq!(Response::Listed(vec![]).status_code(), 200);
    assert_eq!(Response::Single(row("a", "b", "c")).status_code(), 200);
    assert_eq!(Response::Deleted.status_code(), 200);
    assert_eq!(Response::Rejected(ValidationErrors { violations: vec![] }).status_code(), 406);
    assert_eq!(Response::Failed(MyError::Timeout).status_code(), 504);
    assert_eq!(Response::Failed(MyError::BadClientData).status_code(), 400);
}
