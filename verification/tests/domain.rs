use bookshelf_api::common::types::{BookFormat, BookStore};
use bookshelf_api::domain::entity::author::{Author, AuthorId, AuthorName};
use bookshelf_api::domain::entity::book::{
    has_isbn_shape, parse_book_format, parse_book_store, Book, BookId, BookTitle, Isbn,
    OwnedFlag, Priority, ReadFlag,
};
use bookshelf_api::domain::entity::user::{User, UserId};
use bookshelf_api::domain::error::DomainError;
use bookshelf_api::presentation::extractor::claims::Claims;
use bookshelf_api::presentation::handler::user::{me_handler, MeResponse};

#[test]
fn types_book_format_ebook_to_string() {
    assert_eq!(BookFormat::EBook.to_string(), "eBook");
}

#[test]
fn types_book_format_printed_to_string() {
    assert_eq!(BookFormat::Printed.to_string(), "Printed");
}

#[test]
fn types_book_format_unknown_to_string() {
    assert_eq!(BookFormat::Unknown.to_string(), "Unknown");
}

#[test]
fn types_book_store_kindle_to_string() {
    assert_eq!(BookStore::Kindle.to_string(), "Kindle");
}

#[test]
fn types_book_store_unknown_to_string() {
    assert_eq!(BookStore::Unknown.to_string(), "Unknown");
}

#[test]
fn book_book_format_ebook_to_string() {
    assert_eq!(BookFormat::EBook.to_string(), "eBook");
}

#[test]
fn book_book_format_printed_to_string() {
    assert_eq!(BookFormat::Printed.to_string(), "Printed");
}

#[test]
fn book_book_format_unknown_to_string() {
    assert_eq!(BookFormat::Unknown.to_string(), "Unknown");
}

#[test]
fn book_book_store_kindle_to_string() {
    assert_eq!(BookStore::Kindle.to_string(), "Kindle");
}

#[test]
fn book_book_store_unknown_to_string() {
    assert_eq!(BookStore::Unknown.to_string(), "Unknown");
}

#[test]
fn author_id_to_string() {
    let uuid_str = "c6ea22c8-7b70-470c-a713-c7aade5693bd";
    let author_id = AuthorId::try_from(uuid_str).unwrap();
    assert_eq!(author_id.to_string(), uuid_str);
}

#[test]
fn author_validation_success() {
    assert!(matches!(AuthorName::new(String::from("author1")), Ok(_)));
}

#[test]
fn author_validation_failure() {
    assert!(matches!(
        AuthorName::new(String::from("")),
        Err(DomainError::Validation(_))
    ));
}

#[test]
fn valid_isbn_with_hyphen() {
    let isbn = Isbn::new("978-4062758574".to_owned());
    assert!(matches!(isbn, Ok(_)));
}

#[test]
fn valid_isbn_without_hyphen() {
    let isbn = Isbn::new("9784062758574".to_owned());
    assert!(matches!(isbn, Ok(_)));
}

#[test]
fn empty_isbn_is_valid() {
    let isbn = Isbn::new("".to_owned());
    assert!(matches!(isbn, Ok(_)));
}

#[test]
fn isbn_too_short() {
    let isbn = Isbn::new("1".to_owned());
    assert!(matches!(isbn, Err(_)));
}

#[test]
fn priority_0_is_valid() {
    let priority = Priority::new(0);
    assert!(matches!(priority, Ok(_)));
}

#[test]
fn priority_100_is_valid() {
    let priority = Priority::new(100);
    assert!(matches!(priority, Ok(_)));
}

#[test]
fn priority_negative1_is_invalid() {
    let priority = Priority::new(-1);
    assert!(matches!(priority, Err(_)));
}

#[test]
fn priority_101_is_invalid() {
    let priority = Priority::new(101);
    assert!(matches!(priority, Err(_)));
}

#[test]
fn user_validation_success() {
    assert!(matches!(UserId::new(String::from("user1")), Ok(_)));
}

#[test]
fn user_validation_failure() {
    assert!(matches!(
        UserId::new(String::from("")),
        Err(DomainError::Validation(_))
    ));
}

#[test]
fn me_response_serialization_with_valid_user_id() {
    let response = MeResponse {
        id: "auth0|123456789".to_string(),
    };

    let json = response.to_json();

    assert_eq!(json, r#"{"id":"auth0|123456789"}"#);
}

#[test]
fn me_response_with_empty_user_id() {
    let response = MeResponse { id: "".to_string() };

    let json = response.to_json();

    assert_eq!(json, r#"{"id":""}"#);
}

#[test]
fn me_response_equality_same_id() {
    let response1 = MeResponse {
        id: "auth0|abc123".to_string(),
    };
    let response2 = MeResponse {
        id: "auth0|abc123".to_string(),
    };

    assert_eq!(response1, response2);
}

#[test]
fn me_response_inequality_different_id() {
    let response1 = MeResponse {
        id: "auth0|abc123".to_string(),
    };
    let response2 = MeResponse {
        id: "auth0|def456".to_string(),
    };

    assert_ne!(response1, response2);
}

#[test]
fn claims_with_sub_maps_to_response_id() {
    let claims = Claims {
        sub: "auth0|user123".to_string(),
        _permissions: None,
    };

    let response = MeResponse { id: claims.sub };

    assert_eq!(response.id, "auth0|user123");
}

#[test]
fn claims_with_permissions_preserves_sub() {
    let mut permissions = Vec::new();
    permissions.push("read:books".to_string());
    permissions.push("write:books".to_string());

    let claims = Claims {
        sub: "auth0|admin456".to_string(),
        _permissions: Some(permissions),
    };

    let response = MeResponse { id: claims.sub };

    assert_eq!(response.id, "auth0|admin456");
}

#[test]
fn claims_with_special_characters_in_sub() {
    let claims = Claims {
        sub: "auth0|user@example.com".to_string(),
        _permissions: None,
    };

    let response = MeResponse { id: claims.sub };
    let json = response.to_json();

    assert!(json.contains("auth0|user@example.com"));
}

#[test]
fn claims_with_long_sub_id() {
    let long_id = "a".repeat(1000);
    let claims = Claims {
        sub: long_id.clone(),
        _permissions: None,
    };

    let response = MeResponse { id: claims.sub };

    assert_eq!(response.id.len(), 1000);
    assert_eq!(response.id, long_id);
}

#[test]
fn me_handler_returns_user_id_from_claims() {
    let claims = Claims {
        sub: "auth0|123".to_string(),
        _permissions: None,
    };

    let response = me_handler(claims);

    assert_eq!(response.id, "auth0|123");
}

#[test]
fn me_handler_with_permissions_returns_user_id() {
    let claims = Claims {
        sub: "auth0|admin456".to_string(),
        _permissions: Some(vec!["read:books".to_string()]),
    };

    let response = me_handler(claims);

    assert_eq!(response.id, "auth0|admin456");
}

#[test]
fn me_response_json_escapes_its_text() {
    let response = MeResponse { id: "a\"b\\c".to_string() };
    assert_eq!(response.to_json(), "{\"id\":\"a\\\"b\\\\c\"}");
}

#[test]
fn string_values_keep_their_text() {
    let user = UserId::new("auth0|abc".to_string()).unwrap();
    assert_eq!(user.as_str(), "auth0|abc");
    assert_eq!(user.into_string(), "auth0|abc");
    let name = AuthorName::new(" ".to_string()).unwrap();
    assert_eq!(name.as_str(), " ");
    let title = BookTitle::new("題名".to_string()).unwrap();
    assert_eq!(title.into_string(), "題名");
    assert!(matches!(BookTitle::new(String::new()), Err(DomainError::Validation(_))));
    let user = User::new(UserId::new("u".to_string()).unwrap());
    assert_eq!(user.id.as_str(), "u");
}

#[test]
fn empty_value_has_its_message() {
    match UserId::new(String::new()) {
        Err(DomainError::Validation(text)) => assert_eq!(text, "value: Validation error: length"),
        other => panic!("unexpected outcome {:?}", other),
    }
}

#[test]
fn isbn_shapes() {
    for text in ["", "9784062758574", "978-4062758574", "9-7-8-4-0-6-2-7-5-8-5-7-4", "978-4-06-275857-4"] {
        assert_eq!(Isbn::new(text.to_string()).unwrap().as_str(), text);
    }
    for text in ["1", "978406275857", "97840627585744", "9784062758574-", "-9784062758574", "978--4062758574", "978406275857X", " 9784062758574", "9784062758574\n"] {
        match Isbn::new(text.to_string()) {
            Err(DomainError::Validation(message)) => assert_eq!(message, "value: Validation error: regex"),
            other => panic!("unexpected outcome for {:?}: {:?}", text, other),
        }
    }
}

#[test]
fn isbn_shape_is_that_of_the_pattern() {
    let pattern = regex::Regex::new(r"(^$|^(\d-?){12}\d$)").unwrap();
    let samples = [
        "",
        "-",
        "1",
        "9784062758574",
        "978-4062758574",
        "9-7-8-4-0-6-2-7-5-8-5-7-4",
        "9-7-8-4-0-6-2-7-5-8-5-7-4-",
        "9-7-8-4-0-6-2-7-5-8-5-7--4",
        "97840627585741",
        "978406275857",
        "978406275857a",
        "a784062758574",
        "9784062758574 ",
        "9784062758574\n",
        "978\u{2d}4062758574",
        "978\u{2010}4062758574",
        "\u{0669}\u{0667}\u{0668}\u{0664}\u{0660}\u{0666}\u{0662}\u{0667}\u{0665}\u{0668}\u{0665}\u{0667}\u{0664}",
        "\u{ff19}784062758574",
        "\u{2460}784062758574",
        "\u{00b2}784062758574",
        "97840627585\u{0967}4",
        "1234567890123456789012345",
        "12345678901234567890123456",
    ];
    for text in samples {
        assert_eq!(has_isbn_shape(text), pattern.is_match(text), "for {:?}", text);
        assert_eq!(Isbn::new(text.to_string()).is_ok(), pattern.is_match(text), "for {:?}", text);
    }
}

#[test]
fn long_text_is_no_isbn() {
    let long = "9".repeat(1_000_000);
    assert!(!has_isbn_shape(&long));
    assert!(matches!(Isbn::new(long), Err(DomainError::Validation(_))));
}

#[test]
fn priority_keeps_its_value_and_names_its_range() {
    assert_eq!(Priority::new(0).unwrap().to_i32(), 0);
    assert_eq!(Priority::new(50).unwrap().to_i32(), 50);
    assert_eq!(Priority::new(100).unwrap().to_i32(), 100);
    for value in [-1, 101, i32::MIN, i32::MAX] {
        match Priority::new(value) {
            Err(DomainError::Validation(text)) => assert_eq!(text, "value: Validation error: range"),
            other => panic!("unexpected outcome {:?}", other),
        }
    }
}

#[test]
fn flags_keep_their_value() {
    assert!(ReadFlag::new(true).to_bool());
    assert!(!ReadFlag::new(false).to_bool());
    assert!(OwnedFlag::new(true).to_bool());
    assert!(!OwnedFlag::new(false).to_bool());
}

#[test]
fn formats_and_stores_are_read_from_their_names() {
    assert_eq!(BookFormat::try_from("eBook").unwrap(), BookFormat::EBook);
    assert_eq!(BookFormat::try_from("Printed").unwrap(), BookFormat::Printed);
    assert_eq!(BookFormat::try_from("Unknown").unwrap(), BookFormat::Unknown);
    assert_eq!(BookFormat::try_from("ebook").unwrap_err().to_string(), "ebook is not valid format");
    assert_eq!(BookStore::try_from("Kindle").unwrap(), BookStore::Kindle);
    assert_eq!(BookStore::try_from("Unknown").unwrap(), BookStore::Unknown);
    assert_eq!(BookStore::try_from("").unwrap_err().to_string(), " is not valid store");
    assert_eq!(parse_book_format("Printed").unwrap(), BookFormat::Printed);
    match parse_book_format("Kindle") {
        Err(DomainError::Validation(text)) => assert_eq!(text, "Kindle is not valid format"),
        other => panic!("unexpected outcome {:?}", other),
    }
    match parse_book_store("eBook") {
        Err(DomainError::Validation(text)) => assert_eq!(text, "eBook is not valid store"),
        other => panic!("unexpected outcome {:?}", other),
    }
    for format in [BookFormat::EBook, BookFormat::Printed, BookFormat::Unknown] {
        assert_eq!(BookFormat::try_from(format.to_string().as_str()).unwrap(), format);
    }
    for store in [BookStore::Kindle, BookStore::Unknown] {
        assert_eq!(BookStore::try_from(store.to_string().as_str()).unwrap(), store);
    }
}

#[test]
fn identifiers_are_read_and_written() {
    let text = "e324be11-5b77-4ba6-8423-9f27e2d228f1";
    let value: u128 = 0xe324be11_5b77_4ba6_8423_9f27e2d228f1;
    let id = BookId::try_from(text).unwrap();
    assert_eq!(id.to_uuid(), value);
    assert_eq!(id.to_string(), text);
    assert_eq!(BookId::new(value).unwrap().to_string(), text);
    assert_eq!(AuthorId::new(value).to_string(), text);
    assert_eq!(AuthorId::from(value).to_uuid(), value);
    assert_eq!(AuthorId::try_from("E324BE115B774BA684239F27E2D228F1").unwrap().to_uuid(), value);
    assert_eq!(AuthorId::new(0).to_string(), "00000000-0000-0000-0000-000000000000");
    for value in [0u128, 1, u128::MAX, 0x0123456789abcdef_0123456789abcdef] {
        assert_eq!(AuthorId::try_from(AuthorId::new(value).to_string().as_str()).unwrap().to_uuid(), value);
    }
}

#[test]
fn text_that_is_no_uuid_is_rejected_with_its_text() {
    match AuthorId::try_from("not-a-uuid") {
        Err(DomainError::Validation(text)) => {
            assert!(text.starts_with("Failed to parse id \"not-a-uuid\" as uuid. Message from uuid crate: "));
            assert!(text.len() > "Failed to parse id \"not-a-uuid\" as uuid. Message from uuid crate: ".len());
        }
        other => panic!("unexpected outcome {:?}", other),
    }
    assert!(matches!(BookId::try_from(""), Err(DomainError::Validation(_))));
}

#[test]
fn domain_errors_have_their_text() {
    assert_eq!(DomainError::Validation("v".to_string()).to_string(), "v");
    assert_eq!(DomainError::InfrastructureError("i".to_string()).to_string(), "i");
    assert_eq!(DomainError::Unexpected("u".to_string()).to_string(), "u");
    let missing = DomainError::NotFound { entity_type: "book", entity_id: "b1".to_string(), user_id: "u1".to_string() };
    assert_eq!(missing.to_string(), "book was not found for entity_id \"b1\" and user_id \"u1\".");
}

fn sample_book() -> Book {
    Book::new(
        BookId::new(7).unwrap(),
        BookTitle::new("title".to_string()).unwrap(),
        vec![AuthorId::new(1), AuthorId::new(2)],
        Isbn::new("9784062758574".to_string()).unwrap(),
        ReadFlag::new(false),
        OwnedFlag::new(true),
        Priority::new(50).unwrap(),
        BookFormat::EBook,
        BookStore::Kindle,
        time::OffsetDateTime::UNIX_EPOCH,
        time::OffsetDateTime::UNIX_EPOCH + time::Duration::seconds(5),
    )
    .unwrap()
}

#[test]
fn book_keeps_its_parts() {
    let book = sample_book();
    assert_eq!(book.id().to_uuid(), 7);
    assert_eq!(book.title().as_str(), "title");
    assert_eq!(book.author_ids().len(), 2);
    assert_eq!(book.author_ids()[1].to_uuid(), 2);
    assert_eq!(book.isbn().as_str(), "9784062758574");
    assert!(!book.read().to_bool());
    assert!(book.owned().to_bool());
    assert_eq!(book.priority().to_i32(), 50);
    assert_eq!(*book.format(), BookFormat::EBook);
    assert_eq!(*book.store(), BookStore::Kindle);
    assert_eq!(book.created_at().unix_timestamp(), 0);
    assert_eq!(book.updated_at().unix_timestamp(), 5);
    let parts = book.destructure();
    assert_eq!(parts.id.to_uuid(), 7);
    assert_eq!(parts.title.as_str(), "title");
    assert_eq!(parts.updated_at.unix_timestamp(), 5);
}

#[test]
fn book_setters_change_one_part() {
    let mut book = sample_book();
    book.set_title(BookTitle::new("other".to_string()).unwrap());
    assert_eq!(book.title().as_str(), "other");
    assert_eq!(book.isbn().as_str(), "9784062758574");
    book.set_author_ids(vec![AuthorId::new(9)]);
    assert_eq!(book.author_ids().len(), 1);
    book.set_isbn(Isbn::new(String::new()).unwrap());
    assert_eq!(book.isbn().as_str(), "");
    book.set_read(ReadFlag::new(true));
    book.set_owned(OwnedFlag::new(false));
    book.set_priority(Priority::new(1).unwrap());
    book.set_format(BookFormat::Printed);
    book.set_store(BookStore::Unknown);
    book.set_created_at(time::OffsetDateTime::UNIX_EPOCH + time::Duration::seconds(1));
    book.set_updated_at(time::OffsetDateTime::UNIX_EPOCH + time::Duration::seconds(2));
    assert!(book.read().to_bool());
    assert!(!book.owned().to_bool());
    assert_eq!(book.priority().to_i32(), 1);
    assert_eq!(*book.format(), BookFormat::Printed);
    assert_eq!(*book.store(), BookStore::Unknown);
    assert_eq!(book.created_at().unix_timestamp(), 1);
    assert_eq!(book.updated_at().unix_timestamp(), 2);
    assert_eq!(book.id().to_uuid(), 7);
    assert_eq!(book.title().as_str(), "other");
}

#[test]
fn author_keeps_its_parts() {
    let author = Author::new(AuthorId::new(3), AuthorName::new("author1".to_string()).unwrap()).unwrap();
    assert_eq!(author.id().to_uuid(), 3);
    assert_eq!(author.name().as_str(), "author1");
    let parts = author.destructure();
    assert_eq!(parts.id.to_uuid(), 3);
    assert_eq!(parts.name.into_string(), "author1");
}
