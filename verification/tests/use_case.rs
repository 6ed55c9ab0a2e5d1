use bookshelf_api::common::types::{BookFormat, BookStore};
use bookshelf_api::domain::entity::author::{Author, AuthorId, AuthorName};
use bookshelf_api::domain::entity::book::{Book, BookId};
use bookshelf_api::domain::entity::user::{User, UserId};
use bookshelf_api::domain::error::DomainError;
use bookshelf_api::import::{book_from_backup, read_format, read_store, BackupBook};
use bookshelf_api::infrastructure::author_repository::{author_from_row, author_id_values, AuthorRow};
use bookshelf_api::infrastructure::book_repository::{
    author_ids_of_row, book_from_row, check_rows_affected, BookRow,
};
use bookshelf_api::infrastructure::user_repository::user_from_row;
use bookshelf_api::presentation::error::PresentationalError;
use bookshelf_api::use_case::dto::author::{AuthorDto, CreateAuthorDto};
use bookshelf_api::use_case::dto::book::{
    author_ids_to_strings, parse_author_ids, BookDto, CreateBookDto, TimeInfo, UpdateBookDto,
};
use bookshelf_api::use_case::dto::user::UserDto;
use bookshelf_api::use_case::error::{lift, UseCaseError};
use bookshelf_api::use_case::interactor::author::CreateAuthorInteractor;
use bookshelf_api::use_case::interactor::book::{CreateBookInteractor, UpdateBookInteractor};
use bookshelf_api::use_case::interactor::mutation::MutationInteractor;
use bookshelf_api::use_case::interactor::query::{
    author_to_find, authors_to_find, found_author, found_authors, found_books, found_user,
    QueryInteractor,
};
use bookshelf_api::use_case::interactor::user::{parse_user_id, RegisterUserInteractor};

const AUTHOR_1: &str = "e324be11-5b77-4ba6-8423-9f27e2d228f1";

const AUTHOR_2: &str = "e9700384-6217-4152-88c0-7ba38aeee73a";

fn epoch_plus(seconds: i64) -> time::OffsetDateTime {
    time::OffsetDateTime::UNIX_EPOCH + time::Duration::seconds(seconds)
}

fn create_dto() -> CreateBookDto {
    CreateBookDto::new(
        "title".to_string(),
        vec![AUTHOR_1.to_string(), AUTHOR_2.to_string()],
        "978-4062758574".to_string(),
        true,
        false,
        30,
        BookFormat::Printed,
        BookStore::Unknown,
    )
}

fn update_dto(id: &str) -> UpdateBookDto {
    UpdateBookDto::new(
        id.to_string(),
        "another_title".to_string(),
        vec![AUTHOR_2.to_string()],
        "".to_string(),
        false,
        true,
        100,
        BookFormat::EBook,
        BookStore::Kindle,
    )
}

fn validation_text(error: UseCaseError) -> String {
    match error {
        UseCaseError::Validation(text) => text,
        other => panic!("unexpected error {:?}", other),
    }
}

#[test]
fn new_book_is_built_from_what_was_sent() {
    let book = Book::try_from((11, create_dto(), TimeInfo::new(epoch_plus(1), epoch_plus(2)))).unwrap();
    assert_eq!(book.id().to_uuid(), 11);
    assert_eq!(book.title().as_str(), "title");
    assert_eq!(book.author_ids().len(), 2);
    assert_eq!(book.author_ids()[0].to_string(), AUTHOR_1);
    assert_eq!(book.author_ids()[1].to_string(), AUTHOR_2);
    assert_eq!(book.isbn().as_str(), "978-4062758574");
    assert!(book.read().to_bool());
    assert!(!book.owned().to_bool());
    assert_eq!(book.priority().to_i32(), 30);
    assert_eq!(*book.format(), BookFormat::Printed);
    assert_eq!(*book.store(), BookStore::Unknown);
    assert_eq!(book.created_at().unix_timestamp(), 1);
    assert_eq!(book.updated_at().unix_timestamp(), 2);
}

#[test]
fn new_book_is_rejected_for_its_first_fault() {
    let times = || TimeInfo::new(epoch_plus(0), epoch_plus(0));
    let mut all_bad = create_dto();
    all_bad.author_ids = vec![AUTHOR_1.to_string(), "x".to_string(), "y".to_string()];
    all_bad.title = String::new();
    all_bad.isbn = "1".to_string();
    all_bad.priority = 101;
    let text = validation_text(Book::try_from((1, all_bad.clone(), times())).unwrap_err());
    assert!(text.starts_with("Failed to parse id \"x\" as uuid."));
    all_bad.author_ids = vec![];
    assert_eq!(validation_text(Book::try_from((1, all_bad.clone(), times())).unwrap_err()), "value: Validation error: length");
    all_bad.title = "t".to_string();
    assert_eq!(validation_text(Book::try_from((1, all_bad.clone(), times())).unwrap_err()), "value: Validation error: regex");
    all_bad.isbn = String::new();
    assert_eq!(validation_text(Book::try_from((1, all_bad.clone(), times())).unwrap_err()), "value: Validation error: range");
    all_bad.priority = 0;
    assert!(Book::try_from((1, all_bad, times())).is_ok());
}

#[test]
fn book_to_create_examines_the_user_first() {
    let times = || TimeInfo::new(epoch_plus(0), epoch_plus(0));
    let mut bad = create_dto();
    bad.title = String::new();
    let error = CreateBookInteractor::<()>::book_to_create("", 1, bad.clone(), times()).unwrap_err();
    assert_eq!(validation_text(error), "value: Validation error: length");
    assert!(CreateBookInteractor::<()>::book_to_create("user1", 1, bad, times()).is_err());
    let (user, book) = CreateBookInteractor::<()>::book_to_create("user1", 5, create_dto(), times()).unwrap();
    assert_eq!(user.as_str(), "user1");
    assert_eq!(book.id().to_uuid(), 5);
}

#[test]
fn book_to_find_reads_both_identifiers() {
    let (user, book) = UpdateBookInteractor::<()>::book_to_find("user1", AUTHOR_1).unwrap();
    assert_eq!(user.as_str(), "user1");
    assert_eq!(book.to_string(), AUTHOR_1);
    assert_eq!(validation_text(UpdateBookInteractor::<()>::book_to_find("", "x").unwrap_err()), "value: Validation error: length");
    assert!(validation_text(UpdateBookInteractor::<()>::book_to_find("user1", "x").unwrap_err()).starts_with("Failed to parse id \"x\""));
}

#[test]
fn updated_book_keeps_identifier_and_times() {
    let old = Book::try_from((11, create_dto(), TimeInfo::new(epoch_plus(1), epoch_plus(2)))).unwrap();
    let user = UserId::new("user1".to_string()).unwrap();
    let book = UpdateBookInteractor::<()>::updated_book(Some(old), user, update_dto("ignored")).unwrap();
    assert_eq!(book.id().to_uuid(), 11);
    assert_eq!(book.title().as_str(), "another_title");
    assert_eq!(book.author_ids().len(), 1);
    assert_eq!(book.author_ids()[0].to_string(), AUTHOR_2);
    assert_eq!(book.isbn().as_str(), "");
    assert!(!book.read().to_bool());
    assert!(book.owned().to_bool());
    assert_eq!(book.priority().to_i32(), 100);
    assert_eq!(*book.format(), BookFormat::EBook);
    assert_eq!(*book.store(), BookStore::Kindle);
    assert_eq!(book.created_at().unix_timestamp(), 1);
    assert_eq!(book.updated_at().unix_timestamp(), 2);
}

#[test]
fn book_that_was_not_found_is_reported() {
    let user = UserId::new("user1".to_string()).unwrap();
    let mut dto = update_dto("e30ce456-d34a-4c42-831c-b08d5f9ed81f");
    dto.title = String::new();
    let error = UpdateBookInteractor::<()>::updated_book(None, user, dto).unwrap_err();
    match &error {
        UseCaseError::NotFound { entity_type, entity_id, user_id } => {
            assert_eq!(*entity_type, "book");
            assert_eq!(entity_id, "e30ce456-d34a-4c42-831c-b08d5f9ed81f");
            assert_eq!(user_id, "user1");
        }
        other => panic!("unexpected error {:?}", other),
    }
    assert_eq!(
        error.to_string(),
        "book was not found for entity_id \"e30ce456-d34a-4c42-831c-b08d5f9ed81f\" and user_id \"user1\"."
    );
}

#[test]
fn update_examines_the_title_before_the_authors() {
    let old = || Some(Book::try_from((11, create_dto(), TimeInfo::new(epoch_plus(1), epoch_plus(2)))).unwrap());
    let user = || UserId::new("user1".to_string()).unwrap();
    let mut dto = update_dto("id");
    dto.title = String::new();
    dto.author_ids = vec!["x".to_string()];
    dto.isbn = "1".to_string();
    dto.priority = -1;
    assert_eq!(validation_text(UpdateBookInteractor::<()>::updated_book(old(), user(), dto.clone()).unwrap_err()), "value: Validation error: length");
    dto.title = "t".to_string();
    assert!(validation_text(UpdateBookInteractor::<()>::updated_book(old(), user(), dto.clone()).unwrap_err()).starts_with("Failed to parse id \"x\""));
    dto.author_ids = vec![];
    assert_eq!(validation_text(UpdateBookInteractor::<()>::updated_book(old(), user(), dto.clone()).unwrap_err()), "value: Validation error: regex");
    dto.isbn = "9784062758574".to_string();
    assert_eq!(validation_text(UpdateBookInteractor::<()>::updated_book(old(), user(), dto).unwrap_err()), "value: Validation error: range");
}

#[test]
fn author_to_create_examines_user_then_name() {
    let (user, author) = CreateAuthorInteractor::<()>::author_to_create("user1", 9, CreateAuthorDto::new("author1".to_string())).unwrap();
    assert_eq!(user.as_str(), "user1");
    assert_eq!(author.id().to_uuid(), 9);
    assert_eq!(author.name().as_str(), "author1");
    assert!(CreateAuthorInteractor::<()>::author_to_create("", 9, CreateAuthorDto::new("author1".to_string())).is_err());
    assert!(CreateAuthorInteractor::<()>::author_to_create("user1", 9, CreateAuthorDto::new(String::new())).is_err());
}

#[test]
fn user_to_register_is_the_given_user() {
    let user = RegisterUserInteractor::<()>::user_to_register("foo").unwrap();
    assert_eq!(user.id.as_str(), "foo");
    assert_eq!(RegisterUserInteractor::<()>::registered(user).id, "foo");
    assert_eq!(validation_text(RegisterUserInteractor::<()>::user_to_register("").unwrap_err()), "value: Validation error: length");
    assert_eq!(parse_user_id("u").unwrap().as_str(), "u");
}

#[test]
fn interactors_hold_what_they_are_given() {
    assert_eq!(*CreateBookInteractor::new(1u8).book_repository(), 1);
    assert_eq!(*UpdateBookInteractor::new(2u8).book_repository(), 2);
    assert_eq!(*CreateAuthorInteractor::new(3u8).author_repository(), 3);
    assert_eq!(*RegisterUserInteractor::new(4u8).user_repository(), 4);
    let mutation = MutationInteractor::new(1u8, 2u16, 3u32, 4u64, "five");
    assert_eq!(*mutation.register_user_use_case(), 1);
    assert_eq!(*mutation.create_book_use_case(), 2);
    assert_eq!(*mutation.update_book_use_case(), 3);
    assert_eq!(*mutation.delete_book_use_case(), 4);
    assert_eq!(*mutation.create_author_use_case(), "five");
    let query = QueryInteractor { user_repository: 1u8, book_repository: 2u8, author_repository: 3u8 };
    assert_eq!(query.author_repository, 3);
}

#[test]
fn find_author_by_id() {
    let user_id = "user1";
    let author_id = "006099b4-6c42-4ec4-8645-f6bd5b63eddc";
    let author_name = "author1";

    let (_, parsed) = author_to_find(user_id, author_id).unwrap();
    let stored = Author::new(parsed, AuthorName::new(author_name.to_string()).unwrap()).unwrap();

    let actual = found_author(Some(stored)).unwrap();

    assert_eq!(actual.id, author_id);
    assert_eq!(actual.name, author_name);
}

#[test]
fn queries_read_their_identifiers() {
    assert!(author_to_find("", AUTHOR_1).is_err());
    assert!(author_to_find("user1", "nope").is_err());
    let (user, ids) = authors_to_find("user1", &vec![AUTHOR_1.to_string(), AUTHOR_2.to_string()]).unwrap();
    assert_eq!(user.as_str(), "user1");
    assert_eq!(ids.len(), 2);
    assert_eq!(ids[1].to_string(), AUTHOR_2);
    assert!(authors_to_find("user1", &vec![AUTHOR_1.to_string(), "nope".to_string()]).is_err());
    assert!(authors_to_find("", &vec![]).is_err());
    assert!(found_author(None).is_none());
    assert!(found_user(None).is_none());
    assert_eq!(found_user(Some(User::new(UserId::new("u".to_string()).unwrap()))).unwrap().id, "u");
}

#[test]
fn lists_are_handed_out_in_order() {
    let a = Author::new(AuthorId::new(1), AuthorName::new("a".to_string()).unwrap()).unwrap();
    let b = Author::new(AuthorId::new(2), AuthorName::new("b".to_string()).unwrap()).unwrap();
    let dtos = found_authors(&vec![a, b]);
    assert_eq!(dtos.len(), 2);
    assert_eq!(dtos[0].name, "a");
    assert_eq!(dtos[1].id, "00000000-0000-0000-0000-000000000002");
    let book = Book::try_from((11, create_dto(), TimeInfo::new(epoch_plus(1), epoch_plus(2)))).unwrap();
    let books = found_books(&vec![book.clone(), book]);
    assert_eq!(books.len(), 2);
    assert_eq!(books[1].title, "title");
    assert!(found_books(&vec![]).is_empty());
}

#[test]
fn book_dto_holds_plain_values() {
    let book = Book::try_from((11, create_dto(), TimeInfo::new(epoch_plus(1), epoch_plus(2)))).unwrap();
    let dto = BookDto::from(book.clone());
    assert_eq!(dto.id, "00000000-0000-0000-0000-00000000000b");
    assert_eq!(dto.title, "title");
    assert_eq!(dto.author_ids, vec![AUTHOR_1.to_string(), AUTHOR_2.to_string()]);
    assert_eq!(dto.isbn, "978-4062758574");
    assert!(dto.read);
    assert!(!dto.owned);
    assert_eq!(dto.priority, 30);
    assert_eq!(dto.format, BookFormat::Printed);
    assert_eq!(dto.store, BookStore::Unknown);
    assert_eq!(dto.created_at.unix_timestamp(), 1);
    assert_eq!(dto.updated_at.unix_timestamp(), 2);
    assert_eq!(BookDto::of(&book).id, dto.id);
}

#[test]
fn other_dtos_hold_plain_values() {
    let author = Author::new(AuthorId::try_from(AUTHOR_1).unwrap(), AuthorName::new("author1".to_string()).unwrap()).unwrap();
    assert_eq!(AuthorDto::of(&author).id, AUTHOR_1);
    let dto = AuthorDto::from(author);
    assert_eq!(dto.id, AUTHOR_1);
    assert_eq!(dto.name, "author1");
    assert_eq!(UserDto::new("u".to_string()).id, "u");
    assert_eq!(UserDto::from(User::new(UserId::new("v".to_string()).unwrap())).id, "v");
    assert_eq!(CreateAuthorDto::new("n".to_string()).name, "n");
    let update = update_dto("id");
    assert_eq!(update.id, "id");
    assert_eq!(update.priority, 100);
}

#[test]
fn author_ids_are_read_and_written_in_order() {
    let ids = parse_author_ids(&vec![AUTHOR_2.to_string(), AUTHOR_1.to_string()]).unwrap();
    assert_eq!(author_ids_to_strings(&ids), vec![AUTHOR_2.to_string(), AUTHOR_1.to_string()]);
    assert!(parse_author_ids(&vec![]).unwrap().is_empty());
    match parse_author_ids(&vec![AUTHOR_1.to_string(), "a".to_string(), "b".to_string()]) {
        Err(DomainError::Validation(text)) => assert!(text.starts_with("Failed to parse id \"a\"")),
        other => panic!("unexpected outcome {:?}", other),
    }
}

#[test]
fn errors_are_lifted_kind_by_kind() {
    assert!(matches!(UseCaseError::from(DomainError::Validation("v".to_string())), UseCaseError::Validation(text) if text == "v"));
    assert!(matches!(UseCaseError::from(DomainError::InfrastructureError("i".to_string())), UseCaseError::Other(text) if text == "i"));
    assert!(matches!(lift(DomainError::Unexpected("u".to_string())), UseCaseError::Unexpected(text) if text == "u"));
    let missing = DomainError::NotFound { entity_type: "book", entity_id: "b".to_string(), user_id: "u".to_string() };
    let lifted = UseCaseError::from(missing);
    assert_eq!(lifted.to_string(), "book was not found for entity_id \"b\" and user_id \"u\".");
    assert!(matches!(PresentationalError::from(lifted), PresentationalError::NotFound(text) if text == "book was not found for entity_id \"b\" and user_id \"u\"."));
    assert!(matches!(PresentationalError::from(UseCaseError::Validation("v".to_string())), PresentationalError::Validation(text) if text == "v"));
    assert!(matches!(PresentationalError::from(UseCaseError::Other("o".to_string())), PresentationalError::OtherError(text) if text == "o"));
    let shown = PresentationalError::from(UseCaseError::Unexpected("x".to_string()));
    assert_eq!(shown.to_string(), "x");
    assert!(matches!(shown, PresentationalError::Unexpected(_)));
}

fn row() -> BookRow {
    BookRow {
        id: 21,
        title: "stored".to_string(),
        author_ids: Some(vec![4, 5]),
        isbn: "9784062758574".to_string(),
        read: true,
        owned: true,
        priority: 0,
        format: "eBook".to_string(),
        store: "Kindle".to_string(),
        created_at: epoch_plus(3),
        updated_at: epoch_plus(4),
    }
}

#[test]
fn stored_book_is_read_back() {
    let book = book_from_row(row()).unwrap();
    assert_eq!(book.id().to_uuid(), 21);
    assert_eq!(book.title().as_str(), "stored");
    assert_eq!(book.author_ids().len(), 2);
    assert_eq!(book.author_ids()[1].to_uuid(), 5);
    assert_eq!(*book.format(), BookFormat::EBook);
    assert_eq!(*book.store(), BookStore::Kindle);
    assert_eq!(book.created_at().unix_timestamp(), 3);
    assert_eq!(book.updated_at().unix_timestamp(), 4);
    let mut without_authors = row();
    without_authors.author_ids = None;
    assert!(book_from_row(without_authors).unwrap().author_ids().is_empty());
    assert!(author_ids_of_row(None).is_empty());
}

#[test]
fn stored_book_is_refused_for_its_first_fault() {
    let text = |row: BookRow| match book_from_row(row) {
        Err(DomainError::Validation(text)) => text,
        other => panic!("unexpected outcome {:?}", other),
    };
    let mut bad = row();
    bad.title = String::new();
    bad.isbn = "x".to_string();
    bad.priority = 200;
    bad.format = "Paper".to_string();
    bad.store = "Shop".to_string();
    assert_eq!(text(bad.clone()), "value: Validation error: length");
    bad.title = "t".to_string();
    assert_eq!(text(bad.clone()), "value: Validation error: regex");
    bad.isbn = String::new();
    assert_eq!(text(bad.clone()), "value: Validation error: range");
    bad.priority = 100;
    assert_eq!(text(bad.clone()), "Paper is not valid format");
    bad.format = "Unknown".to_string();
    assert_eq!(text(bad.clone()), "Shop is not valid store");
    bad.store = "Unknown".to_string();
    assert!(book_from_row(bad).is_ok());
}

#[test]
fn rows_affected_decide_the_outcome() {
    let id = BookId::try_from(AUTHOR_1).unwrap();
    assert!(check_rows_affected(1, &id, "user1").is_ok());
    match check_rows_affected(0, &id, "user1") {
        Err(DomainError::NotFound { entity_type, entity_id, user_id }) => {
            assert_eq!(entity_type, "book");
            assert_eq!(entity_id, AUTHOR_1);
            assert_eq!(user_id, "user1");
        }
        other => panic!("unexpected outcome {:?}", other),
    }
    for rows in [2, 3, u64::MAX] {
        match check_rows_affected(rows, &id, "user1") {
            Err(DomainError::Unexpected(text)) => assert_eq!(text, "rows_affected is greater than 1."),
            other => panic!("unexpected outcome {:?}", other),
        }
    }
}

#[test]
fn stored_author_and_user_are_read_back() {
    let author = author_from_row(AuthorRow { id: 8, name: "author1".to_string() }).unwrap();
    assert_eq!(author.id().to_uuid(), 8);
    assert_eq!(author.name().as_str(), "author1");
    assert!(matches!(author_from_row(AuthorRow { id: 8, name: String::new() }), Err(DomainError::Validation(_))));
    assert_eq!(author_id_values(&vec![AuthorId::new(2), AuthorId::new(1)]), vec![2, 1]);
    assert!(user_from_row(None).unwrap().is_none());
    assert_eq!(user_from_row(Some("foo".to_string())).unwrap().unwrap().id.as_str(), "foo");
    assert!(matches!(user_from_row(Some(String::new())), Err(DomainError::Validation(_))));
}

#[test]
fn exported_names_fall_back_to_unknown() {
    assert_eq!(read_format(&None), (BookFormat::Unknown, None));
    assert_eq!(read_format(&Some("Printed".to_string())), (BookFormat::Printed, None));
    assert_eq!(
        read_format(&Some("Paper".to_string())),
        (BookFormat::Unknown, Some("Paper is not valid format".to_string()))
    );
    assert_eq!(read_store(&None), (BookStore::Unknown, None));
    assert_eq!(read_store(&Some("Kindle".to_string())), (BookStore::Kindle, None));
    assert_eq!(
        read_store(&Some("Shop".to_string())),
        (BookStore::Unknown, Some("Shop is not valid store".to_string()))
    );
}

#[test]
fn exported_book_takes_defaults_for_missing_parts() {
    let bare = BackupBook {
        title: "t".to_string(),
        isbn: None,
        read: None,
        owned: None,
        priority: None,
        format: None,
        store: None,
    };
    let book = book_from_backup(3, bare.clone(), vec![AuthorId::new(1)], BookFormat::Unknown, BookStore::Unknown, epoch_plus(1), epoch_plus(2)).unwrap();
    assert_eq!(book.id().to_uuid(), 3);
    assert_eq!(book.title().as_str(), "t");
    assert_eq!(book.author_ids().len(), 1);
    assert_eq!(book.isbn().as_str(), "");
    assert!(!book.read().to_bool());
    assert!(!book.owned().to_bool());
    assert_eq!(book.priority().to_i32(), 50);
    assert_eq!(book.created_at().unix_timestamp(), 1);
    assert_eq!(book.updated_at().unix_timestamp(), 2);
    let full = BackupBook {
        title: "t".to_string(),
        isbn: Some("9784062758574".to_string()),
        read: Some(true),
        owned: Some(true),
        priority: Some(7),
        format: Some("eBook".to_string()),
        store: Some("Kindle".to_string()),
    };
    let book = book_from_backup(3, full.clone(), vec![], BookFormat::EBook, BookStore::Kindle, epoch_plus(1), epoch_plus(2)).unwrap();
    assert_eq!(book.isbn().as_str(), "9784062758574");
    assert!(book.read().to_bool());
    assert!(book.owned().to_bool());
    assert_eq!(book.priority().to_i32(), 7);
    assert_eq!(*book.format(), BookFormat::EBook);
    assert_eq!(*book.store(), BookStore::Kindle);
    let mut bad = full;
    bad.title = String::new();
    bad.isbn = Some("1".to_string());
    bad.priority = Some(101);
    let text = |book: BackupBook| match book_from_backup(3, book, vec![], BookFormat::Unknown, BookStore::Unknown, epoch_plus(1), epoch_plus(2)) {
        Err(DomainError::Validation(text)) => text,
        other => panic!("unexpected outcome {:?}", other),
    };
    assert_eq!(text(bad.clone()), "value: Validation error: length");
    bad.title = "t".to_string();
    assert_eq!(text(bad.clone()), "value: Validation error: regex");
    bad.isbn = None;
    assert_eq!(text(bad), "value: Validation error: range");
}
