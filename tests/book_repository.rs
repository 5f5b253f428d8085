use adapter::model::{map_optional_row, map_rows};
use adapter::error::translate_error;
use adapter::{
    AppError, Book, BookId, BookRepositoryImpl, BookRow, CreateBook, InMemoryBookRepository,
    StorageError,
};

fn command(title: &str, author: &str, isbn: &str, description: &str) -> CreateBook {
    CreateBook {
        title: title.into(),
        author: author.into(),
        isbn: isbn.into(),
        description: description.into(),
    }
}

fn row(id: u128, title: &str) -> BookRow {
    BookRow {
        book_id: BookId(id),
        title: title.into(),
        author: format!("{} author", title),
        isbn: format!("{} isbn", title),
        description: format!("{} description", title),
    }
}

fn failure(message: &str) -> StorageError {
    StorageError::new(message.to_string())
}

#[test]
fn test_register_book() {
    let mut repo = InMemoryBookRepository::new();

    let book = CreateBook {
        title: "Test Title".into(),
        author: "Test Author".into(),
        isbn: "Test ISBN".into(),
        description: "Test Description".into(),
    };

    assert!(repo.create(book).is_ok());

    let res = repo.find_all().unwrap();
    assert_eq!(res.len(), 1);

    let book_id = res[0].id;
    let res = repo.find_by_id(book_id).unwrap();
    assert!(res.is_some());

    let Book { id, title, author, isbn, description } = res.unwrap();
    assert_eq!(id, book_id);
    assert_eq!(title, "Test Title");
    assert_eq!(author, "Test Author");
    assert_eq!(isbn, "Test ISBN");
    assert_eq!(description, "Test Description");
}

#[test]
fn create_adds_exactly_one_book_with_the_command_texts() {
    let mut repo = InMemoryBookRepository::new();
    repo.create(command("First", "A", "1", "d1")).unwrap();
    let before = repo.find_all().unwrap();
    repo.create(command("Second", "", "978-4-00", "")).unwrap();
    let after = repo.find_all().unwrap();
    assert_eq!(after.len(), before.len() + 1);
    assert_eq!(after[0].title, "Second");
    assert_eq!(after[0].author, "");
    assert_eq!(after[0].isbn, "978-4-00");
    assert_eq!(after[0].description, "");
    assert_eq!(&after[1..], &before[..]);
}

#[test]
fn every_listed_book_is_found_by_its_id() {
    let mut repo = InMemoryBookRepository::new();
    for title in ["a", "b", "c"] {
        repo.create(command(title, "x", "y", "z")).unwrap();
    }
    let all = repo.find_all().unwrap();
    assert_eq!(all.len(), 3);
    for book in &all {
        assert_eq!(repo.find_by_id(book.id).unwrap(), Some(book.duplicate()));
    }
}

#[test]
fn unknown_id_is_absent_not_an_error() {
    let mut repo = InMemoryBookRepository::new();
    assert_eq!(repo.find_by_id(BookId(0)), Ok(None));
    repo.create(command("a", "b", "c", "d")).unwrap();
    let known = repo.find_all().unwrap()[0].id;
    let unknown = BookId(known.raw() + 1000);
    assert_eq!(repo.find_by_id(unknown), Ok(None));
    assert_eq!(repo.find_by_id(BookId(u128::MAX)), Ok(None));
}

#[test]
fn empty_store_lists_nothing() {
    let repo = InMemoryBookRepository::new();
    assert_eq!(repo.find_all(), Ok(Vec::new()));
}

#[test]
fn later_books_are_listed_first() {
    let mut repo = InMemoryBookRepository::new();
    repo.create(command("A", "a", "1", "")).unwrap();
    repo.create(command("B", "b", "2", "")).unwrap();
    repo.create(command("C", "c", "3", "")).unwrap();
    let titles: Vec<String> = repo.find_all().unwrap().into_iter().map(|b| b.title).collect();
    assert_eq!(titles, vec!["C", "B", "A"]);
}

#[test]
fn identifiers_are_distinct() {
    let mut repo = InMemoryBookRepository::new();
    repo.create(command("same", "same", "same", "same")).unwrap();
    repo.create(command("same", "same", "same", "same")).unwrap();
    let all = repo.find_all().unwrap();
    assert_eq!(all.len(), 2);
    assert_ne!(all[0].id, all[1].id);
    assert_eq!(all[0].title, all[1].title);
}

#[test]
fn row_maps_to_book_field_for_field() {
    let book = Book::from(row(42, "Rust"));
    assert_eq!(book.id, BookId(42));
    assert_eq!(book.title, "Rust");
    assert_eq!(book.author, "Rust author");
    assert_eq!(book.isbn, "Rust isbn");
    assert_eq!(book.description, "Rust description");
    assert_eq!(row(7, "x").to_book(), Book::from(row(7, "x")));
}

#[test]
fn rows_map_in_order() {
    let books = map_rows(vec![row(3, "c"), row(1, "a"), row(2, "b")]);
    let ids: Vec<u128> = books.iter().map(|b| b.id.raw()).collect();
    assert_eq!(ids, vec![3, 1, 2]);
    assert_eq!(books[1].title, "a");
    assert!(map_rows(Vec::new()).is_empty());
    assert_eq!(map_optional_row(None), None);
    assert_eq!(map_optional_row(Some(row(5, "e"))), Some(Book::from(row(5, "e"))));
}

#[test]
fn storage_failure_is_wrapped_with_its_cause() {
    assert_eq!(
        translate_error(failure("connection reset")),
        AppError::SpecificOperationError(failure("connection reset"))
    );
}

#[test]
fn finish_create_reports_success_and_failure() {
    let repo = BookRepositoryImpl::new(());
    assert_eq!(repo.finish_create(Ok(1)), Ok(()));
    assert_eq!(
        repo.finish_create(Err(failure("unique violation"))),
        Err(AppError::SpecificOperationError(failure("unique violation")))
    );
}

#[test]
fn finish_find_all_maps_rows_or_wraps_failure() {
    let repo = BookRepositoryImpl::new("pool");
    assert_eq!(*repo.db(), "pool");
    let books = repo.finish_find_all(Ok(vec![row(9, "new"), row(4, "old")])).unwrap();
    assert_eq!(books, vec![Book::from(row(9, "new")), Book::from(row(4, "old"))]);
    assert_eq!(repo.finish_find_all(Ok(Vec::new())), Ok(Vec::new()));
    assert_eq!(
        repo.finish_find_all(Err(failure("timeout"))),
        Err(AppError::SpecificOperationError(failure("timeout")))
    );
}

#[test]
fn finish_find_by_id_keeps_absence_apart_from_failure() {
    let repo = BookRepositoryImpl::new(0u8);
    assert_eq!(repo.finish_find_by_id(Ok(None)), Ok(None));
    assert_eq!(repo.finish_find_by_id(Ok(Some(row(1, "one")))), Ok(Some(Book::from(row(1, "one")))));
    assert_eq!(
        repo.finish_find_by_id(Err(failure("decode"))),
        Err(AppError::SpecificOperationError(failure("decode")))
    );
}
