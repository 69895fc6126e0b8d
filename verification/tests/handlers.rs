use bookstore::book::{Book, BookRequest};
use bookstore::error::Error;
use bookstore::handler::{
    access, books_list_handler, create_book_handler, delete_book_handler, do_edit_book_handler,
    edit_book_handler, DB,
};
use std::sync::{PoisonError, RwLock};

fn form(name: &str, author: &str, language: &str, pages: i32) -> BookRequest {
    BookRequest {
        name: name.to_string(),
        author: author.to_string(),
        language: language.to_string(),
        pages,
    }
}

fn names(books: &[Book]) -> Vec<String> {
    books.iter().map(|b| b.name.clone()).collect()
}

#[test]
fn a_new_db_lists_nothing() {
    let db = DB::new();
    assert!(books_list_handler(&db).unwrap().is_empty());
}

#[test]
fn handlers_run_the_dune_scenario() {
    let db = DB::new();
    let books = create_book_handler(form("Dune", "Herbert", "English", 412), &db).unwrap();
    assert_eq!(books.len(), 1);
    assert_eq!(books[0].name, "Dune");
    assert_eq!(books[0].author, "Herbert");
    assert_eq!(books[0].language, "English");
    assert_eq!(books[0].pages, 412);
    assert_eq!(books[0].id.len(), 36);
    let id = books[0].id.clone();
    let added_at = books[0].added_at;

    let listed = books_list_handler(&db).unwrap();
    assert_eq!(listed.len(), 1);
    assert_eq!(listed[0].id, id);

    let found = edit_book_handler(id.clone(), &db).unwrap();
    assert_eq!(found.id, id);
    assert_eq!(found.author, "Herbert");
    assert_eq!(found.added_at, added_at);

    let books =
        do_edit_book_handler(id.clone(), form("Dune", "F. Herbert", "English", 412), &db).unwrap();
    assert_eq!(books.len(), 1);
    assert_eq!(books[0].id, id);
    assert_eq!(books[0].author, "F. Herbert");
    assert_eq!(books[0].added_at, added_at);
    assert_eq!(books_list_handler(&db).unwrap()[0].author, "F. Herbert");

    let books = delete_book_handler(id.clone(), &db).unwrap();
    assert!(books.is_empty());
    assert!(books_list_handler(&db).unwrap().is_empty());
}

#[test]
fn handlers_report_an_unknown_id() {
    let db = DB::new();
    create_book_handler(form("Dune", "Herbert", "English", 412), &db).unwrap();
    let unknown = "00000000-0000-4000-8000-000000000000".to_string();
    assert!(matches!(edit_book_handler(unknown.clone(), &db), Err(Error::BookNotFoundError)));
    assert!(matches!(
        do_edit_book_handler(unknown.clone(), form("a", "b", "c", 1), &db),
        Err(Error::BookNotFoundError)
    ));
    assert!(matches!(delete_book_handler(unknown, &db), Err(Error::BookNotFoundError)));
    assert_eq!(names(&books_list_handler(&db).unwrap()), vec!["Dune"]);
}

#[test]
fn handlers_keep_creation_order_across_a_delete() {
    let db = DB::new();
    let a = create_book_handler(form("a", "x", "l", 1), &db).unwrap()[0].id.clone();
    let books = create_book_handler(form("b", "y", "l", 2), &db).unwrap();
    assert_eq!(names(&books), vec!["a", "b"]);
    let b = books[1].id.clone();
    assert_ne!(a, b);
    create_book_handler(form("c", "z", "l", 3), &db).unwrap();
    let books = delete_book_handler(a, &db).unwrap();
    assert_eq!(names(&books), vec!["b", "c"]);
    assert_eq!(books[0].id, b);
    assert_eq!(names(&books_list_handler(&db).unwrap()), vec!["b", "c"]);
}

#[test]
fn clones_of_a_db_share_one_store() {
    let db = DB::new();
    let other = db.clone();
    let id = create_book_handler(form("Dune", "Herbert", "English", 412), &db).unwrap()[0]
        .id
        .clone();
    assert_eq!(names(&books_list_handler(&other).unwrap()), vec!["Dune"]);
    delete_book_handler(id, &other).unwrap();
    assert!(books_list_handler(&db).unwrap().is_empty());
}

#[test]
fn separate_dbs_do_not_share() {
    let one = DB::new();
    let two = DB::new();
    create_book_handler(form("Dune", "Herbert", "English", 412), &one).unwrap();
    assert!(books_list_handler(&two).unwrap().is_empty());
    assert_eq!(books_list_handler(&one).unwrap().len(), 1);
}

#[test]
fn repeated_lists_return_the_same_snapshot() {
    let db = DB::new();
    create_book_handler(form("a", "x", "l", 1), &db).unwrap();
    create_book_handler(form("b", "y", "l", 2), &db).unwrap();
    let first = books_list_handler(&db).unwrap();
    for _ in 0..10 {
        let again = books_list_handler(&db).unwrap();
        assert_eq!(again.len(), first.len());
        for (x, y) in again.iter().zip(first.iter()) {
            assert_eq!(x.id, y.id);
            assert_eq!(x.name, y.name);
            assert_eq!(x.author, y.author);
            assert_eq!(x.language, y.language);
            assert_eq!(x.pages, y.pages);
            assert_eq!(x.added_at, y.added_at);
        }
    }
}

#[test]
fn a_lock_that_was_taken_gives_its_guard() {
    let lock = RwLock::new(5);
    {
        let guard = access(lock.read()).unwrap();
        assert_eq!(*guard, 5);
    }
    {
        let mut guard = access(lock.write()).unwrap();
        *guard = 6;
    }
    assert_eq!(*access(lock.read()).unwrap(), 6);
}

#[test]
fn a_poisoned_lock_is_a_db_access_error() {
    let lock = RwLock::new(5);
    let poisoned = Err(PoisonError::new(lock.write().unwrap()));
    assert!(matches!(access(poisoned), Err(Error::DBAccessError)));
    let held: Result<u8, Error> = access(Err(PoisonError::new(7)));
    assert!(matches!(held, Err(Error::DBAccessError)));
}

#[test]
fn the_library_paths_of_the_types_agree() {
    let book: bookstore::Book = bookstore::book::Book {
        id: "id".to_string(),
        name: "Dune".to_string(),
        author: "Herbert".to_string(),
        language: "English".to_string(),
        pages: 412,
        added_at: bookstore::book::Timestamp { secs: 0, nanos: 0 },
    };
    assert_eq!(book.name, "Dune");
    let body: bookstore::handler::BookRequest = form("a", "b", "c", 1);
    let db: bookstore::DB = DB::new();
    assert_eq!(create_book_handler(body, &db).unwrap().len(), 1);
}
