use bookshelf::models::{Book, CreateBookDto, UpdateBookDto};
use bookshelf::storage::BookRepository;

fn create_dto(title: &str, author: &str) -> CreateBookDto {
    CreateBookDto {
        title: title.to_string(),
        author: author.to_string(),
        published_year: None,
        genre: None,
        isbn: None,
    }
}

fn empty_update() -> UpdateBookDto {
    UpdateBookDto {
        title: None,
        author: None,
        published_year: None,
        genre: None,
        isbn: None,
    }
}

#[test]
fn ids_strictly_increase_from_one() {
    let mut repo = BookRepository::new();
    let a = repo.create(create_dto("A", "aa"));
    let b = repo.create(create_dto("B", "bb"));
    let c = repo.create(create_dto("C", "cc"));
    assert_eq!(a.id, 1);
    assert_eq!(b.id, 2);
    assert_eq!(c.id, 3);
    assert!(repo.delete(2));
    let d = repo.create(create_dto("D", "dd"));
    assert_eq!(d.id, 4, "a deleted id must never be reassigned");
}

#[test]
fn get_by_id_returns_what_create_returned() {
    let mut repo = BookRepository::new();
    let created = repo.create(CreateBookDto {
        title: "The Dispossessed".to_string(),
        author: "Le Guin".to_string(),
        published_year: Some(1974),
        genre: Some("Science fiction".to_string()),
        isbn: Some("978-0061054884".to_string()),
    });
    let fetched = repo.get_by_id(created.id).expect("freshly created book must be found");
    assert_eq!(fetched, created);
}

#[test]
fn delete_then_lookup_and_second_delete_fail() {
    let mut repo = BookRepository::new();
    let book = repo.create(create_dto("Solaris", "Lem"));
    assert!(repo.delete(book.id));
    assert!(repo.get_by_id(book.id).is_none());
    assert!(!repo.delete(book.id));
}

#[test]
fn update_merges_asymmetrically() {
    let mut repo = BookRepository::new();
    let book = repo.create(CreateBookDto {
        title: "Old title".to_string(),
        author: "Y".to_string(),
        published_year: Some(1999),
        genre: Some("Mystery".to_string()),
        isbn: Some("1-56619-909-3".to_string()),
    });
    let updated = repo
        .update(book.id, UpdateBookDto {
            title: Some("X".to_string()),
            author: None,
            published_year: None,
            genre: None,
            isbn: None,
        })
        .expect("the book exists, so the update must succeed");
    assert_eq!(updated.title, "X", "a provided title overwrites");
    assert_eq!(updated.author, "Y", "an omitted author is preserved");
    assert_eq!(updated.published_year, None, "an omitted year is cleared");
    assert_eq!(updated.genre, None, "an omitted genre is cleared");
    assert_eq!(updated.isbn, None, "an omitted isbn is cleared");
    assert_eq!(updated.id, book.id);
    let stored = repo.get_by_id(book.id).unwrap();
    assert_eq!(stored, updated);
}

#[test]
fn update_overwrites_all_provided_fields() {
    let mut repo = BookRepository::new();
    let book = repo.create(create_dto("Before", "Someone"));
    let updated = repo
        .update(book.id, UpdateBookDto {
            title: Some("After".to_string()),
            author: Some("Someone else".to_string()),
            published_year: Some(2020),
            genre: Some("Essay".to_string()),
            isbn: Some("0-000".to_string()),
        })
        .unwrap();
    assert_eq!(updated, Book {
        id: book.id,
        title: "After".to_string(),
        author: "Someone else".to_string(),
        published_year: Some(2020),
        genre: Some("Essay".to_string()),
        isbn: Some("0-000".to_string()),
    });
}

#[test]
fn update_of_missing_id_changes_nothing() {
    let mut repo = BookRepository::new();
    repo.create(create_dto("A", "aa"));
    repo.create(create_dto("B", "bb"));
    assert!(repo.update(999, empty_update()).is_none());
    assert_eq!(repo.get_all().len(), 2);
}

#[test]
fn list_reflects_creates_and_deletes() {
    let mut repo = BookRepository::new();
    let a = repo.create(create_dto("A", "aa"));
    let b = repo.create(create_dto("B", "bb"));
    let c = repo.create(create_dto("C", "cc"));
    assert_eq!((a.id, b.id, c.id), (1, 2, 3));
    assert!(repo.delete(2));
    let mut ids: Vec<u32> = repo.get_all().iter().map(|book| book.id).collect();
    ids.sort();
    assert_eq!(ids, vec![1, 3]);
    let books = repo.get_all();
    let one = books.iter().find(|book| book.id == 1).unwrap();
    let three = books.iter().find(|book| book.id == 3).unwrap();
    assert_eq!(*one, a);
    assert_eq!(*three, c);
}

#[test]
fn list_of_fresh_repository_is_empty() {
    let repo = BookRepository::new();
    assert!(repo.get_all().is_empty());
}

#[test]
fn get_by_id_on_empty_repository_is_none() {
    let repo = BookRepository::new();
    assert!(repo.get_by_id(1).is_none());
}
