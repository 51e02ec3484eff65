//! The book record and the request shapes used to create and update one.

use vstd::prelude::*;

verus! {

/// A stored book. The repository assigns `id`; it is unique within the live
/// collection and never reused, even after the record is deleted.
#[derive(Debug, PartialEq)]
pub struct Book {
    pub id: u32,
    pub title: String,
    pub author: String,
    pub published_year: Option<u16>,
    pub genre: Option<String>,
    pub isbn: Option<String>,
}

impl Clone for Book {
    fn clone(&self) -> (other: Self)
        ensures
            other == *self,
    {
        Book {
            id: self.id,
            title: self.title.clone(),
            author: self.author.clone(),
            published_year: self.published_year,
            genre: match &self.genre {
                Some(g) => Some(g.clone()),
                None => None,
            },
            isbn: match &self.isbn {
                Some(i) => Some(i.clone()),
                None => None,
            },
        }
    }
}

/// What a create request carries: title and author are required, the rest
/// optional. It never carries an id; the repository assigns one.
#[derive(Debug)]
pub struct CreateBookDto {
    pub title: String,
    pub author: String,
    pub published_year: Option<u16>,
    pub genre: Option<String>,
    pub isbn: Option<String>,
}

/// What an update request carries: every field optional. `title` and `author`
/// overwrite only when present; the other three always overwrite, so leaving
/// one out clears the stored value (see [`merged`]).
#[derive(Debug)]
pub struct UpdateBookDto {
    pub title: Option<String>,
    pub author: Option<String>,
    pub published_year: Option<u16>,
    pub genre: Option<String>,
    pub isbn: Option<String>,
}

/// The book that a create request yields once the repository assigns `id`.
pub open spec fn created_book(id: u32, dto: CreateBookDto) -> Book {
    Book {
        id,
        title: dto.title,
        author: dto.author,
        published_year: dto.published_year,
        genre: dto.genre,
        isbn: dto.isbn,
    }
}

/// The partial-update merge rule: `title` and `author` keep the stored value
/// unless the request carries a replacement, while `published_year`, `genre`
/// and `isbn` always take the request's value, absent meaning cleared. The id
/// is immutable.
pub open spec fn merged(b: Book, dto: UpdateBookDto) -> Book {
    Book {
        id: b.id,
        title: if dto.title is Some {
            dto.title->0
        } else {
            b.title
        },
        author: if dto.author is Some {
            dto.author->0
        } else {
            b.author
        },
        published_year: dto.published_year,
        genre: dto.genre,
        isbn: dto.isbn,
    }
}

/// The merge rule, field by field: an update keeps `title` and `author` when
/// the request leaves them out and overwrites them when it carries them, while
/// `published_year`, `genre` and `isbn` are always replaced by the request's
/// values — leaving one out clears it. The id never changes.
pub proof fn lemma_merge_rule(b: Book, dto: UpdateBookDto)
    ensures
        merged(b, dto).id == b.id,
        dto.title is None ==> merged(b, dto).title == b.title,
        dto.title matches Some(t) ==> merged(b, dto).title == t,
        dto.author is None ==> merged(b, dto).author == b.author,
        dto.author matches Some(a) ==> merged(b, dto).author == a,
        merged(b, dto).published_year == dto.published_year,
        merged(b, dto).genre == dto.genre,
        merged(b, dto).isbn == dto.isbn,
{
}

} // verus!
