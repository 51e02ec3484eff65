//! The in-memory repository: sole owner of the book collection and of the id
//! counter. Its view is the map from ids to stored books; every operation's
//! contract says exactly how that map and the counter change.

use vstd::prelude::*;
use vstd::std_specs::iter::IteratorSpec;
use std::collections::HashMap;

use crate::models::{Book, CreateBookDto, UpdateBookDto, created_book, merged};

verus! {

broadcast use vstd::std_specs::hash::group_hash_axioms;

/// Owns the book collection and the id counter. All access goes through its
/// operations; callers receive copies of stored books, never references.
pub struct BookRepository {
    db: HashMap<u32, Book>,
    next_id: u32,
}

impl View for BookRepository {
    type V = Map<u32, Book>;

    closed spec fn view(&self) -> Map<u32, Book> {
        self.db@
    }
}

impl BookRepository {
    /// The id the next create call will assign.
    pub closed spec fn id_counter(&self) -> u32 {
        self.next_id
    }

    /// The repository's invariant: ids start at 1, every stored id is below
    /// the counter (so the counter never hands out an id in use or ever used),
    /// and each book sits under its own id.
    pub open spec fn wf(&self) -> bool {
        &&& 1 <= self.id_counter()
        &&& forall|k: u32|
            #[trigger] self@.contains_key(k) ==> 1 <= k < self.id_counter() && self@[k].id == k
    }

    /// A fresh, empty repository; the first create will assign id 1.
    pub fn new() -> (repo: Self)
        ensures
            repo.wf(),
            repo@ == Map::<u32, Book>::empty(),
            repo.id_counter() == 1,
    {
        BookRepository { db: HashMap::new(), next_id: 1 }
    }

    /// The id the next create call will assign; while it is below `u32::MAX`
    /// another create can be accepted.
    pub fn next_id(&self) -> (id: u32)
        ensures
            id == self.id_counter(),
    {
        self.next_id
    }

    /// A snapshot of all current books, in no particular order: one entry per
    /// stored id, each equal to the stored book.
    pub fn get_all(&self) -> (books: Vec<Book>)
        requires
            self.wf(),
        ensures
            books@.len() == self@.len(),
            forall|i: int|
                0 <= i < books@.len() ==> self@.contains_key(#[trigger] books@[i].id)
                    && self@[books@[i].id] == books@[i],
            forall|k: u32|
                #[trigger] self@.contains_key(k) ==> exists|i: int|
                    0 <= i < books@.len() && books@[i].id == k,
            forall|i: int, j: int|
                0 <= i < j < books@.len() ==> books@[i].id != books@[j].id,
    {
        let ghost snapshot = vstd::std_specs::hash::spec_hash_map_iter(&self.db).remaining();
        let mut books: Vec<Book> = Vec::new();
        for pair in it: self.db.iter()
            invariant
                it.seq() == snapshot,
                snapshot.no_duplicates(),
                books@.len() == it.index(),
                forall|i: int| 0 <= i < it.index() ==> books@[i] == *(#[trigger] it.seq()[i]).1,
        {
            books.push(pair.1.clone());
        }
        proof {
            assert forall|i: int|
                0 <= i < books@.len() implies self@.contains_key(#[trigger] books@[i].id)
                && self@[books@[i].id] == books@[i] by {
                assert(self@.contains_key(*snapshot[i].0));
                assert(self@[*snapshot[i].0] == *snapshot[i].1);
            }
            assert forall|k: u32| #[trigger]
                self@.contains_key(k) implies exists|i: int|
                0 <= i < books@.len() && books@[i].id == k by {
                assert(snapshot.contains((&k, &self@[k])));
                let j = choose|j: int| 0 <= j < snapshot.len() && snapshot[j] == (&k, &self@[k]);
                assert(books@[j].id == k);
            }
            assert forall|i: int, j: int|
                0 <= i < j < books@.len() implies books@[i].id != books@[j].id by {
                if books@[i].id == books@[j].id {
                    assert(self@.contains_key(*snapshot[i].0));
                    assert(self@[*snapshot[i].0] == *snapshot[i].1);
                    assert(self@.contains_key(*snapshot[j].0));
                    assert(self@[*snapshot[j].0] == *snapshot[j].1);
                    assert(*snapshot[i].0 == books@[i].id);
                    assert(*snapshot[j].0 == books@[j].id);
                    assert(snapshot[i] == snapshot[j]);
                }
            }
        }
        books
    }

    /// The stored book under `id`, if any. Read-only.
    pub fn get_by_id(&self, id: u32) -> (found: Option<Book>)
        ensures
            match found {
                Some(b) => self@.contains_key(id) && b == self@[id],
                None => !self@.contains_key(id),
            },
    {
        match self.db.get(&id) {
            Some(b) => Some(b.clone()),
            None => None,
        }
    }

    /// Assigns the next id, stores a book built from the request, advances the
    /// counter, and returns the stored book. The id is fresh: no live record
    /// has it, and no past record ever had it.
    pub fn create(&mut self, dto: CreateBookDto) -> (book: Book)
        requires
            old(self).wf(),
            old(self).id_counter() < u32::MAX,
        ensures
            final(self).wf(),
            book == created_book(old(self).id_counter(), dto),
            !old(self)@.contains_key(book.id),
            final(self)@ == old(self)@.insert(book.id, book),
            final(self)@.len() == old(self)@.len() + 1,
            final(self).id_counter() == old(self).id_counter() + 1,
    {
        let id = self.next_id;
        self.next_id = self.next_id + 1;
        let book = Book {
            id,
            title: dto.title,
            author: dto.author,
            published_year: dto.published_year,
            genre: dto.genre,
            isbn: dto.isbn,
        };
        let stored = book.clone();
        self.db.insert(id, stored);
        book
    }

    /// Applies the partial-update merge rule to the book under `id`, stores
    /// the result, and returns it; if no book has `id`, changes nothing and
    /// reports not found. The counter does not move.
    pub fn update(&mut self, id: u32, dto: UpdateBookDto) -> (updated: Option<Book>)
        requires
            old(self).wf(),
        ensures
            final(self).wf(),
            final(self).id_counter() == old(self).id_counter(),
            match updated {
                Some(b) => old(self)@.contains_key(id) && b == merged(old(self)@[id], dto)
                    && final(self)@ == old(self)@.insert(id, b),
                None => !old(self)@.contains_key(id) && final(self)@ == old(self)@,
            },
            final(self)@.len() == old(self)@.len(),
    {
        let current = match self.db.get(&id) {
            Some(b) => b.clone(),
            None => {
                return None;
            },
        };
        let book = Book {
            id: current.id,
            title: match dto.title {
                Some(t) => t,
                None => current.title,
            },
            author: match dto.author {
                Some(a) => a,
                None => current.author,
            },
            published_year: dto.published_year,
            genre: dto.genre,
            isbn: dto.isbn,
        };
        let stored = book.clone();
        self.db.insert(id, stored);
        Some(book)
    }

    /// Removes the book under `id` and reports whether one was there. The
    /// counter does not move, so the id is never reassigned.
    pub fn delete(&mut self, id: u32) -> (deleted: bool)
        requires
            old(self).wf(),
        ensures
            final(self).wf(),
            final(self).id_counter() == old(self).id_counter(),
            deleted == old(self)@.contains_key(id),
            final(self)@ == old(self)@.remove(id),
    {
        self.db.remove(&id).is_some()
    }
}

} // verus!
