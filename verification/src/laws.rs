//! Laws that relate several repository operations. Each is stated over the
//! repository's model — the map from ids to books and the id counter — in the
//! exact terms the operations' contracts use, so it composes with them.

use vstd::prelude::*;

use crate::models::{Book, CreateBookDto, created_book};
use crate::storage::BookRepository;

verus! {

/// The books that a run of create calls stores, in call order, when the
/// counter stands at `next` before the first call: by `create`'s contract each
/// call returns `created_book(counter, dto)` and advances the counter by one.
pub open spec fn books_from_creates(next: u32, dtos: Seq<CreateBookDto>) -> Seq<Book>
    decreases dtos.len(),
{
    if dtos.len() == 0 {
        Seq::empty()
    } else {
        seq![created_book(next, dtos[0])] + books_from_creates(
            (next + 1) as u32,
            dtos.drop_first(),
        )
    }
}

/// Consecutive creates assign consecutive ids: with the counter at `next`,
/// the k-th create (counting from zero) stores the book with id `next + k`.
pub proof fn lemma_creates_assign_consecutive_ids(next: u32, dtos: Seq<CreateBookDto>)
    requires
        next + dtos.len() <= u32::MAX,
    ensures
        books_from_creates(next, dtos).len() == dtos.len(),
        forall|k: int|
            0 <= k < dtos.len() ==> books_from_creates(next, dtos)[k].id == next + k,
    decreases dtos.len(),
{
    if dtos.len() > 0 {
        lemma_creates_assign_consecutive_ids((next + 1) as u32, dtos.drop_first());
    }
}

/// Creating N books on a fresh repository — whose counter starts at 1, as
/// `new` ensures — assigns the N strictly increasing, unique ids 1 to N.
/// Interleaved reads, updates and deletes change nothing here: their
/// contracts leave the counter where it stands.
pub proof fn lemma_fresh_repository_ids(dtos: Seq<CreateBookDto>)
    requires
        dtos.len() < u32::MAX,
    ensures
        books_from_creates(1, dtos).len() == dtos.len(),
        forall|k: int| 0 <= k < dtos.len() ==> books_from_creates(1, dtos)[k].id == 1 + k,
        forall|j: int, k: int|
            0 <= j < k < dtos.len() ==> books_from_creates(1, dtos)[j].id < books_from_creates(
                1,
                dtos,
            )[k].id,
{
    lemma_creates_assign_consecutive_ids(1, dtos);
}

/// The id that the next create will assign is fresh: it is not in the
/// collection, and it is strictly greater than every stored id — so ids are
/// unique and increase across the process lifetime, and a deleted id can
/// never come back (delete and update leave the counter unchanged).
pub proof fn lemma_next_id_fresh(repo: BookRepository)
    requires
        repo.wf(),
    ensures
        !repo@.contains_key(repo.id_counter()),
        forall|k: u32| #[trigger] repo@.contains_key(k) ==> 1 <= k < repo.id_counter(),
{
}

/// A lookup right after a create finds exactly the book the create returned:
/// by `create`'s contract the collection maps the new id to that book, and by
/// `get_by_id`'s contract the lookup returns the mapped book.
pub proof fn lemma_get_after_create(books: Map<u32, Book>, next: u32, dto: CreateBookDto)
    ensures
        books.insert(next, created_book(next, dto)).contains_key(created_book(next, dto).id),
        books.insert(next, created_book(next, dto))[created_book(next, dto).id] == created_book(
            next,
            dto,
        ),
{
}

/// After a delete of `id` — which leaves the collection as `books.remove(id)`
/// by `delete`'s contract — no book has `id` any more, so a lookup reports
/// not found, and a second delete removes nothing and reports false.
pub proof fn lemma_delete_then_absent(books: Map<u32, Book>, id: u32)
    ensures
        !books.remove(id).contains_key(id),
        books.remove(id).remove(id) == books.remove(id),
{
    assert(books.remove(id).remove(id) =~= books.remove(id));
}

} // verus!
