use vstd::prelude::*;

use crate::error::{AppError, AppResult, StorageError};
use crate::model::{book_created, books_view, rows_view, Book, BookId, BookRow, BookView, CreateBook, CreateBookView};

verus! {

/// The books as `find_all` lists them, given the books in the order they
/// were created: most recently created first.
pub open spec fn listing(books: Seq<BookView>) -> Seq<BookView> {
    Seq::new(books.len(), |k: int| books[books.len() - 1 - k])
}

/// The book that carries identifier `id`, if any does.
pub open spec fn lookup(books: Seq<BookView>, id: u128) -> Option<BookView> {
    if exists|i: int| 0 <= i < books.len() && #[trigger] books[i].id == id {
        Some(books[choose|i: int| 0 <= i < books.len() && #[trigger] books[i].id == id])
    } else {
        None
    }
}

/// No two books share an identifier.
pub open spec fn ids_unique(books: Seq<BookView>) -> bool {
    forall|i: int, j: int| 0 <= i < books.len() && 0 <= j < books.len() && i != j
        ==> books[i].id != books[j].id
}

/// The view of an optional book.
pub open spec fn option_view(book: Option<Book>) -> Option<BookView> {
    match book {
        Some(b) => Some(b@),
        None => None,
    }
}

/// A book repository held in memory, for callers and tests that need no
/// database. Rows are kept in the order they were created; storage assigns
/// each a fresh identifier, increasing with creation.
pub struct InMemoryBookRepository {
    rows: Vec<BookRow>,
    next_id: u128,
}

impl InMemoryBookRepository {
    /// The stored books, in creation order (oldest first).
    pub closed spec fn books(&self) -> Seq<BookView> {
        rows_view(self.rows@)
    }

    /// The identifier that the next creation will assign.
    pub closed spec fn next_id(&self) -> u128 {
        self.next_id
    }

    /// Identifiers increase with creation and all lie below `next_id`.
    pub closed spec fn wf(&self) -> bool {
        &&& forall|i: int| 0 <= i < self.rows@.len() ==> #[trigger] self.rows@[i].book_id.0
            < self.next_id
        &&& forall|i: int, j: int|
            0 <= i < j < self.rows@.len() ==> self.rows@[i].book_id.0 < self.rows@[j].book_id.0
    }

    /// A well-formed store never holds two books with one identifier, and
    /// never one with the identifier that it assigns next.
    pub proof fn lemma_ids_unique(&self)
        requires
            self.wf(),
        ensures
            ids_unique(self.books()),
            forall|i: int| 0 <= i < self.books().len() ==> #[trigger] self.books()[i].id
                < self.next_id(),
    {
        assert forall|i: int, j: int|
            0 <= i < self.books().len() && 0 <= j < self.books().len() && i != j implies
            self.books()[i].id != self.books()[j].id by {
            if i < j {
                assert(self.rows@[i].book_id.0 < self.rows@[j].book_id.0);
            } else {
                assert(self.rows@[j].book_id.0 < self.rows@[i].book_id.0);
            }
        }
        assert forall|i: int| 0 <= i < self.books().len() implies #[trigger] self.books()[i].id
            < self.next_id() by {
            assert(self.rows@[i].book_id.0 < self.next_id);
        }
    }

    /// An empty store.
    pub fn new() -> (r: InMemoryBookRepository)
        ensures
            r.wf(),
            r.books() == Seq::<BookView>::empty(),
            r.next_id() == 0,
    {
        let r = InMemoryBookRepository { rows: Vec::new(), next_id: 0 };
        assert(r.books() =~= Seq::<BookView>::empty());
        r
    }

    /// Stores one new book with the command's texts and a fresh identifier.
    /// It fails, storing nothing, only when no identifier is left to assign.
    pub fn create(&mut self, command: CreateBook) -> (r: AppResult<()>)
        requires
            old(self).wf(),
        ensures
            final(self).wf(),
            r is Ok <==> old(self).next_id() < u128::MAX,
            r is Ok ==> final(self).books() == old(self).books().push(
                book_created(old(self).next_id(), command@),
            ),
            r is Ok ==> forall|i: int|
                0 <= i < old(self).books().len() ==> #[trigger] old(self).books()[i].id
                    != old(self).next_id(),
            r is Ok ==> final(self).next_id() == old(self).next_id() + 1,
            r is Err ==> final(self).books() == old(self).books(),
            r is Err ==> final(self).next_id() == old(self).next_id(),
    {
        proof {
            self.lemma_ids_unique();
        }
        if self.next_id == u128::MAX {
            let cause = StorageError::new("no book identifier is left to assign".to_string());
            return Err(AppError::SpecificOperationError(cause));
        }
        let id = self.next_id;
        let row = BookRow {
            book_id: BookId(id),
            title: command.title,
            author: command.author,
            isbn: command.isbn,
            description: command.description,
        };
        self.rows.push(row);
        self.next_id = id + 1;
        assert(self.books() =~= old(self).books().push(book_created(id, command@)));
        Ok(())
    }

    /// Every stored book, most recently created first. It never fails.
    pub fn find_all(&self) -> (r: AppResult<Vec<Book>>)
        ensures
            r is Ok,
            books_view(r->Ok_0@) == listing(self.books()),
    {
        let n = self.rows.len();
        let mut books: Vec<Book> = Vec::new();
        let mut k: usize = 0;
        while k < n
            invariant
                n == self.rows@.len(),
                k <= n,
                books@.len() == k,
                forall|j: int| 0 <= j < k ==> #[trigger] books@[j]@ == self.rows@[n - 1 - j]@,
            decreases n - k,
        {
            books.push(self.rows[n - 1 - k].to_book());
            k = k + 1;
        }
        assert(books_view(books@) =~= listing(self.books()));
        Ok(books)
    }

    /// The stored book with identifier `id`, or `None` when no book has it;
    /// absence is not an error, and it never fails.
    pub fn find_by_id(&self, id: BookId) -> (r: AppResult<Option<Book>>)
        requires
            self.wf(),
        ensures
            r is Ok,
            option_view(r->Ok_0) == lookup(self.books(), id.0),
    {
        proof {
            self.lemma_ids_unique();
        }
        let mut i: usize = 0;
        while i < self.rows.len()
            invariant
                i <= self.rows@.len(),
                ids_unique(self.books()),
                forall|j: int| 0 <= j < i ==> #[trigger] self.books()[j].id != id.0,
            decreases self.rows@.len() - i,
        {
            if self.rows[i].book_id.0 == id.0 {
                let book = self.rows[i].to_book();
                proof {
                    let books = self.books();
                    assert(books[i as int].id == id.0);
                    let c = choose|c: int| 0 <= c < books.len() && #[trigger] books[c].id == id.0;
                    assert(c == i);
                }
                return Ok(Some(book));
            }
            i = i + 1;
        }
        Ok(None)
    }
}

/// Creating a book adds exactly one entry to the listing: the new book comes
/// first, carrying the command's four texts unchanged, and the books listed
/// before follow in their earlier order. (`create` succeeds by turning the
/// books into `before.push(book_created(id, command))`.)
pub proof fn lemma_create_round_trip(before: Seq<BookView>, id: u128, command: CreateBookView)
    ensures
        ({
            let after = listing(before.push(book_created(id, command)));
            &&& after.len() == listing(before).len() + 1
            &&& after[0] == book_created(id, command)
            &&& after[0].title == command.title
            &&& after[0].author == command.author
            &&& after[0].isbn == command.isbn
            &&& after[0].description == command.description
            &&& after.subrange(1, after.len() as int) == listing(before)
        }),
{
    let after = listing(before.push(book_created(id, command)));
    assert(after.subrange(1, after.len() as int) =~= listing(before));
}

/// Every book that the listing holds is found by its identifier, field for
/// field the same.
pub proof fn lemma_listed_book_found(books: Seq<BookView>, k: int)
    requires
        ids_unique(books),
        0 <= k < listing(books).len(),
    ensures
        lookup(books, listing(books)[k].id) == Some(listing(books)[k]),
{
    let i = books.len() - 1 - k;
    let id = books[i].id;
    assert(books[i].id == id);
    let c = choose|c: int| 0 <= c < books.len() && #[trigger] books[c].id == id;
    assert(c == i);
}

/// An identifier that no stored book carries is looked up as absent.
pub proof fn lemma_unassigned_id_absent(books: Seq<BookView>, id: u128)
    requires
        forall|i: int| 0 <= i < books.len() ==> #[trigger] books[i].id != id,
    ensures
        lookup(books, id) is None,
{
}

/// A store without books lists nothing.
pub proof fn lemma_empty_listing(books: Seq<BookView>)
    requires
        books.len() == 0,
    ensures
        listing(books) == Seq::<BookView>::empty(),
{
    assert(listing(books) =~= Seq::<BookView>::empty());
}

/// Of two books, the one created later is listed earlier: the book created
/// at position `b` stands before the one created at position `a < b`.
pub proof fn lemma_newer_listed_first(books: Seq<BookView>, a: int, b: int)
    requires
        0 <= a < b < books.len(),
    ensures
        ({
            let n = books.len() as int;
            &&& n - 1 - b < n - 1 - a
            &&& listing(books)[n - 1 - b] == books[b]
            &&& listing(books)[n - 1 - a] == books[a]
        }),
{
}

} // verus!
