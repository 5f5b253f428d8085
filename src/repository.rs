use vstd::prelude::*;

use crate::error::{translate_error, AppError, AppResult, StorageError};
use crate::model::{books_view, map_optional_row, map_rows, Book, BookRow, rows_view};

verus! {

/// The book repository backed by a relational database.
///
/// Each operation runs exactly one statement on a connection borrowed from
/// the pool; running it is the caller's I/O. What the repository decides
/// before and after that statement is here: the result of the statement is
/// handed in, and every storage failure is translated into the domain error
/// exactly once. `P` is the connection pool that statements run on; the
/// repository only carries it.
pub struct BookRepositoryImpl<P> {
    db: P,
}

impl<P> BookRepositoryImpl<P> {
    pub fn new(db: P) -> (r: BookRepositoryImpl<P>)
        ensures
            r.pool() == db,
    {
        BookRepositoryImpl { db }
    }

    pub closed spec fn pool(&self) -> P {
        self.db
    }

    /// The pool that statements of this repository run on.
    pub fn db(&self) -> (r: &P)
        ensures
            *r == self.pool(),
    {
        &self.db
    }

    /// Completes `create` once the insert statement has run: success carries
    /// no entity, a failure is wrapped with its cause.
    pub fn finish_create(&self, outcome: Result<u64, StorageError>) -> (r: AppResult<()>)
        ensures
            outcome is Ok <==> r is Ok,
            outcome is Err ==> r == Err::<(), AppError>(
                AppError::SpecificOperationError(outcome->Err_0),
            ),
    {
        match outcome {
            Ok(_) => Ok(()),
            Err(e) => Err(translate_error(e)),
        }
    }

    /// Completes `find_all` once the select statement has run: every row,
    /// in the order storage returned them, becomes a book.
    pub fn finish_find_all(&self, outcome: Result<Vec<BookRow>, StorageError>) -> (r: AppResult<
        Vec<Book>,
    >)
        ensures
            outcome is Ok <==> r is Ok,
            outcome is Ok ==> books_view(r->Ok_0@) == rows_view(outcome->Ok_0@),
            outcome is Err ==> r == Err::<Vec<Book>, AppError>(
                AppError::SpecificOperationError(outcome->Err_0),
            ),
    {
        match outcome {
            Ok(rows) => Ok(map_rows(rows)),
            Err(e) => Err(translate_error(e)),
        }
    }

    /// Completes `find_by_id` once the lookup statement has run: a missing
    /// row is `None`, not an error.
    pub fn finish_find_by_id(&self, outcome: Result<Option<BookRow>, StorageError>) -> (r:
        AppResult<Option<Book>>)
        ensures
            outcome is Ok <==> r is Ok,
            outcome is Ok ==> (outcome->Ok_0 is None <==> r->Ok_0 is None),
            outcome is Ok && outcome->Ok_0 is Some ==> r->Ok_0->Some_0@ == outcome->Ok_0->Some_0@,
            outcome is Err ==> r == Err::<Option<Book>, AppError>(
                AppError::SpecificOperationError(outcome->Err_0),
            ),
    {
        match outcome {
            Ok(row) => Ok(map_optional_row(row)),
            Err(e) => Err(translate_error(e)),
        }
    }
}

} // verus!
