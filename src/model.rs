use vstd::prelude::*;

verus! {

/// The identifier of a stored book: an opaque 128-bit token that storage
/// assigns (a UUID in the database, held here by its numeric value).
#[derive(Clone, Copy, Debug, PartialEq, Eq, Structural, Hash)]
pub struct BookId(pub u128);

impl BookId {
    pub fn new(value: u128) -> (r: BookId)
        ensures
            r.0 == value,
    {
        BookId(value)
    }

    pub fn raw(&self) -> (r: u128)
        ensures
            r == self.0,
    {
        self.0
    }
}

/// What a book is, mathematically: its identifier and its four texts.
pub struct BookView {
    pub id: u128,
    pub title: Seq<char>,
    pub author: Seq<char>,
    pub isbn: Seq<char>,
    pub description: Seq<char>,
}

/// What a creation command is: its four texts.
pub struct CreateBookView {
    pub title: Seq<char>,
    pub author: Seq<char>,
    pub isbn: Seq<char>,
    pub description: Seq<char>,
}

/// The domain entity. Every field is present; an empty text is allowed.
#[derive(Debug, PartialEq, Eq)]
pub struct Book {
    pub id: BookId,
    pub title: String,
    pub author: String,
    pub isbn: String,
    pub description: String,
}

impl View for Book {
    type V = BookView;

    open spec fn view(&self) -> BookView {
        BookView {
            id: self.id.0,
            title: self.title@,
            author: self.author@,
            isbn: self.isbn@,
            description: self.description@,
        }
    }
}

/// The command that asks storage to create a book; storage assigns the
/// identifier.
#[derive(Debug, PartialEq, Eq)]
pub struct CreateBook {
    pub title: String,
    pub author: String,
    pub isbn: String,
    pub description: String,
}

impl View for CreateBook {
    type V = CreateBookView;

    open spec fn view(&self) -> CreateBookView {
        CreateBookView {
            title: self.title@,
            author: self.author@,
            isbn: self.isbn@,
            description: self.description@,
        }
    }
}

/// One persisted record as a query returns it, before it is mapped into a
/// `Book`.
#[derive(Debug, PartialEq, Eq)]
pub struct BookRow {
    pub book_id: BookId,
    pub title: String,
    pub author: String,
    pub isbn: String,
    pub description: String,
}

impl View for BookRow {
    type V = BookView;

    open spec fn view(&self) -> BookView {
        BookView {
            id: self.book_id.0,
            title: self.title@,
            author: self.author@,
            isbn: self.isbn@,
            description: self.description@,
        }
    }
}

/// The book that a creation command describes, once storage has given it
/// the identifier `id`.
pub open spec fn book_created(id: u128, command: CreateBookView) -> BookView {
    BookView {
        id,
        title: command.title,
        author: command.author,
        isbn: command.isbn,
        description: command.description,
    }
}

/// The views of a sequence of rows, one for one.
pub open spec fn rows_view(rows: Seq<BookRow>) -> Seq<BookView> {
    rows.map_values(|row: BookRow| row@)
}

/// The views of a sequence of books, one for one.
pub open spec fn books_view(books: Seq<Book>) -> Seq<BookView> {
    books.map_values(|book: Book| book@)
}

/// The row mapper: a book carries exactly the row's identifier and texts.
impl From<BookRow> for Book {
    fn from(row: BookRow) -> (r: Book) {
        Book {
            id: row.book_id,
            title: row.title,
            author: row.author,
            isbn: row.isbn,
            description: row.description,
        }
    }
}

impl vstd::std_specs::convert::FromSpecImpl<BookRow> for Book {
    open spec fn obeys_from_spec() -> bool {
        true
    }

    open spec fn from_spec(row: BookRow) -> Book {
        Book {
            id: row.book_id,
            title: row.title,
            author: row.author,
            isbn: row.isbn,
            description: row.description,
        }
    }
}

impl Book {
    /// A copy of this book, field for field.
    pub fn duplicate(&self) -> (r: Book)
        ensures
            r@ == self@,
    {
        Book {
            id: self.id,
            title: self.title.clone(),
            author: self.author.clone(),
            isbn: self.isbn.clone(),
            description: self.description.clone(),
        }
    }
}

impl BookRow {
    /// The book that this row holds, without consuming the row.
    pub fn to_book(&self) -> (r: Book)
        ensures
            r@ == self@,
    {
        Book {
            id: self.book_id,
            title: self.title.clone(),
            author: self.author.clone(),
            isbn: self.isbn.clone(),
            description: self.description.clone(),
        }
    }
}

/// Maps every row into a book, keeping their order.
pub fn map_rows(rows: Vec<BookRow>) -> (r: Vec<Book>)
    ensures
        books_view(r@) == rows_view(rows@),
{
    let mut books: Vec<Book> = Vec::new();
    let mut i: usize = 0;
    while i < rows.len()
        invariant
            i <= rows@.len(),
            books@.len() == i,
            forall|j: int| 0 <= j < i ==> #[trigger] books@[j]@ == rows@[j]@,
        decreases rows@.len() - i,
    {
        books.push(rows[i].to_book());
        i = i + 1;
    }
    assert(books_view(books@) =~= rows_view(rows@));
    books
}

/// Maps the row, if there is one, into a book.
pub fn map_optional_row(row: Option<BookRow>) -> (r: Option<Book>)
    ensures
        row is None <==> r is None,
        row is Some ==> r.unwrap()@ == row.unwrap()@,
{
    match row {
        Some(row) => Some(Book::from(row)),
        None => None,
    }
}

} // verus!
