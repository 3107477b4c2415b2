//! The record types of the catalog and the operations that read and write
//! whole record groups.
//!
//! A record group is one [`MasterEntries`] row plus one [`Book`] or
//! [`Article`] row (tied together by `cite_key`) plus one [`Publisher`] and
//! one [`MonthYear`] row minted at creation time.  The operations here build
//! the rows from positional form fields and drive the statement wrappers of
//! [`crate::store`]; everything but those wrappers is verified.

use vstd::prelude::*;

use crate::store::{raw_delete_article, raw_delete_book, raw_delete_master, raw_insert_article,
    raw_insert_book, raw_insert_master, raw_insert_month_year, raw_insert_publisher,
    raw_list_articles, raw_list_books, raw_select_article, raw_select_book, raw_update_article,
    raw_update_book, with_articles, with_books, with_master, with_month_years, with_publishers,
    Catalog, CatalogModel, StoreError};

verus! {

broadcast use vstd::string::group_string_axioms;

/// A piece of text that the store can hold faithfully: SQLite's text
/// interface reads values back as C strings, so a NUL character would be
/// cut off.  Every value written through this crate satisfies this.
pub open spec fn text_ok(s: Seq<char>) -> bool {
    forall|i: int| 0 <= i < s.len() ==> s[i] != '\0'
}

/// All of the first `n` entries of a positional field vector are storable.
pub open spec fn fields_ok(fs: Seq<Seq<char>>, n: int) -> bool {
    forall|i: int| 0 <= i < n && i < fs.len() ==> text_ok(#[trigger] fs[i])
}

/// One row of the `master_entries` table: the stable identity of an entry.
#[derive(Clone, Debug)]
pub struct MasterEntries {
    pub cite_key: String,
    pub entry_type: String,
}

/// One row of the `book` table.
#[derive(Clone, Debug)]
pub struct Book {
    pub book_id: String,
    pub cite_key: String,
    pub publisher_id: String,
    pub month_year_id: String,
    pub author: String,
    pub title: String,
    pub pages: String,
    pub volume: String,
    pub edition: String,
    pub year: String,
    pub series: String,
    pub publisher: String,
    pub note: String,
}

/// One row of the `publisher` table.
#[derive(Clone, Debug)]
pub struct Publisher {
    pub publisher_id: String,
    pub publisher: String,
    pub address: String,
}

/// One row of the `month_year` table.
#[derive(Clone, Debug)]
pub struct MonthYear {
    pub month_year_id: String,
    pub month: String,
    pub year: String,
}

/// One row of the `article` table.
#[derive(Clone, Debug)]
pub struct Article {
    pub cite_key: String,
    pub article_id: String,
    pub publisher_id: String,
    pub month_year_id: String,
    pub title: String,
    pub journal: String,
    pub volume: String,
    pub pages: String,
    pub note: String,
    pub year: String,
    pub edition: String,
    pub publisher: String,
}

/// The mathematical value of a [`Book`] row.
#[verifier::ext_equal]
pub struct BookRow {
    pub book_id: Seq<char>,
    pub cite_key: Seq<char>,
    pub publisher_id: Seq<char>,
    pub month_year_id: Seq<char>,
    pub author: Seq<char>,
    pub title: Seq<char>,
    pub pages: Seq<char>,
    pub volume: Seq<char>,
    pub edition: Seq<char>,
    pub year: Seq<char>,
    pub series: Seq<char>,
    pub publisher: Seq<char>,
    pub note: Seq<char>,
}

/// The mathematical value of an [`Article`] row.
#[verifier::ext_equal]
pub struct ArticleRow {
    pub cite_key: Seq<char>,
    pub article_id: Seq<char>,
    pub publisher_id: Seq<char>,
    pub month_year_id: Seq<char>,
    pub title: Seq<char>,
    pub journal: Seq<char>,
    pub volume: Seq<char>,
    pub pages: Seq<char>,
    pub note: Seq<char>,
    pub year: Seq<char>,
    pub edition: Seq<char>,
    pub publisher: Seq<char>,
}

/// The mathematical value of a [`Publisher`] row.
#[verifier::ext_equal]
pub struct PublisherRow {
    pub publisher_id: Seq<char>,
    pub publisher: Seq<char>,
    pub address: Seq<char>,
}

/// The mathematical value of a [`MonthYear`] row.
#[verifier::ext_equal]
pub struct MonthYearRow {
    pub month_year_id: Seq<char>,
    pub month: Seq<char>,
    pub year: Seq<char>,
}

impl View for Book {
    type V = BookRow;

    open spec fn view(&self) -> BookRow {
        BookRow {
            book_id: self.book_id@,
            cite_key: self.cite_key@,
            publisher_id: self.publisher_id@,
            month_year_id: self.month_year_id@,
            author: self.author@,
            title: self.title@,
            pages: self.pages@,
            volume: self.volume@,
            edition: self.edition@,
            year: self.year@,
            series: self.series@,
            publisher: self.publisher@,
            note: self.note@,
        }
    }
}

impl View for Article {
    type V = ArticleRow;

    open spec fn view(&self) -> ArticleRow {
        ArticleRow {
            cite_key: self.cite_key@,
            article_id: self.article_id@,
            publisher_id: self.publisher_id@,
            month_year_id: self.month_year_id@,
            title: self.title@,
            journal: self.journal@,
            volume: self.volume@,
            pages: self.pages@,
            note: self.note@,
            year: self.year@,
            edition: self.edition@,
            publisher: self.publisher@,
        }
    }
}

impl View for Publisher {
    type V = PublisherRow;

    open spec fn view(&self) -> PublisherRow {
        PublisherRow {
            publisher_id: self.publisher_id@,
            publisher: self.publisher@,
            address: self.address@,
        }
    }
}

impl View for MonthYear {
    type V = MonthYearRow;

    open spec fn view(&self) -> MonthYearRow {
        MonthYearRow {
            month_year_id: self.month_year_id@,
            month: self.month@,
            year: self.year@,
        }
    }
}

/// Every field of a [`Book`] row is storable text.
pub open spec fn book_row_ok(r: BookRow) -> bool {
    &&& text_ok(r.book_id)
    &&& text_ok(r.cite_key)
    &&& text_ok(r.publisher_id)
    &&& text_ok(r.month_year_id)
    &&& text_ok(r.author)
    &&& text_ok(r.title)
    &&& text_ok(r.pages)
    &&& text_ok(r.volume)
    &&& text_ok(r.edition)
    &&& text_ok(r.year)
    &&& text_ok(r.series)
    &&& text_ok(r.publisher)
    &&& text_ok(r.note)
}

/// Every field of an [`Article`] row is storable text.
pub open spec fn article_row_ok(r: ArticleRow) -> bool {
    &&& text_ok(r.cite_key)
    &&& text_ok(r.article_id)
    &&& text_ok(r.publisher_id)
    &&& text_ok(r.month_year_id)
    &&& text_ok(r.title)
    &&& text_ok(r.journal)
    &&& text_ok(r.volume)
    &&& text_ok(r.pages)
    &&& text_ok(r.note)
    &&& text_ok(r.year)
    &&& text_ok(r.edition)
    &&& text_ok(r.publisher)
}

/// Every field of a [`Publisher`] row is storable text.
pub open spec fn publisher_row_ok(r: PublisherRow) -> bool {
    text_ok(r.publisher_id) && text_ok(r.publisher) && text_ok(r.address)
}

/// Every field of a [`MonthYear`] row is storable text.
pub open spec fn month_year_row_ok(r: MonthYearRow) -> bool {
    text_ok(r.month_year_id) && text_ok(r.month) && text_ok(r.year)
}

/// The editable fields of a book row, in the positional order of the book
/// entry form: author, title, pages, volume, edition, year, series,
/// publisher, note.
pub open spec fn book_fields_of(r: BookRow) -> Seq<Seq<char>> {
    seq![r.author, r.title, r.pages, r.volume, r.edition, r.year, r.series, r.publisher, r.note]
}

/// The editable fields of an article row, in the positional order of the
/// article entry form: title, journal, volume, pages, note, year, edition,
/// publisher.
pub open spec fn article_fields_of(r: ArticleRow) -> Seq<Seq<char>> {
    seq![r.title, r.journal, r.volume, r.pages, r.note, r.year, r.edition, r.publisher]
}

/// `r` with its editable fields replaced by the form fields `f` (in the
/// order of [`book_fields_of`]); the identifier columns keep their values.
pub open spec fn book_with_fields(r: BookRow, f: Seq<Seq<char>>) -> BookRow {
    BookRow {
        book_id: r.book_id,
        cite_key: r.cite_key,
        publisher_id: r.publisher_id,
        month_year_id: r.month_year_id,
        author: f[0],
        title: f[1],
        pages: f[2],
        volume: f[3],
        edition: f[4],
        year: f[5],
        series: f[6],
        publisher: f[7],
        note: f[8],
    }
}

/// `r` with its editable fields replaced by the form fields `f` (in the
/// order of [`article_fields_of`]); the identifier columns keep their
/// values.
pub open spec fn article_with_fields(r: ArticleRow, f: Seq<Seq<char>>) -> ArticleRow {
    ArticleRow {
        cite_key: r.cite_key,
        article_id: r.article_id,
        publisher_id: r.publisher_id,
        month_year_id: r.month_year_id,
        title: f[0],
        journal: f[1],
        volume: f[2],
        pages: f[3],
        note: f[4],
        year: f[5],
        edition: f[6],
        publisher: f[7],
    }
}

/// A book row from its column values in table order: book_id, cite_key,
/// publisher_id, month_year_id, author, title, pages, volume, edition,
/// year, series, publisher, note.
pub open spec fn book_row_from_cols(c: Seq<Seq<char>>) -> BookRow {
    BookRow {
        book_id: c[0],
        cite_key: c[1],
        publisher_id: c[2],
        month_year_id: c[3],
        author: c[4],
        title: c[5],
        pages: c[6],
        volume: c[7],
        edition: c[8],
        year: c[9],
        series: c[10],
        publisher: c[11],
        note: c[12],
    }
}

/// An article row from its column values in table order: cite_key,
/// article_id, publisher_id, month_year_id, title, journal, volume, pages,
/// note, year, edition, publisher.
pub open spec fn article_row_from_cols(c: Seq<Seq<char>>) -> ArticleRow {
    ArticleRow {
        cite_key: c[0],
        article_id: c[1],
        publisher_id: c[2],
        month_year_id: c[3],
        title: c[4],
        journal: c[5],
        volume: c[6],
        pages: c[7],
        note: c[8],
        year: c[9],
        edition: c[10],
        publisher: c[11],
    }
}

impl Book {
    /// Rebuild a book row from its column values in table order.
    pub(crate) fn from_columns(f: &Vec<String>) -> (r: Book)
        requires
            f@.len() == 13,
        ensures
            r@ == book_row_from_cols(f.deep_view()),
    {
        Book {
            book_id: f[0].clone(),
            cite_key: f[1].clone(),
            publisher_id: f[2].clone(),
            month_year_id: f[3].clone(),
            author: f[4].clone(),
            title: f[5].clone(),
            pages: f[6].clone(),
            volume: f[7].clone(),
            edition: f[8].clone(),
            year: f[9].clone(),
            series: f[10].clone(),
            publisher: f[11].clone(),
            note: f[12].clone(),
        }
    }
}

impl Article {
    /// Rebuild an article row from its column values in table order.
    pub(crate) fn from_columns(f: &Vec<String>) -> (r: Article)
        requires
            f@.len() == 12,
        ensures
            r@ == article_row_from_cols(f.deep_view()),
    {
        Article {
            cite_key: f[0].clone(),
            article_id: f[1].clone(),
            publisher_id: f[2].clone(),
            month_year_id: f[3].clone(),
            title: f[4].clone(),
            journal: f[5].clone(),
            volume: f[6].clone(),
            pages: f[7].clone(),
            note: f[8].clone(),
            year: f[9].clone(),
            edition: f[10].clone(),
            publisher: f[11].clone(),
        }
    }
}

/// A freshly minted identifier, safe to store as text.
pub open spec fn id_ok(s: Seq<char>) -> bool {
    s.len() == 36 && text_ok(s)
}

/// Relies on `uuid::Uuid::new_v4` and the `Display` impl of `Uuid`: a
/// version-4 UUID renders as 36 hyphenated hexadecimal ASCII characters.
/// Nothing is assumed about which identifier comes out, only its shape.
#[verifier::external_body]
fn fresh_id() -> (r: String)
    ensures
        id_ok(r@),
{
    uuid::Uuid::new_v4().to_string()
}

impl MasterEntries {
    /// Mint the identity row for a new book entry.
    pub fn new_book() -> (r: MasterEntries)
        ensures
            id_ok(r.cite_key@),
            r.entry_type@ == "BOOK"@,
    {
        let key = fresh_id();
        MasterEntries { cite_key: key, entry_type: "BOOK".to_string() }
    }

    /// Mint the identity row for a new article entry.
    pub fn new_article() -> (r: MasterEntries)
        ensures
            id_ok(r.cite_key@),
            r.entry_type@ == "ARTICLE"@,
    {
        let key = fresh_id();
        MasterEntries { cite_key: key, entry_type: "ARTICLE".to_string() }
    }
}

impl MonthYear {
    /// Mint a month/year row for the given year; the month is not asked for
    /// by the entry forms and defaults to "01".
    pub fn new(year: String) -> (r: MonthYear)
        ensures
            id_ok(r.month_year_id@),
            r.month@ == "01"@,
            r.year@ == year@,
    {
        let month_year_id = fresh_id();
        MonthYear { month_year_id, month: "01".to_string(), year }
    }
}

impl Publisher {
    /// Mint a publisher row for the given publisher name; the address would
    /// be a lookup based on the name and is stored as "n/a".
    pub fn new(name: String) -> (r: Publisher)
        ensures
            id_ok(r.publisher_id@),
            r.publisher@ == name@,
            r.address@ == "n/a"@,
    {
        let publisher_id = fresh_id();
        Publisher { publisher_id, publisher: name, address: "n/a".to_string() }
    }
}

impl MasterEntries {
    /// Insert this identity row into `master_entries`.
    pub fn insert(&self, store: &mut Catalog) -> (r: Result<(), StoreError>)
        requires
            text_ok(self.cite_key@),
            text_ok(self.entry_type@),
        ensures
            r is Ok ==> !old(store)@.master.contains_key(self.cite_key@),
            r is Ok ==> final(store)@ == with_master(
                old(store)@,
                old(store)@.master.insert(self.cite_key@, self.entry_type@),
            ),
            r is Err ==> final(store)@ == old(store)@,
    {
        raw_insert_master(&mut store.conn, self.cite_key.as_str(), self.entry_type.as_str())
    }

    /// Delete the `master_entries` row keyed by `item_id`; deleting a key
    /// that is not there changes nothing and is not an error.
    pub fn delete(store: &mut Catalog, item_id: String) -> (r: Result<(), StoreError>)
        ensures
            r is Ok ==> final(store)@ == with_master(old(store)@, old(store)@.master.remove(item_id@)),
            r is Err ==> final(store)@ == old(store)@,
    {
        raw_delete_master(&mut store.conn, item_id.as_str())
    }
}

impl Book {
    /// Insert this row into `book`.
    pub fn insert(&self, store: &mut Catalog) -> (r: Result<(), StoreError>)
        requires
            book_row_ok(self@),
        ensures
            r is Ok ==> !old(store)@.books.contains_key(self.cite_key@),
            r is Ok ==> final(store)@ == with_books(
                old(store)@,
                old(store)@.books.insert(self.cite_key@, self@),
            ),
            r is Err ==> final(store)@ == old(store)@,
    {
        raw_insert_book(&mut store.conn, self)
    }

    /// Rewrite the editable fields of the `book` row keyed by `item_id`
    /// with this row's fields; a key that is not there matches nothing.
    pub fn update(&self, store: &mut Catalog, item_id: String) -> (r: Result<(), StoreError>)
        requires
            fields_ok(book_fields_of(self@), 9),
        ensures
            r is Ok ==> final(store)@ == with_books(
                old(store)@,
                if old(store)@.books.contains_key(item_id@) {
                    old(store)@.books.insert(
                        item_id@,
                        book_with_fields(old(store)@.books[item_id@], book_fields_of(self@)),
                    )
                } else {
                    old(store)@.books
                },
            ),
            r is Err ==> final(store)@ == old(store)@,
    {
        raw_update_book(&mut store.conn, self, item_id.as_str())
    }

    /// Delete the `book` row keyed by `item_id`.
    pub fn delete(store: &mut Catalog, item_id: String) -> (r: Result<(), StoreError>)
        ensures
            r is Ok ==> final(store)@ == with_books(old(store)@, old(store)@.books.remove(item_id@)),
            r is Err ==> final(store)@ == old(store)@,
    {
        raw_delete_book(&mut store.conn, item_id.as_str())
    }

    /// The editable fields of the `book` row keyed by `item_id`, in form
    /// order; the empty vector when there is no such row.
    pub fn select(store: &Catalog, item_id: &str) -> (r: Result<Vec<String>, StoreError>)
        ensures
            r matches Ok(v) ==> if store@.books.contains_key(item_id@) {
                v@.len() == 9 && v.deep_view() == book_fields_of(store@.books[item_id@])
            } else {
                v@.len() == 0
            },
    {
        let r = raw_select_book(&store.conn, item_id);
        proof {
            if r is Ok {
                let v = r->Ok_0;
                assert(v.deep_view().len() == v@.len());
            }
        }
        r
    }
}

impl Article {
    /// Insert this row into `article`.
    pub fn insert(&self, store: &mut Catalog) -> (r: Result<(), StoreError>)
        requires
            article_row_ok(self@),
        ensures
            r is Ok ==> !old(store)@.articles.contains_key(self.cite_key@),
            r is Ok ==> final(store)@ == with_articles(
                old(store)@,
                old(store)@.articles.insert(self.cite_key@, self@),
            ),
            r is Err ==> final(store)@ == old(store)@,
    {
        raw_insert_article(&mut store.conn, self)
    }

    /// Rewrite the editable fields of the `article` row keyed by `item_id`
    /// with this row's fields.
    pub fn update(&self, store: &mut Catalog, item_id: String) -> (r: Result<(), StoreError>)
        requires
            fields_ok(article_fields_of(self@), 8),
        ensures
            r is Ok ==> final(store)@ == with_articles(
                old(store)@,
                if old(store)@.articles.contains_key(item_id@) {
                    old(store)@.articles.insert(
                        item_id@,
                        article_with_fields(
                            old(store)@.articles[item_id@],
                            article_fields_of(self@),
                        ),
                    )
                } else {
                    old(store)@.articles
                },
            ),
            r is Err ==> final(store)@ == old(store)@,
    {
        raw_update_article(&mut store.conn, self, item_id.as_str())
    }

    /// Delete the `article` row keyed by `item_id`.
    pub fn delete(store: &mut Catalog, item_id: String) -> (r: Result<(), StoreError>)
        ensures
            r is Ok ==> final(store)@ == with_articles(
                old(store)@,
                old(store)@.articles.remove(item_id@),
            ),
            r is Err ==> final(store)@ == old(store)@,
    {
        raw_delete_article(&mut store.conn, item_id.as_str())
    }

    /// The editable fields of the `article` row keyed by `item_id`, in
    /// form order; the empty vector when there is no such row.
    pub fn select(store: &Catalog, item_id: &str) -> (r: Result<Vec<String>, StoreError>)
        ensures
            r matches Ok(v) ==> if store@.articles.contains_key(item_id@) {
                v@.len() == 8 && v.deep_view() == article_fields_of(store@.articles[item_id@])
            } else {
                v@.len() == 0
            },
    {
        let r = raw_select_article(&store.conn, item_id);
        proof {
            if r is Ok {
                let v = r->Ok_0;
                assert(v.deep_view().len() == v@.len());
            }
        }
        r
    }
}

impl Publisher {
    /// Insert this row into `publisher`.
    pub fn insert(&self, store: &mut Catalog) -> (r: Result<(), StoreError>)
        requires
            publisher_row_ok(self@),
        ensures
            r is Ok ==> !old(store)@.publishers.contains_key(self.publisher_id@),
            r is Ok ==> final(store)@ == with_publishers(
                old(store)@,
                old(store)@.publishers.insert(self.publisher_id@, self@),
            ),
            r is Err ==> final(store)@ == old(store)@,
    {
        raw_insert_publisher(&mut store.conn, self)
    }
}

impl MonthYear {
    /// Insert this row into `month_year`.
    pub fn insert(&self, store: &mut Catalog) -> (r: Result<(), StoreError>)
        requires
            month_year_row_ok(self@),
        ensures
            r is Ok ==> !old(store)@.month_years.contains_key(self.month_year_id@),
            r is Ok ==> final(store)@ == with_month_years(
                old(store)@,
                old(store)@.month_years.insert(self.month_year_id@, self@),
            ),
            r is Err ==> final(store)@ == old(store)@,
    {
        raw_insert_month_year(&mut store.conn, self)
    }
}

/// Every row of the `book` table, in whatever order the store yields them:
/// the result enumerates `store@.books` exactly, but callers must not
/// assume any particular order across reads.
pub fn read_sqlite_book_table(store: &Catalog) -> (r: Result<Vec<Book>, StoreError>)
    ensures
        r matches Ok(v) ==> {
            &&& v@.len() == store@.books.dom().len()
            &&& forall|i: int|
                0 <= i < v@.len() ==> store@.books.contains_key(#[trigger] v@[i]@.cite_key)
                    && store@.books[v@[i]@.cite_key] == v@[i]@
            &&& forall|i: int, j: int|
                0 <= i < j < v@.len() ==> v@[i]@.cite_key != v@[j]@.cite_key
            &&& forall|k: Seq<char>|
                store@.books.contains_key(k) ==> exists|i: int|
                    0 <= i < v@.len() && #[trigger] v@[i]@.cite_key == k
        },
{
    raw_list_books(&store.conn)
}

/// Every row of the `article` table, enumerated as
/// [`read_sqlite_book_table`] enumerates books.
pub fn read_sqlite_article_table(store: &Catalog) -> (r: Result<Vec<Article>, StoreError>)
    ensures
        r matches Ok(v) ==> {
            &&& v@.len() == store@.articles.dom().len()
            &&& forall|i: int|
                0 <= i < v@.len() ==> store@.articles.contains_key(#[trigger] v@[i]@.cite_key)
                    && store@.articles[v@[i]@.cite_key] == v@[i]@
            &&& forall|i: int, j: int|
                0 <= i < j < v@.len() ==> v@[i]@.cite_key != v@[j]@.cite_key
            &&& forall|k: Seq<char>|
                store@.articles.contains_key(k) ==> exists|i: int|
                    0 <= i < v@.len() && #[trigger] v@[i]@.cite_key == k
        },
{
    raw_list_articles(&store.conn)
}

/// Indexing the deep view of a vector of strings is indexing the vector
/// and taking the string's view.
pub proof fn lemma_vec_string_deep_view(v: &Vec<String>)
    ensures
        v.deep_view().len() == v@.len(),
        forall|i: int| #![trigger v.deep_view()[i]]
            0 <= i < v@.len() ==> v.deep_view()[i] == v@[i]@,
{
}

/// The book row that a creation builds from the form fields `f` and the
/// four freshly minted identifiers.
pub open spec fn book_row_built(
    f: Seq<Seq<char>>,
    bid: Seq<char>,
    key: Seq<char>,
    pid: Seq<char>,
    myid: Seq<char>,
) -> BookRow {
    BookRow {
        book_id: bid,
        cite_key: key,
        publisher_id: pid,
        month_year_id: myid,
        author: f[0],
        title: f[1],
        pages: f[2],
        volume: f[3],
        edition: f[4],
        year: f[5],
        series: f[6],
        publisher: f[7],
        note: f[8],
    }
}

/// The article row that a creation builds from the form fields `f` and the
/// four freshly minted identifiers.
pub open spec fn article_row_built(
    f: Seq<Seq<char>>,
    aid: Seq<char>,
    key: Seq<char>,
    pid: Seq<char>,
    myid: Seq<char>,
) -> ArticleRow {
    ArticleRow {
        cite_key: key,
        article_id: aid,
        publisher_id: pid,
        month_year_id: myid,
        title: f[0],
        journal: f[1],
        volume: f[2],
        pages: f[3],
        note: f[4],
        year: f[5],
        edition: f[6],
        publisher: f[7],
    }
}

/// The publisher row that a creation or an update mints: seeded from the
/// form's publisher field, with a placeholder address.
pub open spec fn publisher_row_built(f: Seq<Seq<char>>, pid: Seq<char>) -> PublisherRow {
    PublisherRow { publisher_id: pid, publisher: f[7], address: "n/a"@ }
}

/// The month/year row that a creation or an update mints: seeded from the
/// form's year field, with the default month.
pub open spec fn month_year_row_built(f: Seq<Seq<char>>, myid: Seq<char>) -> MonthYearRow {
    MonthYearRow { month_year_id: myid, month: "01"@, year: f[5] }
}

/// How creating a book entry with form fields `f`, cite key `key` and
/// minted identifiers `bid`, `pid`, `myid` changes the catalog from `t0`
/// to `t1`: the four tables of the group each gain exactly their row, and
/// the article table is untouched.
pub open spec fn book_created_with(
    t0: CatalogModel,
    t1: CatalogModel,
    key: Seq<char>,
    bid: Seq<char>,
    pid: Seq<char>,
    myid: Seq<char>,
    f: Seq<Seq<char>>,
) -> bool {
    &&& id_ok(key) && id_ok(bid) && id_ok(pid) && id_ok(myid)
    &&& !t0.master.contains_key(key) && !t0.books.contains_key(key)
    &&& !t0.publishers.contains_key(pid) && !t0.month_years.contains_key(myid)
    &&& t1.master == t0.master.insert(key, "BOOK"@)
    &&& t1.books == t0.books.insert(key, book_row_built(f, bid, key, pid, myid))
    &&& t1.articles == t0.articles
    &&& t1.publishers == t0.publishers.insert(pid, publisher_row_built(f, pid))
    &&& t1.month_years == t0.month_years.insert(myid, month_year_row_built(f, myid))
}

/// [`book_created_with`], with the minted row identifiers abstracted away.
pub open spec fn book_created(
    t0: CatalogModel,
    t1: CatalogModel,
    key: Seq<char>,
    f: Seq<Seq<char>>,
) -> bool {
    exists|bid: Seq<char>, pid: Seq<char>, myid: Seq<char>| #![auto]
        book_created_with(t0, t1, key, bid, pid, myid, f)
}

/// How creating an article entry changes the catalog; the book table is
/// untouched.
pub open spec fn article_created_with(
    t0: CatalogModel,
    t1: CatalogModel,
    key: Seq<char>,
    aid: Seq<char>,
    pid: Seq<char>,
    myid: Seq<char>,
    f: Seq<Seq<char>>,
) -> bool {
    &&& id_ok(key) && id_ok(aid) && id_ok(pid) && id_ok(myid)
    &&& !t0.master.contains_key(key) && !t0.articles.contains_key(key)
    &&& !t0.publishers.contains_key(pid) && !t0.month_years.contains_key(myid)
    &&& t1.master == t0.master.insert(key, "ARTICLE"@)
    &&& t1.articles == t0.articles.insert(key, article_row_built(f, aid, key, pid, myid))
    &&& t1.books == t0.books
    &&& t1.publishers == t0.publishers.insert(pid, publisher_row_built(f, pid))
    &&& t1.month_years == t0.month_years.insert(myid, month_year_row_built(f, myid))
}

/// [`article_created_with`], with the minted row identifiers abstracted
/// away.
pub open spec fn article_created(
    t0: CatalogModel,
    t1: CatalogModel,
    key: Seq<char>,
    f: Seq<Seq<char>>,
) -> bool {
    exists|aid: Seq<char>, pid: Seq<char>, myid: Seq<char>| #![auto]
        article_created_with(t0, t1, key, aid, pid, myid, f)
}

/// The book table after the editable fields of the row keyed by `key` are
/// rewritten from the form fields `f`; a key that is not there changes
/// nothing.
pub open spec fn books_after_update(
    bs: Map<Seq<char>, BookRow>,
    key: Seq<char>,
    f: Seq<Seq<char>>,
) -> Map<Seq<char>, BookRow> {
    if bs.contains_key(key) {
        bs.insert(key, book_with_fields(bs[key], f))
    } else {
        bs
    }
}

/// The article table after the editable fields of the row keyed by `key`
/// are rewritten from the form fields `f`.
pub open spec fn articles_after_update(
    bs: Map<Seq<char>, ArticleRow>,
    key: Seq<char>,
    f: Seq<Seq<char>>,
) -> Map<Seq<char>, ArticleRow> {
    if bs.contains_key(key) {
        bs.insert(key, article_with_fields(bs[key], f))
    } else {
        bs
    }
}

/// How updating the book entry keyed by `key` changes the catalog: the
/// targeted row's editable fields are rewritten in place, the master and
/// article tables are untouched, and — exactly as a creation would — a
/// fresh publisher row and a fresh month/year row are minted.  Nothing
/// references those two rows: they are orphans, a known leak of the
/// protocol, kept deliberately.
pub open spec fn book_updated_with(
    t0: CatalogModel,
    t1: CatalogModel,
    key: Seq<char>,
    pid: Seq<char>,
    myid: Seq<char>,
    f: Seq<Seq<char>>,
) -> bool {
    &&& id_ok(pid) && id_ok(myid)
    &&& t1.master == t0.master
    &&& t1.articles == t0.articles
    &&& t1.books == books_after_update(t0.books, key, f)
    &&& t1.publishers == t0.publishers.insert(pid, publisher_row_built(f, pid))
    &&& t1.month_years == t0.month_years.insert(myid, month_year_row_built(f, myid))
}

/// [`book_updated_with`], with the minted row identifiers abstracted away.
pub open spec fn book_updated(
    t0: CatalogModel,
    t1: CatalogModel,
    key: Seq<char>,
    f: Seq<Seq<char>>,
) -> bool {
    exists|pid: Seq<char>, myid: Seq<char>| #![auto] book_updated_with(t0, t1, key, pid, myid, f)
}

/// How updating the article entry keyed by `key` changes the catalog.
pub open spec fn article_updated_with(
    t0: CatalogModel,
    t1: CatalogModel,
    key: Seq<char>,
    pid: Seq<char>,
    myid: Seq<char>,
    f: Seq<Seq<char>>,
) -> bool {
    &&& id_ok(pid) && id_ok(myid)
    &&& t1.master == t0.master
    &&& t1.books == t0.books
    &&& t1.articles == articles_after_update(t0.articles, key, f)
    &&& t1.publishers == t0.publishers.insert(pid, publisher_row_built(f, pid))
    &&& t1.month_years == t0.month_years.insert(myid, month_year_row_built(f, myid))
}

/// [`article_updated_with`], with the minted row identifiers abstracted
/// away.
pub open spec fn article_updated(
    t0: CatalogModel,
    t1: CatalogModel,
    key: Seq<char>,
    f: Seq<Seq<char>>,
) -> bool {
    exists|pid: Seq<char>, myid: Seq<char>| #![auto] article_updated_with(t0, t1, key, pid, myid, f)
}

/// How deleting the book entry keyed by `key` changes the catalog: the
/// master row and the book row go; the publisher and month/year tables
/// keep every row they had (the orphans stay for good).  Removing a key
/// that is not there changes nothing.
pub open spec fn book_deleted(t0: CatalogModel, t1: CatalogModel, key: Seq<char>) -> bool {
    t1 == with_books(with_master(t0, t0.master.remove(key)), t0.books.remove(key))
}

/// How deleting the article entry keyed by `key` changes the catalog.
pub open spec fn article_deleted(t0: CatalogModel, t1: CatalogModel, key: Seq<char>) -> bool {
    t1 == with_articles(with_master(t0, t0.master.remove(key)), t0.articles.remove(key))
}

/// What may already be in the store when a book creation fails midway: the
/// four inserts are not one transaction, so any prefix of the group can
/// remain — each table is either untouched or holds exactly its one new
/// row.  This is the documented limitation of the protocol, stated rather
/// than hidden.
pub open spec fn book_create_partial(t0: CatalogModel, t1: CatalogModel, f: Seq<Seq<char>>) -> bool {
    &&& t1.articles == t0.articles
    &&& (t1.master == t0.master || exists|k: Seq<char>| #![auto]
        id_ok(k) && t1.master == t0.master.insert(k, "BOOK"@))
    &&& (t1.books == t0.books || exists|b: BookRow| #![auto]
        id_ok(b.cite_key) && t1.books == t0.books.insert(b.cite_key, b))
    &&& (t1.publishers == t0.publishers || exists|p: Seq<char>| #![auto]
        id_ok(p) && t1.publishers == t0.publishers.insert(p, publisher_row_built(f, p)))
    &&& (t1.month_years == t0.month_years || exists|y: Seq<char>| #![auto]
        id_ok(y) && t1.month_years == t0.month_years.insert(y, month_year_row_built(f, y)))
}

/// What may already be in the store when an article creation fails midway.
pub open spec fn article_create_partial(
    t0: CatalogModel,
    t1: CatalogModel,
    f: Seq<Seq<char>>,
) -> bool {
    &&& t1.books == t0.books
    &&& (t1.master == t0.master || exists|k: Seq<char>| #![auto]
        id_ok(k) && t1.master == t0.master.insert(k, "ARTICLE"@))
    &&& (t1.articles == t0.articles || exists|a: ArticleRow| #![auto]
        id_ok(a.cite_key) && t1.articles == t0.articles.insert(a.cite_key, a))
    &&& (t1.publishers == t0.publishers || exists|p: Seq<char>| #![auto]
        id_ok(p) && t1.publishers == t0.publishers.insert(p, publisher_row_built(f, p)))
    &&& (t1.month_years == t0.month_years || exists|y: Seq<char>| #![auto]
        id_ok(y) && t1.month_years == t0.month_years.insert(y, month_year_row_built(f, y)))
}

/// What may already be in the store when a book update fails midway: the
/// row rewrite and the two orphan-row inserts are independent statements.
pub open spec fn book_update_partial(
    t0: CatalogModel,
    t1: CatalogModel,
    key: Seq<char>,
    f: Seq<Seq<char>>,
) -> bool {
    &&& t1.master == t0.master
    &&& t1.articles == t0.articles
    &&& (t1.books == t0.books || t1.books == books_after_update(t0.books, key, f))
    &&& (t1.publishers == t0.publishers || exists|p: Seq<char>| #![auto]
        id_ok(p) && t1.publishers == t0.publishers.insert(p, publisher_row_built(f, p)))
    &&& (t1.month_years == t0.month_years || exists|y: Seq<char>| #![auto]
        id_ok(y) && t1.month_years == t0.month_years.insert(y, month_year_row_built(f, y)))
}

/// What may already be in the store when an article update fails midway.
pub open spec fn article_update_partial(
    t0: CatalogModel,
    t1: CatalogModel,
    key: Seq<char>,
    f: Seq<Seq<char>>,
) -> bool {
    &&& t1.master == t0.master
    &&& t1.books == t0.books
    &&& (t1.articles == t0.articles || t1.articles == articles_after_update(t0.articles, key, f))
    &&& (t1.publishers == t0.publishers || exists|p: Seq<char>| #![auto]
        id_ok(p) && t1.publishers == t0.publishers.insert(p, publisher_row_built(f, p)))
    &&& (t1.month_years == t0.month_years || exists|y: Seq<char>| #![auto]
        id_ok(y) && t1.month_years == t0.month_years.insert(y, month_year_row_built(f, y)))
}

/// Reading one row back by its key, for the row types that feed an edit
/// form.
pub trait RowSelect {
    /// What the select returns over the store model: the row's editable
    /// fields in form order, or nothing when no row carries the key.
    spec fn selected_fields(t: CatalogModel, key: Seq<char>) -> Seq<Seq<char>>;

    /// The editable fields of the row keyed by `item_id`, ready to be fed
    /// into an edit form and back into an update.
    fn select(store: &Catalog, item_id: &str) -> (r: Result<Vec<String>, StoreError>)
        ensures
            r matches Ok(v) ==> v.deep_view() == Self::selected_fields(store@, item_id@),
    ;
}

impl RowSelect for Book {
    open spec fn selected_fields(t: CatalogModel, key: Seq<char>) -> Seq<Seq<char>> {
        if t.books.contains_key(key) {
            book_fields_of(t.books[key])
        } else {
            Seq::empty()
        }
    }

    fn select(store: &Catalog, item_id: &str) -> (r: Result<Vec<String>, StoreError>) {
        let r = Book::select(store, item_id);
        proof {
            if r is Ok {
                let v = r->Ok_0;
                if !store@.books.contains_key(item_id@) {
                    assert(v.deep_view() =~= Seq::<Seq<char>>::empty());
                }
            }
        }
        r
    }
}

impl RowSelect for Article {
    open spec fn selected_fields(t: CatalogModel, key: Seq<char>) -> Seq<Seq<char>> {
        if t.articles.contains_key(key) {
            article_fields_of(t.articles[key])
        } else {
            Seq::empty()
        }
    }

    fn select(store: &Catalog, item_id: &str) -> (r: Result<Vec<String>, StoreError>) {
        let r = Article::select(store, item_id);
        proof {
            if r is Ok {
                let v = r->Ok_0;
                if !store@.articles.contains_key(item_id@) {
                    assert(v.deep_view() =~= Seq::<Seq<char>>::empty());
                }
            }
        }
        r
    }
}

/// The fixed texts this crate stores — the two entry types, the default
/// month and the placeholder address — are storable.
pub proof fn lemma_literals_text_ok()
    ensures
        text_ok("BOOK"@),
        text_ok("ARTICLE"@),
        text_ok("n/a"@),
        text_ok("01"@),
{
    reveal_strlit("BOOK");
    reveal_strlit("ARTICLE");
    reveal_strlit("n/a");
    reveal_strlit("01");
}

impl Book {
    /// Create a book entry from the positional form fields and add its
    /// whole record group to the store: a master row, the book row, a
    /// publisher row and a month/year row, inserted in that order as four
    /// independent statements.  There is no rollback: if a later insert
    /// fails, the earlier rows stay ([`book_create_partial`] says exactly
    /// what can remain).  Returns the new entry's `cite_key`.
    pub fn book_transaction(store: &mut Catalog, textarea: Vec<String>) -> (r: Result<
        String,
        StoreError,
    >)
        requires
            textarea@.len() >= 9,
            fields_ok(textarea.deep_view(), 9),
        ensures
            r matches Ok(key) ==> id_ok(key@) && book_created(
                old(store)@,
                final(store)@,
                key@,
                textarea.deep_view(),
            ),
            r is Err ==> book_create_partial(old(store)@, final(store)@, textarea.deep_view()),
    {
        proof {
            lemma_literals_text_ok();
            lemma_vec_string_deep_view(&textarea);
            assert forall|i: int| 0 <= i < 9 implies text_ok(#[trigger] textarea@[i]@) by {
                assert(textarea.deep_view()[i] == textarea@[i]@);
            }
        }
        let ghost t0 = store@;
        let ghost f = textarea.deep_view();
        let master = MasterEntries::new_book();
        let publisher = Publisher::new(textarea[7].clone());
        let year = textarea[5].clone();
        let m_y = MonthYear::new(year);
        let book_id = fresh_id();
        let ghost key_g = master.cite_key@;
        let ghost bid_g = book_id@;
        let ghost pid_g = publisher.publisher_id@;
        let ghost myid_g = m_y.month_year_id@;
        let book = Book {
            book_id,
            cite_key: master.cite_key.clone(),
            publisher_id: publisher.publisher_id.clone(),
            month_year_id: m_y.month_year_id.clone(),
            author: textarea[0].clone(),
            title: textarea[1].clone(),
            pages: textarea[2].clone(),
            volume: textarea[3].clone(),
            edition: textarea[4].clone(),
            year: textarea[5].clone(),
            series: textarea[6].clone(),
            publisher: textarea[7].clone(),
            note: textarea[8].clone(),
        };
        if let Err(e) = master.insert(store) {
            return Err(e);
        }
        if let Err(e) = book.insert(store) {
            return Err(e);
        }
        if let Err(e) = publisher.insert(store) {
            return Err(e);
        }
        if let Err(e) = m_y.insert(store) {
            return Err(e);
        }
        proof {
            assert(book_created_with(t0, store@, key_g, bid_g, pid_g, myid_g, f));
        }
        Ok(master.cite_key)
    }

    /// Remove the book entry keyed by `item_id`: its master row and its
    /// book row.  The publisher and month/year rows minted with it stay in
    /// the store for good — the documented leak of the protocol.  If the
    /// second delete fails, the master row is already gone.
    pub fn delete_book(store: &mut Catalog, item_id: String) -> (r: Result<(), StoreError>)
        ensures
            r is Ok ==> book_deleted(old(store)@, final(store)@, item_id@),
            r is Err ==> final(store)@ == old(store)@ || final(store)@ == with_master(
                old(store)@,
                old(store)@.master.remove(item_id@),
            ),
    {
        MasterEntries::delete(store, item_id.clone())?;
        Book::delete(store, item_id)?;
        Ok(())
    }

    /// Rewrite the editable fields of the book entry keyed by `item_id`
    /// from the positional form fields.  The entry's key and identifier
    /// columns are untouched; as in the source protocol, a fresh publisher
    /// row and month/year row are minted alongside and left unreferenced.
    pub fn book_update(store: &mut Catalog, textarea: Vec<String>, item_id: String) -> (r: Result<
        (),
        StoreError,
    >)
        requires
            textarea@.len() >= 9,
            fields_ok(textarea.deep_view(), 9),
        ensures
            r is Ok ==> book_updated(old(store)@, final(store)@, item_id@, textarea.deep_view()),
            r is Err ==> book_update_partial(
                old(store)@,
                final(store)@,
                item_id@,
                textarea.deep_view(),
            ),
    {
        proof {
            lemma_literals_text_ok();
            lemma_vec_string_deep_view(&textarea);
            assert forall|i: int| 0 <= i < 9 implies text_ok(#[trigger] textarea@[i]@) by {
                assert(textarea.deep_view()[i] == textarea@[i]@);
            }
        }
        let ghost t0 = store@;
        let ghost f = textarea.deep_view();
        let publisher = Publisher::new(textarea[7].clone());
        let m_y = MonthYear::new(textarea[5].clone());
        let ghost pid_g = publisher.publisher_id@;
        let ghost myid_g = m_y.month_year_id@;
        let book = Book {
            book_id: item_id.clone(),
            cite_key: "n/a".to_string(),
            publisher_id: "n/a".to_string(),
            month_year_id: "n/a".to_string(),
            author: textarea[0].clone(),
            title: textarea[1].clone(),
            pages: textarea[2].clone(),
            volume: textarea[3].clone(),
            edition: textarea[4].clone(),
            year: textarea[5].clone(),
            series: textarea[6].clone(),
            publisher: textarea[7].clone(),
            note: textarea[8].clone(),
        };
        if let Err(e) = book.update(store, item_id.clone()) {
            return Err(e);
        }
        if let Err(e) = publisher.insert(store) {
            return Err(e);
        }
        if let Err(e) = m_y.insert(store) {
            return Err(e);
        }
        proof {
            assert(book_updated_with(t0, store@, item_id@, pid_g, myid_g, f));
        }
        Ok(())
    }
}

impl Article {
    /// Create an article entry from the positional form fields and add its
    /// whole record group to the store, as [`Book::book_transaction`] does
    /// for books.
    pub fn article_transaction(store: &mut Catalog, textarea: Vec<String>) -> (r: Result<
        String,
        StoreError,
    >)
        requires
            textarea@.len() >= 8,
            fields_ok(textarea.deep_view(), 8),
        ensures
            r matches Ok(key) ==> id_ok(key@) && article_created(
                old(store)@,
                final(store)@,
                key@,
                textarea.deep_view(),
            ),
            r is Err ==> article_create_partial(old(store)@, final(store)@, textarea.deep_view()),
    {
        proof {
            lemma_literals_text_ok();
            lemma_vec_string_deep_view(&textarea);
            assert forall|i: int| 0 <= i < 8 implies text_ok(#[trigger] textarea@[i]@) by {
                assert(textarea.deep_view()[i] == textarea@[i]@);
            }
        }
        let ghost t0 = store@;
        let ghost f = textarea.deep_view();
        let master = MasterEntries::new_article();
        let publisher = Publisher::new(textarea[7].clone());
        let year = textarea[5].clone();
        let m_y = MonthYear::new(year);
        let article_id = fresh_id();
        let ghost key_g = master.cite_key@;
        let ghost aid_g = article_id@;
        let ghost pid_g = publisher.publisher_id@;
        let ghost myid_g = m_y.month_year_id@;
        let article = Article {
            cite_key: master.cite_key.clone(),
            article_id,
            publisher_id: publisher.publisher_id.clone(),
            month_year_id: m_y.month_year_id.clone(),
            title: textarea[0].clone(),
            journal: textarea[1].clone(),
            volume: textarea[2].clone(),
            pages: textarea[3].clone(),
            note: textarea[4].clone(),
            year: textarea[5].clone(),
            edition: textarea[6].clone(),
            publisher: textarea[7].clone(),
        };
        if let Err(e) = master.insert(store) {
            return Err(e);
        }
        if let Err(e) = article.insert(store) {
            return Err(e);
        }
        if let Err(e) = publisher.insert(store) {
            return Err(e);
        }
        if let Err(e) = m_y.insert(store) {
            return Err(e);
        }
        proof {
            assert(article_created_with(t0, store@, key_g, aid_g, pid_g, myid_g, f));
        }
        Ok(master.cite_key)
    }

    /// Remove the article entry keyed by `item_id`: its master row and its
    /// article row, leaving its publisher and month/year rows behind.
    pub fn delete_article(store: &mut Catalog, item_id: String) -> (r: Result<(), StoreError>)
        ensures
            r is Ok ==> article_deleted(old(store)@, final(store)@, item_id@),
            r is Err ==> final(store)@ == old(store)@ || final(store)@ == with_master(
                old(store)@,
                old(store)@.master.remove(item_id@),
            ),
    {
        MasterEntries::delete(store, item_id.clone())?;
        Article::delete(store, item_id)?;
        Ok(())
    }

    /// Rewrite the editable fields of the article entry keyed by
    /// `item_id`, minting the same pair of unreferenced publisher and
    /// month/year rows a book update mints.
    pub fn article_update(store: &mut Catalog, textarea: Vec<String>, item_id: String) -> (r:
        Result<(), StoreError>)
        requires
            textarea@.len() >= 8,
            fields_ok(textarea.deep_view(), 8),
        ensures
            r is Ok ==> article_updated(
                old(store)@,
                final(store)@,
                item_id@,
                textarea.deep_view(),
            ),
            r is Err ==> article_update_partial(
                old(store)@,
                final(store)@,
                item_id@,
                textarea.deep_view(),
            ),
    {
        proof {
            lemma_literals_text_ok();
            lemma_vec_string_deep_view(&textarea);
            assert forall|i: int| 0 <= i < 8 implies text_ok(#[trigger] textarea@[i]@) by {
                assert(textarea.deep_view()[i] == textarea@[i]@);
            }
        }
        let ghost t0 = store@;
        let ghost f = textarea.deep_view();
        let publisher = Publisher::new(textarea[7].clone());
        let m_y = MonthYear::new(textarea[5].clone());
        let ghost pid_g = publisher.publisher_id@;
        let ghost myid_g = m_y.month_year_id@;
        let article = Article {
            cite_key: "n/a".to_string(),
            article_id: item_id.clone(),
            publisher_id: "n/a".to_string(),
            month_year_id: "n/a".to_string(),
            title: textarea[0].clone(),
            journal: textarea[1].clone(),
            volume: textarea[2].clone(),
            pages: textarea[3].clone(),
            note: textarea[4].clone(),
            year: textarea[5].clone(),
            edition: textarea[6].clone(),
            publisher: textarea[7].clone(),
        };
        if let Err(e) = article.update(store, item_id.clone()) {
            return Err(e);
        }
        if let Err(e) = publisher.insert(store) {
            return Err(e);
        }
        if let Err(e) = m_y.insert(store) {
            return Err(e);
        }
        proof {
            assert(article_updated_with(t0, store@, item_id@, pid_g, myid_g, f));
        }
        Ok(())
    }
}

} // verus!
