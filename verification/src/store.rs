//! The trusted boundary between the verified catalog logic and the SQLite
//! store.
//!
//! The five tables of an open store are modelled as maps keyed by their
//! primary-key column ([`master_table`] and friends); every statement that
//! the crate issues is wrapped in one `external_body` function here whose
//! contract says, over those maps, what the statement does.  Everything
//! above this module is verified against these contracts.
//!
//! Two facts about the `sqlite` crate shape the contracts:
//! * every wrapper runs a single SQL statement, and a single statement
//!   either takes effect entirely or (on an error) not at all, so each
//!   wrapper promises "unchanged" on `Err`;
//! * text columns are read back as C strings, so a value holding a NUL
//!   character would be cut short on the way out.  Writers therefore
//!   require [`text_ok`] of everything they bind, which keeps the tables
//!   faithful to the model.

use vstd::prelude::*;

use crate::db::{article_fields_of, article_row_ok, article_with_fields, book_fields_of,
    book_row_ok, book_with_fields, fields_ok, month_year_row_ok, publisher_row_ok, text_ok, Article,
    ArticleRow, Book, BookRow, MonthYear, MonthYearRow, Publisher, PublisherRow};

verus! {

/// The sqlite connection type, opaque to the verifier; rows reached through
/// it are spoken of via [`master_table`] and the other table functions.
#[verifier::external_type_specification]
#[verifier::external_body]
pub struct ExConnection(sqlite::Connection);

/// The rows of the `master_entries` table reachable through a connection,
/// keyed by `cite_key` (its primary key); each value is the `entry_type`
/// column of the row.
pub uninterp spec fn master_table(c: sqlite::Connection) -> Map<Seq<char>, Seq<char>>;

/// The rows of the `book` table, keyed by `cite_key` — the column every
/// statement of this crate matches on, and which the schema that
/// [`Catalog::open`] lays down declares UNIQUE, so the table is a map.
pub uninterp spec fn book_table(c: sqlite::Connection) -> Map<Seq<char>, BookRow>;

/// The rows of the `article` table, keyed by its UNIQUE `cite_key`.
pub uninterp spec fn article_table(c: sqlite::Connection) -> Map<Seq<char>, ArticleRow>;

/// The rows of the `publisher` table, keyed by `publisher_id`.
pub uninterp spec fn publisher_table(c: sqlite::Connection) -> Map<Seq<char>, PublisherRow>;

/// The rows of the `month_year` table, keyed by `month_year_id`.
pub uninterp spec fn month_year_table(c: sqlite::Connection) -> Map<Seq<char>, MonthYearRow>;

/// The five tables of one open store, as one mathematical value.
#[verifier::ext_equal]
pub struct CatalogModel {
    pub master: Map<Seq<char>, Seq<char>>,
    pub books: Map<Seq<char>, BookRow>,
    pub articles: Map<Seq<char>, ArticleRow>,
    pub publishers: Map<Seq<char>, PublisherRow>,
    pub month_years: Map<Seq<char>, MonthYearRow>,
}

/// The model of everything reachable through a connection.
pub open spec fn tables(c: sqlite::Connection) -> CatalogModel {
    CatalogModel {
        master: master_table(c),
        books: book_table(c),
        articles: article_table(c),
        publishers: publisher_table(c),
        month_years: month_year_table(c),
    }
}

/// `t` with its `master` table replaced.
pub open spec fn with_master(t: CatalogModel, m: Map<Seq<char>, Seq<char>>) -> CatalogModel {
    CatalogModel { master: m, ..t }
}

/// `t` with its `book` table replaced.
pub open spec fn with_books(t: CatalogModel, m: Map<Seq<char>, BookRow>) -> CatalogModel {
    CatalogModel { books: m, ..t }
}

/// `t` with its `article` table replaced.
pub open spec fn with_articles(t: CatalogModel, m: Map<Seq<char>, ArticleRow>) -> CatalogModel {
    CatalogModel { articles: m, ..t }
}

/// `t` with its `publisher` table replaced.
pub open spec fn with_publishers(t: CatalogModel, m: Map<Seq<char>, PublisherRow>) -> CatalogModel {
    CatalogModel { publishers: m, ..t }
}

/// `t` with its `month_year` table replaced.
pub open spec fn with_month_years(t: CatalogModel, m: Map<Seq<char>, MonthYearRow>) -> CatalogModel {
    CatalogModel { month_years: m, ..t }
}

/// What went wrong in the store; see the error-handling taxonomy in the
/// crate documentation.  The text, when the store offers one, is its own
/// message.
#[derive(Clone, Debug)]
pub enum StoreError {
    /// The store could not be opened, or its schema could not be ensured.
    Open(Option<String>),
    /// Preparing, binding or running one statement failed.
    Statement(Option<String>),
}

/// An open catalog store: one connection to the database that holds the
/// five tables.  Constructed by [`Catalog::open`], which also ensures the
/// schema, and owned exclusively by the session that uses it.
pub struct Catalog {
    /// The one connection to the store.  It is only here so that the view
    /// of the catalog can be stated over it; nothing outside this crate
    /// has a reason to touch it.
    pub conn: sqlite::Connection,
}

impl View for Catalog {
    type V = CatalogModel;

    open spec fn view(&self) -> CatalogModel {
        tables(self.conn)
    }
}

/// Relies on `sqlite::open` and `Connection::execute`: opens (creating it
/// if missing) the database at `path` and ensures the five tables exist,
/// each with its key column declared UNIQUE — the table models above are
/// maps because of these constraints.  Nothing is assumed about the rows
/// an existing store already holds.
#[verifier::external_body]
fn raw_open(path: &str) -> (r: Result<Catalog, StoreError>) {
    let conn = sqlite::open(path).map_err(|e| StoreError::Open(e.message))?;
    conn.execute("CREATE TABLE IF NOT EXISTS master_entries (cite_key TEXT PRIMARY KEY NOT NULL, entry_type TEXT NOT NULL); CREATE TABLE IF NOT EXISTS book (book_id TEXT PRIMARY KEY NOT NULL, cite_key TEXT UNIQUE, publisher_id TEXT, month_year_id TEXT, author TEXT, title TEXT, pages TEXT, volume TEXT, edition TEXT, year TEXT, series TEXT, publisher TEXT, note TEXT); CREATE TABLE IF NOT EXISTS article (cite_key TEXT UNIQUE, article_id TEXT PRIMARY KEY NOT NULL, publisher_id TEXT, month_year_id TEXT, title TEXT, journal TEXT, volume TEXT, pages TEXT, note TEXT, year TEXT, edition TEXT, publisher TEXT); CREATE TABLE IF NOT EXISTS publisher (publisher_id TEXT PRIMARY KEY NOT NULL, publisher TEXT, address TEXT); CREATE TABLE IF NOT EXISTS month_year (month_year_id TEXT PRIMARY KEY NOT NULL, month TEXT, year TEXT);")
        .map_err(|e| StoreError::Open(e.message))?;
    Ok(Catalog { conn })
}

impl Catalog {
    /// Open the store at `path` (`":memory:"` for a private, empty one) and
    /// make sure the five tables exist.  A failure here is fatal to the
    /// session: there is nothing to retry.
    pub fn open(path: &str) -> Result<Catalog, StoreError> {
        raw_open(path)
    }
}

/// Relies on `Connection::prepare`, `Statement::bind` and
/// `Statement::next`: one INSERT of one row into `master_entries`.  The
/// `cite_key` column is the table's primary key, so the insert succeeds
/// only if no row carried this key.
#[verifier::external_body]
pub(crate) fn raw_insert_master(c: &mut sqlite::Connection, key: &str, etype: &str) -> (r: Result<
    (),
    StoreError,
>)
    requires
        text_ok(key@),
        text_ok(etype@),
    ensures
        r is Ok ==> !master_table(*old(c)).contains_key(key@),
        r is Ok ==> tables(*final(c)) == with_master(
            tables(*old(c)),
            master_table(*old(c)).insert(key@, etype@),
        ),
        r is Err ==> tables(*final(c)) == tables(*old(c)),
{
    let mut st = c.prepare("INSERT INTO master_entries VALUES (?, ?)")
        .map_err(|e| StoreError::Statement(e.message))?;
    st.bind((1, key)).map_err(|e| StoreError::Statement(e.message))?;
    st.bind((2, etype)).map_err(|e| StoreError::Statement(e.message))?;
    st.next().map_err(|e| StoreError::Statement(e.message))?;
    Ok(())
}

/// Relies on `Connection::prepare`, `Statement::bind` and
/// `Statement::next`: one INSERT of one row into `book`, binding the
/// thirteen columns in table order.  The `cite_key` column is UNIQUE, so
/// the insert succeeds only if no row carried this key.
#[verifier::external_body]
pub(crate) fn raw_insert_book(c: &mut sqlite::Connection, b: &Book) -> (r: Result<(), StoreError>)
    requires
        book_row_ok(b@),
    ensures
        r is Ok ==> !book_table(*old(c)).contains_key(b.cite_key@),
        r is Ok ==> tables(*final(c)) == with_books(
            tables(*old(c)),
            book_table(*old(c)).insert(b.cite_key@, b@),
        ),
        r is Err ==> tables(*final(c)) == tables(*old(c)),
{
    let mut st = c.prepare("INSERT INTO book VALUES (?, ?, ?, ?, ?, ?, ?, ?, ?, ?, ?, ?, ?)")
        .map_err(|e| StoreError::Statement(e.message))?;
    let vals = [&b.book_id, &b.cite_key, &b.publisher_id, &b.month_year_id, &b.author, &b.title,
        &b.pages, &b.volume, &b.edition, &b.year, &b.series, &b.publisher, &b.note];
    for (i, v) in vals.iter().enumerate() {
        st.bind((i + 1, v.as_str())).map_err(|e| StoreError::Statement(e.message))?;
    }
    st.next().map_err(|e| StoreError::Statement(e.message))?;
    Ok(())
}

/// Relies on `Connection::prepare`, `Statement::bind` and
/// `Statement::next`: one INSERT of one row into `article`, binding the
/// twelve columns in table order.  The `cite_key` column is UNIQUE, so
/// the insert succeeds only if no row carried this key.
#[verifier::external_body]
pub(crate) fn raw_insert_article(c: &mut sqlite::Connection, a: &Article) -> (r: Result<
    (),
    StoreError,
>)
    requires
        article_row_ok(a@),
    ensures
        r is Ok ==> !article_table(*old(c)).contains_key(a.cite_key@),
        r is Ok ==> tables(*final(c)) == with_articles(
            tables(*old(c)),
            article_table(*old(c)).insert(a.cite_key@, a@),
        ),
        r is Err ==> tables(*final(c)) == tables(*old(c)),
{
    let mut st = c.prepare("INSERT INTO article VALUES (?, ?, ?, ?, ?, ?, ?, ?, ?, ?, ?, ?)")
        .map_err(|e| StoreError::Statement(e.message))?;
    let vals = [&a.cite_key, &a.article_id, &a.publisher_id, &a.month_year_id, &a.title,
        &a.journal, &a.volume, &a.pages, &a.note, &a.year, &a.edition, &a.publisher];
    for (i, v) in vals.iter().enumerate() {
        st.bind((i + 1, v.as_str())).map_err(|e| StoreError::Statement(e.message))?;
    }
    st.next().map_err(|e| StoreError::Statement(e.message))?;
    Ok(())
}

/// Relies on `Connection::prepare`, `Statement::bind` and
/// `Statement::next`: one INSERT of one row into `publisher`, whose
/// `publisher_id` is the primary key.
#[verifier::external_body]
pub(crate) fn raw_insert_publisher(c: &mut sqlite::Connection, p: &Publisher) -> (r: Result<
    (),
    StoreError,
>)
    requires
        publisher_row_ok(p@),
    ensures
        r is Ok ==> !publisher_table(*old(c)).contains_key(p.publisher_id@),
        r is Ok ==> tables(*final(c)) == with_publishers(
            tables(*old(c)),
            publisher_table(*old(c)).insert(p.publisher_id@, p@),
        ),
        r is Err ==> tables(*final(c)) == tables(*old(c)),
{
    let mut st = c.prepare("INSERT INTO publisher VALUES (?, ?, ?)")
        .map_err(|e| StoreError::Statement(e.message))?;
    st.bind((1, p.publisher_id.as_str())).map_err(|e| StoreError::Statement(e.message))?;
    st.bind((2, p.publisher.as_str())).map_err(|e| StoreError::Statement(e.message))?;
    st.bind((3, p.address.as_str())).map_err(|e| StoreError::Statement(e.message))?;
    st.next().map_err(|e| StoreError::Statement(e.message))?;
    Ok(())
}

/// Relies on `Connection::prepare`, `Statement::bind` and
/// `Statement::next`: one INSERT of one row into `month_year`, whose
/// `month_year_id` is the primary key.
#[verifier::external_body]
pub(crate) fn raw_insert_month_year(c: &mut sqlite::Connection, m: &MonthYear) -> (r: Result<
    (),
    StoreError,
>)
    requires
        month_year_row_ok(m@),
    ensures
        r is Ok ==> !month_year_table(*old(c)).contains_key(m.month_year_id@),
        r is Ok ==> tables(*final(c)) == with_month_years(
            tables(*old(c)),
            month_year_table(*old(c)).insert(m.month_year_id@, m@),
        ),
        r is Err ==> tables(*final(c)) == tables(*old(c)),
{
    let mut st = c.prepare("INSERT INTO month_year VALUES (?, ?, ?)")
        .map_err(|e| StoreError::Statement(e.message))?;
    st.bind((1, m.month_year_id.as_str())).map_err(|e| StoreError::Statement(e.message))?;
    st.bind((2, m.month.as_str())).map_err(|e| StoreError::Statement(e.message))?;
    st.bind((3, m.year.as_str())).map_err(|e| StoreError::Statement(e.message))?;
    st.next().map_err(|e| StoreError::Statement(e.message))?;
    Ok(())
}

/// Relies on `Connection::prepare`, `Statement::bind` and
/// `Statement::next`: one UPDATE that rewrites the nine editable columns of
/// the `book` rows whose `cite_key` equals `key`; when no row matches, the
/// statement matches nothing and the table stays as it was.
#[verifier::external_body]
pub(crate) fn raw_update_book(c: &mut sqlite::Connection, b: &Book, key: &str) -> (r: Result<
    (),
    StoreError,
>)
    requires
        fields_ok(book_fields_of(b@), 9),
    ensures
        r is Ok ==> tables(*final(c)) == with_books(
            tables(*old(c)),
            if book_table(*old(c)).contains_key(key@) {
                book_table(*old(c)).insert(
                    key@,
                    book_with_fields(book_table(*old(c))[key@], book_fields_of(b@)),
                )
            } else {
                book_table(*old(c))
            },
        ),
        r is Err ==> tables(*final(c)) == tables(*old(c)),
{
    let mut st = c.prepare("UPDATE book SET author = ?, title = ?, pages = ?, volume = ?, edition = ?, year = ?, series = ?, publisher = ?, note = ? WHERE cite_key = ?")
        .map_err(|e| StoreError::Statement(e.message))?;
    let vals = [&b.author, &b.title, &b.pages, &b.volume, &b.edition, &b.year, &b.series,
        &b.publisher, &b.note];
    for (i, v) in vals.iter().enumerate() {
        st.bind((i + 1, v.as_str())).map_err(|e| StoreError::Statement(e.message))?;
    }
    st.bind((10, key)).map_err(|e| StoreError::Statement(e.message))?;
    st.next().map_err(|e| StoreError::Statement(e.message))?;
    Ok(())
}

/// Relies on `Connection::prepare`, `Statement::bind` and
/// `Statement::next`: one UPDATE that rewrites the eight editable columns
/// of the `article` rows whose `cite_key` equals `key`.
#[verifier::external_body]
pub(crate) fn raw_update_article(c: &mut sqlite::Connection, a: &Article, key: &str) -> (r: Result<
    (),
    StoreError,
>)
    requires
        fields_ok(article_fields_of(a@), 8),
    ensures
        r is Ok ==> tables(*final(c)) == with_articles(
            tables(*old(c)),
            if article_table(*old(c)).contains_key(key@) {
                article_table(*old(c)).insert(
                    key@,
                    article_with_fields(article_table(*old(c))[key@], article_fields_of(a@)),
                )
            } else {
                article_table(*old(c))
            },
        ),
        r is Err ==> tables(*final(c)) == tables(*old(c)),
{
    let mut st = c.prepare("UPDATE article SET title = ?, journal = ?, volume = ?, pages = ?, note = ?, year = ?, edition = ?, publisher = ? WHERE cite_key = ?")
        .map_err(|e| StoreError::Statement(e.message))?;
    let vals = [&a.title, &a.journal, &a.volume, &a.pages, &a.note, &a.year, &a.edition,
        &a.publisher];
    for (i, v) in vals.iter().enumerate() {
        st.bind((i + 1, v.as_str())).map_err(|e| StoreError::Statement(e.message))?;
    }
    st.bind((9, key)).map_err(|e| StoreError::Statement(e.message))?;
    st.next().map_err(|e| StoreError::Statement(e.message))?;
    Ok(())
}

/// Relies on `Connection::prepare`, `Statement::bind` and
/// `Statement::next`: one DELETE of the `master_entries` rows whose
/// `cite_key` equals `key`.
#[verifier::external_body]
pub(crate) fn raw_delete_master(c: &mut sqlite::Connection, key: &str) -> (r: Result<
    (),
    StoreError,
>)
    ensures
        r is Ok ==> tables(*final(c)) == with_master(
            tables(*old(c)),
            master_table(*old(c)).remove(key@),
        ),
        r is Err ==> tables(*final(c)) == tables(*old(c)),
{
    let mut st = c.prepare("DELETE FROM master_entries WHERE cite_key = ?")
        .map_err(|e| StoreError::Statement(e.message))?;
    st.bind((1, key)).map_err(|e| StoreError::Statement(e.message))?;
    st.next().map_err(|e| StoreError::Statement(e.message))?;
    Ok(())
}

/// Relies on `Connection::prepare`, `Statement::bind` and
/// `Statement::next`: one DELETE of the `book` rows whose `cite_key`
/// equals `key`.
#[verifier::external_body]
pub(crate) fn raw_delete_book(c: &mut sqlite::Connection, key: &str) -> (r: Result<(), StoreError>)
    ensures
        r is Ok ==> tables(*final(c)) == with_books(
            tables(*old(c)),
            book_table(*old(c)).remove(key@),
        ),
        r is Err ==> tables(*final(c)) == tables(*old(c)),
{
    let mut st = c.prepare("DELETE FROM book WHERE cite_key = ?")
        .map_err(|e| StoreError::Statement(e.message))?;
    st.bind((1, key)).map_err(|e| StoreError::Statement(e.message))?;
    st.next().map_err(|e| StoreError::Statement(e.message))?;
    Ok(())
}

/// Relies on `Connection::prepare`, `Statement::bind` and
/// `Statement::next`: one DELETE of the `article` rows whose `cite_key`
/// equals `key`.
#[verifier::external_body]
pub(crate) fn raw_delete_article(c: &mut sqlite::Connection, key: &str) -> (r: Result<
    (),
    StoreError,
>)
    ensures
        r is Ok ==> tables(*final(c)) == with_articles(
            tables(*old(c)),
            article_table(*old(c)).remove(key@),
        ),
        r is Err ==> tables(*final(c)) == tables(*old(c)),
{
    let mut st = c.prepare("DELETE FROM article WHERE cite_key = ?")
        .map_err(|e| StoreError::Statement(e.message))?;
    st.bind((1, key)).map_err(|e| StoreError::Statement(e.message))?;
    st.next().map_err(|e| StoreError::Statement(e.message))?;
    Ok(())
}

/// Relies on `Connection::prepare`, `Statement::bind`, `Statement::next`
/// and `Statement::read`: one SELECT of the editable columns of the `book`
/// row whose `cite_key` equals `key`, in form order; the empty vector when
/// no row matches.  Values are read back as text.
#[verifier::external_body]
pub(crate) fn raw_select_book(c: &sqlite::Connection, key: &str) -> (r: Result<
    Vec<String>,
    StoreError,
>)
    ensures
        r matches Ok(v) ==> if book_table(*c).contains_key(key@) {
            v.deep_view() == book_fields_of(book_table(*c)[key@])
        } else {
            v@.len() == 0
        },
{
    let mut st = c.prepare("SELECT author, title, pages, volume, edition, year, series, publisher, note FROM book WHERE cite_key = ?")
        .map_err(|e| StoreError::Statement(e.message))?;
    st.bind((1, key)).map_err(|e| StoreError::Statement(e.message))?;
    let mut out: Vec<String> = Vec::new();
    loop {
        match st.next() {
            Ok(sqlite::State::Row) => {
                out.clear();
                for i in 0..9 { out.push(st.read::<String, _>(i).map_err(|e| StoreError::Statement(e.message))?); }
            }
            Ok(sqlite::State::Done) => return Ok(out),
            Err(e) => return Err(StoreError::Statement(e.message)),
        }
    }
}

/// Relies on `Connection::prepare`, `Statement::bind`, `Statement::next`
/// and `Statement::read`: one SELECT of the editable columns of the
/// `article` row whose `cite_key` equals `key`, in form order; the empty
/// vector when no row matches.
#[verifier::external_body]
pub(crate) fn raw_select_article(c: &sqlite::Connection, key: &str) -> (r: Result<
    Vec<String>,
    StoreError,
>)
    ensures
        r matches Ok(v) ==> if article_table(*c).contains_key(key@) {
            v.deep_view() == article_fields_of(article_table(*c)[key@])
        } else {
            v@.len() == 0
        },
{
    let mut st = c.prepare("SELECT title, journal, volume, pages, note, year, edition, publisher FROM article WHERE cite_key = ?")
        .map_err(|e| StoreError::Statement(e.message))?;
    st.bind((1, key)).map_err(|e| StoreError::Statement(e.message))?;
    let mut out: Vec<String> = Vec::new();
    loop {
        match st.next() {
            Ok(sqlite::State::Row) => {
                out.clear();
                for i in 0..8 { out.push(st.read::<String, _>(i).map_err(|e| StoreError::Statement(e.message))?); }
            }
            Ok(sqlite::State::Done) => return Ok(out),
            Err(e) => return Err(StoreError::Statement(e.message)),
        }
    }
}

/// Relies on `Connection::prepare`, `Statement::next` and
/// `Statement::read`: one full SELECT over `book`.  The rows come back in
/// whatever order the store walks the table, so the contract only says
/// that the vector enumerates the table: every element is a row, keys do
/// not repeat, and every row appears.
#[verifier::external_body]
pub(crate) fn raw_list_books(c: &sqlite::Connection) -> (r: Result<Vec<Book>, StoreError>)
    ensures
        r matches Ok(v) ==> {
            &&& v@.len() == book_table(*c).dom().len()
            &&& forall|i: int|
                0 <= i < v@.len() ==> book_table(*c).contains_key(#[trigger] v@[i]@.cite_key)
                    && book_table(*c)[v@[i]@.cite_key] == v@[i]@
            &&& forall|i: int, j: int|
                0 <= i < j < v@.len() ==> v@[i]@.cite_key != v@[j]@.cite_key
            &&& forall|k: Seq<char>|
                book_table(*c).contains_key(k) ==> exists|i: int|
                    0 <= i < v@.len() && #[trigger] v@[i]@.cite_key == k
        },
{
    let mut st = c.prepare("SELECT book_id, cite_key, publisher_id, month_year_id, author, title, pages, volume, edition, year, series, publisher, note FROM book")
        .map_err(|e| StoreError::Statement(e.message))?;
    let mut out: Vec<Book> = Vec::new();
    loop {
        match st.next() {
            Ok(sqlite::State::Row) => {
                let mut f: Vec<String> = Vec::new();
                for i in 0..13 { f.push(st.read::<String, _>(i).map_err(|e| StoreError::Statement(e.message))?); }
                out.push(Book::from_columns(&f));
            }
            Ok(sqlite::State::Done) => return Ok(out),
            Err(e) => return Err(StoreError::Statement(e.message)),
        }
    }
}

/// Relies on `Connection::prepare`, `Statement::next` and
/// `Statement::read`: one full SELECT over `article`, enumerating the
/// table as [`raw_list_books`] does for books.
#[verifier::external_body]
pub(crate) fn raw_list_articles(c: &sqlite::Connection) -> (r: Result<Vec<Article>, StoreError>)
    ensures
        r matches Ok(v) ==> {
            &&& v@.len() == article_table(*c).dom().len()
            &&& forall|i: int|
                0 <= i < v@.len() ==> article_table(*c).contains_key(#[trigger] v@[i]@.cite_key)
                    && article_table(*c)[v@[i]@.cite_key] == v@[i]@
            &&& forall|i: int, j: int|
                0 <= i < j < v@.len() ==> v@[i]@.cite_key != v@[j]@.cite_key
            &&& forall|k: Seq<char>|
                article_table(*c).contains_key(k) ==> exists|i: int|
                    0 <= i < v@.len() && #[trigger] v@[i]@.cite_key == k
        },
{
    let mut st = c.prepare("SELECT cite_key, article_id, publisher_id, month_year_id, title, journal, volume, pages, note, year, edition, publisher FROM article")
        .map_err(|e| StoreError::Statement(e.message))?;
    let mut out: Vec<Article> = Vec::new();
    loop {
        match st.next() {
            Ok(sqlite::State::Row) => {
                let mut f: Vec<String> = Vec::new();
                for i in 0..12 { f.push(st.read::<String, _>(i).map_err(|e| StoreError::Statement(e.message))?); }
                out.push(Article::from_columns(&f));
            }
            Ok(sqlite::State::Done) => return Ok(out),
            Err(e) => return Err(StoreError::Statement(e.message)),
        }
    }
}

/// Relies on `Connection::prepare`, `Statement::bind`, `Statement::next`
/// and `Statement::read`: one SELECT of the `entry_type` column of the
/// `master_entries` row whose `cite_key` equals `key`.
#[verifier::external_body]
pub(crate) fn raw_master_entry_type(c: &sqlite::Connection, key: &str) -> (r: Result<
    Option<String>,
    StoreError,
>)
    ensures
        r matches Ok(o) ==> match o {
            Some(t) => master_table(*c).contains_key(key@) && t@ == master_table(*c)[key@],
            None => !master_table(*c).contains_key(key@),
        },
{
    let mut st = c.prepare("SELECT entry_type FROM master_entries WHERE cite_key = ?")
        .map_err(|e| StoreError::Statement(e.message))?;
    st.bind((1, key)).map_err(|e| StoreError::Statement(e.message))?;
    match st.next() {
        Ok(sqlite::State::Row) => {
            Ok(Some(st.read::<String, _>(0).map_err(|e| StoreError::Statement(e.message))?))
        }
        Ok(sqlite::State::Done) => Ok(None),
        Err(e) => Err(StoreError::Statement(e.message)),
    }
}

/// Relies on `Connection::prepare`, `Statement::bind` and
/// `Statement::next`: one SELECT probing whether a `publisher` row with
/// this `publisher_id` exists.
#[verifier::external_body]
pub(crate) fn raw_has_publisher(c: &sqlite::Connection, id: &str) -> (r: Result<bool, StoreError>)
    ensures
        r matches Ok(b) ==> b == publisher_table(*c).contains_key(id@),
{
    let mut st = c.prepare("SELECT publisher_id FROM publisher WHERE publisher_id = ?")
        .map_err(|e| StoreError::Statement(e.message))?;
    st.bind((1, id)).map_err(|e| StoreError::Statement(e.message))?;
    match st.next() {
        Ok(sqlite::State::Row) => Ok(true),
        Ok(sqlite::State::Done) => Ok(false),
        Err(e) => Err(StoreError::Statement(e.message)),
    }
}

/// Relies on `Connection::prepare`, `Statement::bind` and
/// `Statement::next`: one SELECT probing whether a `month_year` row with
/// this `month_year_id` exists.
#[verifier::external_body]
pub(crate) fn raw_has_month_year(c: &sqlite::Connection, id: &str) -> (r: Result<bool, StoreError>)
    ensures
        r matches Ok(b) ==> b == month_year_table(*c).contains_key(id@),
{
    let mut st = c.prepare("SELECT month_year_id FROM month_year WHERE month_year_id = ?")
        .map_err(|e| StoreError::Statement(e.message))?;
    st.bind((1, id)).map_err(|e| StoreError::Statement(e.message))?;
    match st.next() {
        Ok(sqlite::State::Row) => Ok(true),
        Ok(sqlite::State::Done) => Ok(false),
        Err(e) => Err(StoreError::Statement(e.message)),
    }
}

impl Catalog {
    /// The `entry_type` of the master row for `cite_key`, or `None` when no
    /// entry with that key exists.
    pub fn master_entry_type(&self, cite_key: &str) -> (r: Result<Option<String>, StoreError>)
        ensures
            r matches Ok(o) ==> match o {
                Some(t) => self@.master.contains_key(cite_key@) && t@ == self@.master[cite_key@],
                None => !self@.master.contains_key(cite_key@),
            },
    {
        raw_master_entry_type(&self.conn, cite_key)
    }

    /// Whether a publisher row with this identifier exists.
    pub fn has_publisher(&self, publisher_id: &str) -> (r: Result<bool, StoreError>)
        ensures
            r matches Ok(b) ==> b == self@.publishers.contains_key(publisher_id@),
    {
        raw_has_publisher(&self.conn, publisher_id)
    }

    /// Whether a month/year row with this identifier exists.
    pub fn has_month_year(&self, month_year_id: &str) -> (r: Result<bool, StoreError>)
        ensures
            r matches Ok(b) ==> b == self@.month_years.contains_key(month_year_id@),
    {
        raw_has_month_year(&self.conn, month_year_id)
    }
}

} // verus!
