//! The laws of the persistence protocol, proved once and for all over the
//! catalog model.
//!
//! Each lemma here relates the postconditions of the record-group
//! operations in [`crate::db`]: what a creation leaves behind, what a
//! round trip through create-then-select returns, and what an update may
//! and may not touch.  The cursor's own laws stand beside the cursor in
//! [`crate::cursor`].

use vstd::prelude::*;

use crate::db::{article_created, article_created_with, article_deleted, article_fields_of,
    article_updated, article_updated_with, book_created, book_created_with, book_deleted,
    book_fields_of, book_updated, book_updated_with};
use crate::store::CatalogModel;

verus! {

/// Round trip: creating a book entry from a field vector and then reading
/// the entry back by its `cite_key` yields exactly the first nine fields,
/// in the same order — which is what `Book::select` returns for `key`
/// after the creation.
pub proof fn lemma_book_round_trip(
    t0: CatalogModel,
    t1: CatalogModel,
    key: Seq<char>,
    f: Seq<Seq<char>>,
)
    requires
        f.len() >= 9,
        book_created(t0, t1, key, f),
    ensures
        t1.books.contains_key(key),
        book_fields_of(t1.books[key]) == f.subrange(0, 9),
{
    let (bid, pid, myid) = choose|bid: Seq<char>, pid: Seq<char>, myid: Seq<char>|
        book_created_with(t0, t1, key, bid, pid, myid, f);
    assert(book_fields_of(t1.books[key]) =~= f.subrange(0, 9));
}

/// Round trip for articles: the first eight fields come back, in order.
pub proof fn lemma_article_round_trip(
    t0: CatalogModel,
    t1: CatalogModel,
    key: Seq<char>,
    f: Seq<Seq<char>>,
)
    requires
        f.len() >= 8,
        article_created(t0, t1, key, f),
    ensures
        t1.articles.contains_key(key),
        article_fields_of(t1.articles[key]) == f.subrange(0, 8),
{
    let (aid, pid, myid) = choose|aid: Seq<char>, pid: Seq<char>, myid: Seq<char>|
        article_created_with(t0, t1, key, aid, pid, myid, f);
    assert(article_fields_of(t1.articles[key]) =~= f.subrange(0, 8));
}

/// Lifecycle of a book entry: right after creation its `cite_key` is in
/// the master table (typed BOOK) and in the book table, and the article
/// table is untouched; right after deletion no row in either table
/// carries that key any more.
pub proof fn lemma_book_lifecycle_rows(
    t0: CatalogModel,
    t1: CatalogModel,
    t2: CatalogModel,
    key: Seq<char>,
    f: Seq<Seq<char>>,
)
    requires
        book_created(t0, t1, key, f),
        book_deleted(t1, t2, key),
    ensures
        t1.master.contains_key(key) && t1.master[key] == "BOOK"@,
        t1.books.contains_key(key) && t1.books[key].cite_key == key,
        t1.articles == t0.articles,
        !t2.master.contains_key(key),
        !t2.books.contains_key(key),
        t2.articles == t0.articles,
{
    let (bid, pid, myid) = choose|bid: Seq<char>, pid: Seq<char>, myid: Seq<char>|
        book_created_with(t0, t1, key, bid, pid, myid, f);
}

/// Lifecycle of an article entry, as [`lemma_book_lifecycle_rows`] for
/// books.
pub proof fn lemma_article_lifecycle_rows(
    t0: CatalogModel,
    t1: CatalogModel,
    t2: CatalogModel,
    key: Seq<char>,
    f: Seq<Seq<char>>,
)
    requires
        article_created(t0, t1, key, f),
        article_deleted(t1, t2, key),
    ensures
        t1.master.contains_key(key) && t1.master[key] == "ARTICLE"@,
        t1.articles.contains_key(key) && t1.articles[key].cite_key == key,
        t1.books == t0.books,
        !t2.master.contains_key(key),
        !t2.articles.contains_key(key),
        t2.books == t0.books,
{
    let (aid, pid, myid) = choose|aid: Seq<char>, pid: Seq<char>, myid: Seq<char>|
        article_created_with(t0, t1, key, aid, pid, myid, f);
}

/// Issued cite keys never repeat: whatever kinds the two entries are, a
/// creation only succeeds on a key the master table does not hold yet, and
/// the earlier entry's key is already there.
pub proof fn lemma_issued_keys_distinct(
    t0: CatalogModel,
    t1: CatalogModel,
    t2: CatalogModel,
    k1: Seq<char>,
    f1: Seq<Seq<char>>,
    k2: Seq<char>,
    f2: Seq<Seq<char>>,
)
    requires
        book_created(t0, t1, k1, f1) || article_created(t0, t1, k1, f1),
        book_created(t1, t2, k2, f2) || article_created(t1, t2, k2, f2),
    ensures
        k2 != k1,
{
    if book_created(t0, t1, k1, f1) {
        let (bid, pid, myid) = choose|bid: Seq<char>, pid: Seq<char>, myid: Seq<char>|
            book_created_with(t0, t1, k1, bid, pid, myid, f1);
    } else {
        let (aid, pid, myid) = choose|aid: Seq<char>, pid: Seq<char>, myid: Seq<char>|
            article_created_with(t0, t1, k1, aid, pid, myid, f1);
    }
    assert(t1.master.contains_key(k1));
    if book_created(t1, t2, k2, f2) {
        let (bid, pid, myid) = choose|bid: Seq<char>, pid: Seq<char>, myid: Seq<char>|
            book_created_with(t1, t2, k2, bid, pid, myid, f2);
    } else {
        let (aid, pid, myid) = choose|aid: Seq<char>, pid: Seq<char>, myid: Seq<char>|
            article_created_with(t1, t2, k2, aid, pid, myid, f2);
    }
    assert(!t1.master.contains_key(k2));
}

/// An update changes exactly the editable fields of the targeted book
/// row: its key and identifier columns are unchanged, every other row of
/// the book table is unchanged, no row appears or disappears, and the
/// master and article tables are untouched.
pub proof fn lemma_book_update_targets_only(
    t0: CatalogModel,
    t1: CatalogModel,
    key: Seq<char>,
    f: Seq<Seq<char>>,
)
    requires
        f.len() >= 9,
        t0.books.contains_key(key),
        book_updated(t0, t1, key, f),
    ensures
        t1.master == t0.master,
        t1.articles == t0.articles,
        t1.books.dom() == t0.books.dom(),
        t1.books[key].cite_key == t0.books[key].cite_key,
        t1.books[key].book_id == t0.books[key].book_id,
        t1.books[key].publisher_id == t0.books[key].publisher_id,
        t1.books[key].month_year_id == t0.books[key].month_year_id,
        book_fields_of(t1.books[key]) == f.subrange(0, 9),
        forall|k: Seq<char>|
            t0.books.contains_key(k) && k != key ==> t1.books[k] == t0.books[k],
{
    let (pid, myid) = choose|pid: Seq<char>, myid: Seq<char>|
        book_updated_with(t0, t1, key, pid, myid, f);
    assert(t1.books.dom() =~= t0.books.dom());
    assert(book_fields_of(t1.books[key]) =~= f.subrange(0, 9));
}

/// An update changes exactly the editable fields of the targeted article
/// row, as [`lemma_book_update_targets_only`] for books.
pub proof fn lemma_article_update_targets_only(
    t0: CatalogModel,
    t1: CatalogModel,
    key: Seq<char>,
    f: Seq<Seq<char>>,
)
    requires
        f.len() >= 8,
        t0.articles.contains_key(key),
        article_updated(t0, t1, key, f),
    ensures
        t1.master == t0.master,
        t1.books == t0.books,
        t1.articles.dom() == t0.articles.dom(),
        t1.articles[key].cite_key == t0.articles[key].cite_key,
        t1.articles[key].article_id == t0.articles[key].article_id,
        t1.articles[key].publisher_id == t0.articles[key].publisher_id,
        t1.articles[key].month_year_id == t0.articles[key].month_year_id,
        article_fields_of(t1.articles[key]) == f.subrange(0, 8),
        forall|k: Seq<char>|
            t0.articles.contains_key(k) && k != key ==> t1.articles[k] == t0.articles[k],
{
    let (pid, myid) = choose|pid: Seq<char>, myid: Seq<char>|
        article_updated_with(t0, t1, key, pid, myid, f);
    assert(t1.articles.dom() =~= t0.articles.dom());
    assert(article_fields_of(t1.articles[key]) =~= f.subrange(0, 8));
}

} // verus!
