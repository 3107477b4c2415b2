use bib_catalog::db::{Article, Book, MasterEntries, MonthYear, Publisher};
use bib_catalog::db::{read_sqlite_article_table, read_sqlite_book_table};
use bib_catalog::store::{Catalog, StoreError};
use uuid::Uuid;

fn fresh_catalog() -> Catalog {
    Catalog::open(":memory:").expect("an in-memory store should open")
}

#[test]
fn new_book_master_entries() {
    let x = MasterEntries::new_book();
    assert_eq!(x.entry_type, "BOOK".to_string());
    let y = MasterEntries::new_book();
    assert_ne!(x.cite_key, y.cite_key);
}

#[test]
fn new_article_master_entries() {
    let x = MasterEntries::new_article();
    assert_eq!(x.entry_type, "ARTICLE".to_string());
    let y = MasterEntries::new_article();
    assert_ne!(x.cite_key, y.cite_key);
}

#[test]
fn insert_and_delete_master_entries() {
    let mut cat = fresh_catalog();
    let x = MasterEntries::new_book();
    let actual = x.insert(&mut cat);
    assert!(actual.is_ok());
    let result = cat.master_entry_type(&x.cite_key).unwrap().is_some();
    assert_eq!(result, true, "you are here");
    MasterEntries::delete(&mut cat, x.cite_key.clone()).unwrap();
    let result = cat.master_entry_type(&x.cite_key).unwrap().is_some();
    assert_eq!(result, false, "you are not here");
}

#[test]
fn insert_and_delete_new_book() {
    let mut cat = fresh_catalog();
    let book_textarea: Vec<String> = vec![
        "New Author".to_string(),
        "New Title".to_string(),
        "300 pages".to_string(),
        "Volume 1".to_string(),
        "1st edition".to_string(),
        "2023".to_string(),
        "New Series".to_string(),
        "New Publisher".to_string(),
        "New Note".to_string(),
    ];
    let b = Book {
        book_id: Uuid::new_v4().to_string(),
        cite_key: Uuid::new_v4().to_string(),
        publisher_id: Uuid::new_v4().to_string(),
        month_year_id: Uuid::new_v4().to_string(),
        author: book_textarea[0].clone(),
        title: book_textarea[1].clone(),
        pages: book_textarea[2].clone(),
        volume: book_textarea[3].clone(),
        edition: book_textarea[4].clone(),
        year: book_textarea[5].clone(),
        series: book_textarea[6].clone(),
        publisher: book_textarea[7].clone(),
        note: book_textarea[8].clone(),
    };

    let actual = b.insert(&mut cat);
    assert!(actual.is_ok());

    let result = !Book::select(&cat, &b.cite_key).unwrap().is_empty();
    assert_eq!(result, true, "you are here");

    let _ = Book::delete(&mut cat, b.cite_key.clone());
    let result = !Book::select(&cat, &b.cite_key).unwrap().is_empty();
    assert_eq!(result, false, "you are not here");
}

#[test]
fn select_and_update_book() {
    let mut cat = fresh_catalog();
    let book_textarea: Vec<String> = vec![
        "New Author".to_string(),
        "New Title".to_string(),
        "300 pages".to_string(),
        "Volume 1".to_string(),
        "1st edition".to_string(),
        "2023".to_string(),
        "New Series".to_string(),
        "New Publisher".to_string(),
        "New Note".to_string(),
    ];

    let b = Book {
        book_id: Uuid::new_v4().to_string(),
        cite_key: Uuid::new_v4().to_string(),
        publisher_id: Uuid::new_v4().to_string(),
        month_year_id: Uuid::new_v4().to_string(),
        author: book_textarea[0].clone(),
        title: book_textarea[1].clone(),
        pages: book_textarea[2].clone(),
        volume: book_textarea[3].clone(),
        edition: book_textarea[4].clone(),
        year: book_textarea[5].clone(),
        series: book_textarea[6].clone(),
        publisher: book_textarea[7].clone(),
        note: book_textarea[8].clone(),
    };
    let _ = b.insert(&mut cat);

    let new_book_textarea: Vec<String> = vec![
        "NewNew Author".to_string(),
        "NewNew Title".to_string(),
        "300 pages".to_string(),
        "Volume 1".to_string(),
        "1st edition".to_string(),
        "2024".to_string(),
        "NewNew Series".to_string(),
        "NewNew Publisher".to_string(),
        "NewNew Note".to_string(),
    ];
    let _ = Book::book_update(&mut cat, new_book_textarea, b.cite_key.clone());

    let found = Book::select(&cat, b.cite_key.as_str()).unwrap();
    assert_eq!(found[0], "NewNew Author".to_string());
    assert_eq!(found[1], "NewNew Title".to_string());
    assert_eq!(found[2], "300 pages".to_string());
    assert_eq!(found[3], "Volume 1".to_string());
    assert_eq!(found[4], "1st edition".to_string());
    assert_eq!(found[5], "2024".to_string());
    assert_eq!(found[6], "NewNew Series".to_string());
    assert_eq!(found[7], "NewNew Publisher".to_string());
    assert_eq!(found[8], "NewNew Note".to_string());
}

#[test]
fn insert_and_delete_new_article() {
    let mut cat = fresh_catalog();
    let article_textarea: Vec<String> = vec![
        "New Title".to_string(),
        "New Journal".to_string(),
        "Volume 1".to_string(),
        "300-305".to_string(),
        "New Note".to_string(),
        "2023".to_string(),
        "New Edition".to_string(),
        "New Publisher".to_string(),
    ];
    let a = Article {
        article_id: Uuid::new_v4().to_string(),
        cite_key: Uuid::new_v4().to_string(),
        publisher_id: Uuid::new_v4().to_string(),
        month_year_id: Uuid::new_v4().to_string(),
        title: article_textarea[0].clone(),
        journal: article_textarea[1].clone(),
        volume: article_textarea[2].clone(),
        pages: article_textarea[3].clone(),
        note: article_textarea[4].clone(),
        year: article_textarea[5].clone(),
        edition: article_textarea[6].clone(),
        publisher: article_textarea[7].clone(),
    };

    let actual = a.insert(&mut cat);
    assert!(actual.is_ok());

    let result = !Article::select(&cat, &a.cite_key).unwrap().is_empty();
    assert_eq!(result, true, "you are here");

    let _ = Article::delete(&mut cat, a.cite_key.clone());
    let result = !Article::select(&cat, &a.cite_key).unwrap().is_empty();
    assert_eq!(result, false, "you are not here");
}

#[test]
fn select_and_update_article() {
    let mut cat = fresh_catalog();
    let article_textarea: Vec<String> = vec![
        "New Title".to_string(),
        "New Journal".to_string(),
        "Volume 1".to_string(),
        "300-305".to_string(),
        "New Note".to_string(),
        "2023".to_string(),
        "New Edition".to_string(),
        "New Publisher".to_string(),
    ];

    let a = Article {
        article_id: Uuid::new_v4().to_string(),
        cite_key: Uuid::new_v4().to_string(),
        publisher_id: Uuid::new_v4().to_string(),
        month_year_id: Uuid::new_v4().to_string(),
        title: article_textarea[0].clone(),
        journal: article_textarea[1].clone(),
        volume: article_textarea[2].clone(),
        pages: article_textarea[3].clone(),
        note: article_textarea[4].clone(),
        year: article_textarea[5].clone(),
        edition: article_textarea[6].clone(),
        publisher: article_textarea[7].clone(),
    };
    let _ = a.insert(&mut cat);

    let new_article_textarea: Vec<String> = vec![
        "NewNew Title".to_string(),
        "NewNew Journal".to_string(),
        "Volume 1".to_string(),
        "300-305".to_string(),
        "NewNew Note".to_string(),
        "2024".to_string(),
        "NewNew Edition".to_string(),
        "NewNew Publisher".to_string(),
    ];
    let _ = Article::article_update(&mut cat, new_article_textarea, a.cite_key.clone());

    let found = Article::select(&cat, a.cite_key.as_str()).unwrap();
    assert_eq!(found[0], "NewNew Title".to_string());
    assert_eq!(found[1], "NewNew Journal".to_string());
    assert_eq!(found[2], "Volume 1".to_string());
    assert_eq!(found[3], "300-305".to_string());
    assert_eq!(found[4], "NewNew Note".to_string());
    assert_eq!(found[5], "2024".to_string());
    assert_eq!(found[6], "NewNew Edition".to_string());
    assert_eq!(found[7], "NewNew Publisher".to_string());
}

#[test]
fn new_month_year() {
    let x = MonthYear::new("1923".to_string());
    let y = MonthYear::new("2023".to_string());
    assert_eq!(x.year, "1923".to_string());
    assert_eq!(y.year, "2023".to_string());
    assert_ne!(x.month, y.month_year_id)
}

#[test]
fn month_year_insert() {
    let mut cat = fresh_catalog();
    let x = MonthYear::new("2023".to_string());
    let result = x.insert(&mut cat);
    assert_eq!(true, result.is_ok());
    assert_eq!(true, cat.has_month_year(&x.month_year_id).unwrap());
}

#[test]
fn new_publisher() {
    let x = Publisher::new("New Publisher".to_string());
    let y = Publisher::new("Other New Publisher".to_string());
    assert_eq!(x.publisher, "New Publisher".to_string());
    assert_eq!(y.publisher, "Other New Publisher".to_string());
    assert_ne!(x.publisher_id, y.publisher_id);
}

#[test]
fn publisher_insert() {
    let mut cat = fresh_catalog();
    let x = Publisher::new("New Publisher".to_string());
    let result = x.insert(&mut cat);
    assert_eq!(true, result.is_ok());
    assert_eq!(true, cat.has_publisher(&x.publisher_id).unwrap());
}

#[test]
fn create_book_round_trip() {
    let mut cat = fresh_catalog();
    let first = Book::book_transaction(
        &mut cat,
        vec![
            "Someone".to_string(),
            "Something".to_string(),
            "1".to_string(),
            "1".to_string(),
            "1st".to_string(),
            "2020".to_string(),
            "S".to_string(),
            "P".to_string(),
            "n".to_string(),
        ],
    )
    .unwrap();
    let fields = vec![
        "A. Author".to_string(),
        "My Title".to_string(),
        "300".to_string(),
        "1".to_string(),
        "2nd".to_string(),
        "2024".to_string(),
        "Series X".to_string(),
        "Acme Press".to_string(),
        "a note".to_string(),
    ];
    let key = Book::book_transaction(&mut cat, fields.clone()).unwrap();
    assert!(!key.is_empty());
    assert_ne!(key, first);
    let found = Book::select(&cat, &key).unwrap();
    assert_eq!(found, fields);
}

#[test]
fn create_article_round_trip() {
    let mut cat = fresh_catalog();
    let fields = vec![
        "T".to_string(),
        "J".to_string(),
        "4".to_string(),
        "10-20".to_string(),
        "n".to_string(),
        "1999".to_string(),
        "3rd".to_string(),
        "Pub".to_string(),
    ];
    let key = Article::article_transaction(&mut cat, fields.clone()).unwrap();
    assert!(!key.is_empty());
    let found = Article::select(&cat, &key).unwrap();
    assert_eq!(found, fields);
}

#[test]
fn create_then_delete_leaves_no_rows() {
    let mut cat = fresh_catalog();
    let fields = vec![
        "A".to_string(),
        "T".to_string(),
        "9".to_string(),
        "1".to_string(),
        "1st".to_string(),
        "2001".to_string(),
        "S".to_string(),
        "P".to_string(),
        "N".to_string(),
    ];
    let key = Book::book_transaction(&mut cat, fields).unwrap();
    assert_eq!(cat.master_entry_type(&key).unwrap(), Some("BOOK".to_string()));
    assert_eq!(Book::select(&cat, &key).unwrap().len(), 9);

    Book::delete_book(&mut cat, key.clone()).unwrap();
    assert_eq!(cat.master_entry_type(&key).unwrap(), None);
    assert!(Book::select(&cat, &key).unwrap().is_empty());
}

#[test]
fn update_keeps_key_and_other_rows() {
    let mut cat = fresh_catalog();
    let first = vec![
        "A1".to_string(),
        "T1".to_string(),
        "11".to_string(),
        "1".to_string(),
        "1st".to_string(),
        "2001".to_string(),
        "S1".to_string(),
        "P1".to_string(),
        "N1".to_string(),
    ];
    let second = vec![
        "A2".to_string(),
        "T2".to_string(),
        "22".to_string(),
        "2".to_string(),
        "2nd".to_string(),
        "2002".to_string(),
        "S2".to_string(),
        "P2".to_string(),
        "N2".to_string(),
    ];
    let key_a = Book::book_transaction(&mut cat, first.clone()).unwrap();
    let key_b = Book::book_transaction(&mut cat, second.clone()).unwrap();

    let edited = vec![
        "A1 edited".to_string(),
        "T1 edited".to_string(),
        "12".to_string(),
        "1".to_string(),
        "1st".to_string(),
        "2003".to_string(),
        "S1".to_string(),
        "P1 edited".to_string(),
        "N1 edited".to_string(),
    ];
    Book::book_update(&mut cat, edited.clone(), key_a.clone()).unwrap();

    // The targeted row carries the new fields under the same key; the
    // master row and the untargeted row are untouched.
    assert_eq!(Book::select(&cat, &key_a).unwrap(), edited);
    assert_eq!(cat.master_entry_type(&key_a).unwrap(), Some("BOOK".to_string()));
    assert_eq!(Book::select(&cat, &key_b).unwrap(), second);
}

#[test]
fn list_enumerates_every_row() {
    let mut cat = fresh_catalog();
    assert!(read_sqlite_book_table(&cat).unwrap().is_empty());
    assert!(read_sqlite_article_table(&cat).unwrap().is_empty());

    let mut keys: Vec<String> = Vec::new();
    for i in 0..3 {
        let fields = vec![
            format!("Author {i}"),
            format!("Title {i}"),
            "9".to_string(),
            "1".to_string(),
            "1st".to_string(),
            "2001".to_string(),
            "S".to_string(),
            "P".to_string(),
            "N".to_string(),
        ];
        keys.push(Book::book_transaction(&mut cat, fields).unwrap());
    }
    let listed = read_sqlite_book_table(&cat).unwrap();
    assert_eq!(listed.len(), 3);
    for key in &keys {
        assert!(listed.iter().any(|b| &b.cite_key == key));
    }
    assert!(read_sqlite_article_table(&cat).unwrap().is_empty());
}

#[test]
fn long_form_is_truncated() {
    let mut cat = fresh_catalog();
    let mut fields = vec![
        "A".to_string(),
        "T".to_string(),
        "9".to_string(),
        "1".to_string(),
        "1st".to_string(),
        "2001".to_string(),
        "S".to_string(),
        "P".to_string(),
        "N".to_string(),
    ];
    fields.push("an extra line the book form ignores".to_string());
    let key = Book::book_transaction(&mut cat, fields.clone()).unwrap();
    let found = Book::select(&cat, &key).unwrap();
    assert_eq!(found, fields[0..9].to_vec());
}

#[test]
fn duplicate_master_key_is_a_statement_error() {
    let mut cat = fresh_catalog();
    let x = MasterEntries::new_book();
    x.insert(&mut cat).unwrap();
    let again = x.insert(&mut cat);
    assert!(matches!(again, Err(StoreError::Statement(_))));
    // The statement failed as a whole: the row is still there, once.
    assert_eq!(cat.master_entry_type(&x.cite_key).unwrap(), Some("BOOK".to_string()));
}

#[test]
fn unreachable_store_is_an_open_error() {
    let r = Catalog::open("/nonexistent-catalog-dir/catalog.db");
    assert!(matches!(r, Err(StoreError::Open(_))));
}

#[test]
fn minted_identifiers_have_uuid_shape() {
    let x = MasterEntries::new_book();
    assert_eq!(x.cite_key.chars().count(), 36);
    let p = Publisher::new("P".to_string());
    assert_eq!(p.publisher_id.chars().count(), 36);
    assert_eq!(p.address, "n/a".to_string());
    let m = MonthYear::new("2024".to_string());
    assert_eq!(m.month_year_id.chars().count(), 36);
    assert_eq!(m.month, "01".to_string());
}

#[test]
fn orphan_rows_survive_update_and_delete() {
    let mut cat = fresh_catalog();
    let fields = vec![
        "A".to_string(),
        "T".to_string(),
        "9".to_string(),
        "1".to_string(),
        "1st".to_string(),
        "2001".to_string(),
        "S".to_string(),
        "Old Publisher".to_string(),
        "N".to_string(),
    ];
    let key = Book::book_transaction(&mut cat, fields.clone()).unwrap();
    let listed = read_sqlite_book_table(&cat).unwrap();
    let row = listed.iter().find(|b| b.cite_key == key).unwrap();
    let publisher_id = row.publisher_id.clone();
    let month_year_id = row.month_year_id.clone();

    Book::book_update(&mut cat, fields, key.clone()).unwrap();
    Book::delete_book(&mut cat, key).unwrap();
    // The rows minted at creation are never reclaimed.
    assert!(cat.has_publisher(&publisher_id).unwrap());
    assert!(cat.has_month_year(&month_year_id).unwrap());
}

#[test]
fn duplicate_book_cite_key_is_refused() {
    let mut cat = fresh_catalog();
    let b = Book {
        book_id: Uuid::new_v4().to_string(),
        cite_key: Uuid::new_v4().to_string(),
        publisher_id: Uuid::new_v4().to_string(),
        month_year_id: Uuid::new_v4().to_string(),
        author: "A".to_string(),
        title: "T".to_string(),
        pages: "9".to_string(),
        volume: "1".to_string(),
        edition: "1st".to_string(),
        year: "2001".to_string(),
        series: "S".to_string(),
        publisher: "P".to_string(),
        note: "N".to_string(),
    };
    b.insert(&mut cat).unwrap();
    let mut twin = b.clone();
    twin.book_id = Uuid::new_v4().to_string();
    // One book row per cite key: the store refuses the twin outright.
    assert!(matches!(twin.insert(&mut cat), Err(StoreError::Statement(_))));
    assert_eq!(Book::select(&cat, &b.cite_key).unwrap().len(), 9);
}

#[test]
fn empty_fields_are_legal() {
    let mut cat = fresh_catalog();
    let fields: Vec<String> = (0..9).map(|_| String::new()).collect();
    let key = Book::book_transaction(&mut cat, fields.clone()).unwrap();
    assert_eq!(Book::select(&cat, &key).unwrap(), fields);
    let fields: Vec<String> = (0..8).map(|_| String::new()).collect();
    let key = Article::article_transaction(&mut cat, fields.clone()).unwrap();
    assert_eq!(Article::select(&cat, &key).unwrap(), fields);
}
