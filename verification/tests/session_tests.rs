use bib_catalog::db::{read_sqlite_article_table, Article, Book};
use bib_catalog::session::{App, InputMode, Key, KeyOutcome, MenuItem, SaveOutcome, SessionError};
use bib_catalog::store::Catalog;

fn fresh() -> (App, Catalog) {
    (App::new(), Catalog::open(":memory:").expect("an in-memory store should open"))
}

fn book_fields() -> Vec<String> {
    vec![
        "A. Author".to_string(),
        "My Title".to_string(),
        "300".to_string(),
        "1".to_string(),
        "2nd".to_string(),
        "2024".to_string(),
        "Series X".to_string(),
        "Acme Press".to_string(),
        "a note".to_string(),
    ]
}

fn article_fields() -> Vec<String> {
    vec![
        "T".to_string(),
        "J".to_string(),
        "4".to_string(),
        "10-20".to_string(),
        "n".to_string(),
        "1999".to_string(),
        "3rd".to_string(),
        "Pub".to_string(),
    ]
}

#[test]
fn ordinal_numbers_the_screens() {
    assert_eq!(MenuItem::Home.ordinal(), 0);
    assert_eq!(MenuItem::ShowBooks.ordinal(), 1);
    assert_eq!(MenuItem::NewBook(InputMode::Input).ordinal(), 2);
    assert_eq!(MenuItem::ListArticles.ordinal(), 3);
    assert_eq!(MenuItem::InsertArticle(InputMode::Command).ordinal(), 4);
}

#[test]
fn navigation_keys_change_screens() {
    let (mut app, mut cat) = fresh();
    assert_eq!(app.active_menu_item, MenuItem::Home);
    assert!(matches!(app.on_key(&mut cat, Key::Char('s')), Ok(KeyOutcome::Continue)));
    assert_eq!(app.active_menu_item, MenuItem::ShowBooks);
    assert!(matches!(app.on_key(&mut cat, Key::Char('b')), Ok(KeyOutcome::Continue)));
    assert_eq!(app.active_menu_item, MenuItem::NewBook(InputMode::Command));
    assert!(matches!(app.on_key(&mut cat, Key::Char('l')), Ok(KeyOutcome::Continue)));
    assert_eq!(app.active_menu_item, MenuItem::ListArticles);
    assert!(matches!(app.on_key(&mut cat, Key::Char('a')), Ok(KeyOutcome::Continue)));
    assert_eq!(app.active_menu_item, MenuItem::InsertArticle(InputMode::Command));
    assert!(matches!(app.on_key(&mut cat, Key::Char('h')), Ok(KeyOutcome::Continue)));
    assert_eq!(app.active_menu_item, MenuItem::Home);
    // An unbound letter does nothing.
    assert!(matches!(app.on_key(&mut cat, Key::Char('z')), Ok(KeyOutcome::Continue)));
    assert_eq!(app.active_menu_item, MenuItem::Home);
}

#[test]
fn quit_only_in_command_mode() {
    let (mut app, mut cat) = fresh();
    assert!(matches!(app.on_key(&mut cat, Key::Char('q')), Ok(KeyOutcome::Quit)));
    app.on_key(&mut cat, Key::Char('b')).unwrap();
    app.on_key(&mut cat, Key::F(2)).unwrap();
    assert_eq!(app.active_menu_item, MenuItem::NewBook(InputMode::Input));
    // While typing, 'q' is text for the form, not a command.
    assert!(matches!(app.on_key(&mut cat, Key::Char('q')), Ok(KeyOutcome::ForwardToForm)));
    assert!(matches!(app.on_key(&mut cat, Key::Down), Ok(KeyOutcome::ForwardToForm)));
    assert!(matches!(app.on_key(&mut cat, Key::Other), Ok(KeyOutcome::ForwardToForm)));
    // Leaving edit mode makes it a command again.
    app.on_key(&mut cat, Key::F(12)).unwrap();
    assert_eq!(app.active_menu_item, MenuItem::NewBook(InputMode::Command));
    assert!(matches!(app.on_key(&mut cat, Key::Char('q')), Ok(KeyOutcome::Quit)));
}

#[test]
fn edit_mode_only_on_form_screens() {
    let (mut app, mut cat) = fresh();
    app.on_key(&mut cat, Key::F(2)).unwrap();
    assert_eq!(app.active_menu_item, MenuItem::Home);
    app.on_key(&mut cat, Key::Char('a')).unwrap();
    app.on_key(&mut cat, Key::F(2)).unwrap();
    assert_eq!(app.active_menu_item, MenuItem::InsertArticle(InputMode::Input));
    app.on_key(&mut cat, Key::F(12)).unwrap();
    assert_eq!(app.active_menu_item, MenuItem::InsertArticle(InputMode::Command));
}

#[test]
fn save_key_asks_for_the_form() {
    let (mut app, mut cat) = fresh();
    assert!(matches!(app.on_key(&mut cat, Key::F(9)), Ok(KeyOutcome::Continue)));
    app.on_key(&mut cat, Key::Char('b')).unwrap();
    assert!(matches!(app.on_key(&mut cat, Key::F(9)), Ok(KeyOutcome::NeedSave)));
}

#[test]
fn save_form_creates_a_book() {
    let (mut app, mut cat) = fresh();
    app.on_key(&mut cat, Key::Char('b')).unwrap();
    app.on_key(&mut cat, Key::F(2)).unwrap();
    let saved = app.save_form(&mut cat, book_fields()).unwrap();
    let key = match saved {
        SaveOutcome::Created(k) => k,
        _ => panic!("a fresh form should create"),
    };
    assert_eq!(app.active_menu_item, MenuItem::NewBook(InputMode::Command));
    assert!(!app.update_flag);
    assert_eq!(Book::select(&cat, &key).unwrap(), book_fields());
}

#[test]
fn save_form_refuses_a_short_form() {
    let (mut app, mut cat) = fresh();
    app.on_key(&mut cat, Key::Char('b')).unwrap();
    app.on_key(&mut cat, Key::F(2)).unwrap();
    let r = app.save_form(&mut cat, vec!["only".to_string(), "three".to_string(), "lines".to_string()]);
    assert!(matches!(r, Err(SessionError::FormTooShort)));
    // The session stays where it was, the form untouched.
    assert_eq!(app.active_menu_item, MenuItem::NewBook(InputMode::Input));
}

#[test]
fn save_form_off_a_form_screen_saves_nothing() {
    let (mut app, mut cat) = fresh();
    let r = app.save_form(&mut cat, book_fields()).unwrap();
    assert!(matches!(r, SaveOutcome::NothingToSave));
}

#[test]
fn update_selected_pulls_fields_and_saves_back() {
    let (mut app, mut cat) = fresh();
    app.on_key(&mut cat, Key::Char('b')).unwrap();
    app.on_key(&mut cat, Key::F(2)).unwrap();
    let key = match app.save_form(&mut cat, book_fields()).unwrap() {
        SaveOutcome::Created(k) => k,
        _ => panic!("a fresh form should create"),
    };

    app.on_key(&mut cat, Key::Char('s')).unwrap();
    app.book_list_state.seed();
    let pulled = match app.on_key(&mut cat, Key::Ctrl('u')).unwrap() {
        KeyOutcome::SetBookForm(v) => v,
        _ => panic!("the selected book's fields should come back"),
    };
    assert_eq!(pulled, book_fields());
    assert_eq!(app.active_menu_item, MenuItem::NewBook(InputMode::Input));
    assert!(app.update_flag);
    assert_eq!(app.update_item_id, key);

    let mut edited = pulled;
    edited[1] = "My Better Title".to_string();
    assert!(matches!(app.save_form(&mut cat, edited.clone()), Ok(SaveOutcome::Updated)));
    assert!(!app.update_flag);
    assert_eq!(Book::select(&cat, &key).unwrap(), edited);
}

#[test]
fn cursor_wraps_over_two_books() {
    let (mut app, mut cat) = fresh();
    Book::book_transaction(&mut cat, book_fields()).unwrap();
    Book::book_transaction(&mut cat, book_fields()).unwrap();
    app.on_key(&mut cat, Key::Char('s')).unwrap();
    app.book_list_state.seed();
    app.on_key(&mut cat, Key::Down).unwrap();
    assert_eq!(app.book_list_state.selected(), Some(1));
    // From the last of two rows, down wraps to the first …
    app.on_key(&mut cat, Key::Down).unwrap();
    assert_eq!(app.book_list_state.selected(), Some(0));
    // … and from the first, up wraps back to the last.
    app.on_key(&mut cat, Key::Up).unwrap();
    assert_eq!(app.book_list_state.selected(), Some(1));
}

#[test]
fn arrows_on_an_empty_list_select_nothing() {
    let (mut app, mut cat) = fresh();
    app.on_key(&mut cat, Key::Char('s')).unwrap();
    app.book_list_state.seed();
    app.on_key(&mut cat, Key::Down).unwrap();
    assert_eq!(app.book_list_state.selected(), None);
    app.book_list_state.seed();
    app.on_key(&mut cat, Key::Up).unwrap();
    assert_eq!(app.book_list_state.selected(), None);
}

#[test]
fn delete_the_only_article_empties_the_list() {
    let (mut app, mut cat) = fresh();
    let key = Article::article_transaction(&mut cat, article_fields()).unwrap();
    app.on_key(&mut cat, Key::Char('l')).unwrap();
    app.article_list_state.seed();
    assert!(matches!(app.on_key(&mut cat, Key::Ctrl('d')), Ok(KeyOutcome::Continue)));
    assert!(read_sqlite_article_table(&cat).unwrap().is_empty());
    assert_eq!(app.article_list_state.selected(), None);
    assert_eq!(cat.master_entry_type(&key).unwrap(), None);
}

#[test]
fn delete_on_an_empty_list_does_nothing() {
    let (mut app, mut cat) = fresh();
    app.on_key(&mut cat, Key::Char('s')).unwrap();
    app.book_list_state.seed();
    assert!(matches!(app.on_key(&mut cat, Key::Ctrl('d')), Ok(KeyOutcome::Continue)));
    assert_eq!(app.book_list_state.selected(), Some(0));
    app.on_key(&mut cat, Key::Char('l')).unwrap();
    assert!(matches!(app.on_key(&mut cat, Key::Ctrl('u')), Ok(KeyOutcome::Continue)));
    assert_eq!(app.active_menu_item, MenuItem::ListArticles);
    assert!(!app.update_flag);
}

#[test]
fn delete_among_two_books_keeps_the_other() {
    let (mut app, mut cat) = fresh();
    Book::book_transaction(&mut cat, book_fields()).unwrap();
    Book::book_transaction(&mut cat, book_fields()).unwrap();
    app.on_key(&mut cat, Key::Char('s')).unwrap();
    app.book_list_state.seed();
    app.on_key(&mut cat, Key::Ctrl('d')).unwrap();
    let left = bib_catalog::db::read_sqlite_book_table(&cat).unwrap();
    assert_eq!(left.len(), 1);
    // One row remains, so the cursor still points at a row in bounds.
    assert_eq!(app.book_list_state.selected(), Some(0));
    assert_ne!(left[0].cite_key, app.update_item_id);
}
