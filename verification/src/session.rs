//! The modal session state machine.
//!
//! The session owns the current screen (with its input sub-mode on the two
//! form screens), the remembered `cite_key` and flag of an edit in
//! progress, and one selection cursor per list.  One key press at a time
//! comes in from the event pump; [`App::on_key`] decides everything that
//! follows from it — screen changes, cursor moves, reads and deletes in
//! the store — and hands back to the caller only what it cannot do
//! itself: quit, feed the key to the form's text buffer, replace the
//! buffer's contents, or gather the buffer and call [`App::save_form`].
//!
//! The contracts of the two functions are the transition table: which keys
//! act in which mode, and what each one does to the session, the store and
//! the cursors.

use vstd::prelude::*;

use crate::cursor::{spec_down, spec_up, SelectionCursor};
use crate::db::{article_create_partial, article_created, article_fields_of, article_update_partial,
    article_updated, book_create_partial, book_created, book_deleted, book_fields_of,
    book_update_partial, book_updated, article_deleted, fields_ok, id_ok,
    lemma_vec_string_deep_view, read_sqlite_article_table, read_sqlite_book_table, text_ok,
    Article, Book};
use crate::store::{with_master, Catalog, CatalogModel, StoreError};

verus! {

/// The input sub-mode of a form screen: keystrokes are commands, or they
/// are text for the form buffer.
#[derive(Copy, Clone, Debug, PartialEq, Eq, Structural)]
pub enum InputMode {
    Command,
    Input,
}

/// The screens of the session; the two form screens carry their input
/// sub-mode.
#[derive(Copy, Clone, Debug, PartialEq, Eq, Structural)]
pub enum MenuItem {
    Home,
    ShowBooks,
    NewBook(InputMode),
    ListArticles,
    InsertArticle(InputMode),
}

/// The position of a screen in the menu bar.
pub open spec fn ordinal_of(m: MenuItem) -> int {
    match m {
        MenuItem::Home => 0,
        MenuItem::ShowBooks => 1,
        MenuItem::NewBook(_) => 2,
        MenuItem::ListArticles => 3,
        MenuItem::InsertArticle(_) => 4,
    }
}

impl MenuItem {
    /// The position of this screen in the menu bar.
    pub fn ordinal(&self) -> (r: usize)
        ensures
            r == ordinal_of(*self),
    {
        match self {
            MenuItem::Home => 0,
            MenuItem::ShowBooks => 1,
            MenuItem::NewBook(_) => 2,
            MenuItem::ListArticles => 3,
            MenuItem::InsertArticle(_) => 4,
        }
    }
}

/// Keystrokes are commands unless a form screen is in its text sub-mode.
pub open spec fn command_mode(m: MenuItem) -> bool {
    m != MenuItem::NewBook(InputMode::Input) && m != MenuItem::InsertArticle(InputMode::Input)
}

/// Which screen a single-letter navigation command selects, if any.
pub open spec fn nav_screen(c: char) -> Option<MenuItem> {
    if c == 'h' {
        Some(MenuItem::Home)
    } else if c == 's' {
        Some(MenuItem::ShowBooks)
    } else if c == 'b' {
        Some(MenuItem::NewBook(InputMode::Command))
    } else if c == 'l' {
        Some(MenuItem::ListArticles)
    } else if c == 'a' {
        Some(MenuItem::InsertArticle(InputMode::Command))
    } else {
        None
    }
}

/// Entering edit mode: only a form screen in command sub-mode changes.
pub open spec fn enter_input_spec(m: MenuItem) -> MenuItem {
    match m {
        MenuItem::NewBook(InputMode::Command) => MenuItem::NewBook(InputMode::Input),
        MenuItem::InsertArticle(InputMode::Command) => MenuItem::InsertArticle(InputMode::Input),
        _ => m,
    }
}

/// Leaving edit mode: only a form screen in text sub-mode changes.
pub open spec fn exit_input_spec(m: MenuItem) -> MenuItem {
    match m {
        MenuItem::NewBook(InputMode::Input) => MenuItem::NewBook(InputMode::Command),
        MenuItem::InsertArticle(InputMode::Input) => MenuItem::InsertArticle(InputMode::Command),
        _ => m,
    }
}

/// Whether `m` is one of the two entry-form screens.
pub open spec fn form_screen(m: MenuItem) -> bool {
    m matches MenuItem::NewBook(_) || m matches MenuItem::InsertArticle(_)
}

/// One key press, abstracted from the terminal: a plain character, a
/// control chord, a function key, the two arrows this session uses, or
/// anything else.
#[derive(Copy, Clone, Debug, PartialEq, Eq, Structural)]
pub enum Key {
    Char(char),
    Ctrl(char),
    F(u8),
    Down,
    Up,
    Other,
}

/// What the caller must do after a key press; everything else already
/// happened inside [`App::on_key`].
#[derive(Debug)]
pub enum KeyOutcome {
    /// Nothing: render the next frame.
    Continue,
    /// End the session.
    Quit,
    /// Gather the active form's lines and call [`App::save_form`].
    NeedSave,
    /// Replace the book form's buffer with these lines (an edit of the
    /// selected book begins).
    SetBookForm(Vec<String>),
    /// Replace the article form's buffer with these lines.
    SetArticleForm(Vec<String>),
    /// Feed the key to the active form's text buffer.
    ForwardToForm,
}

/// What a save did.
#[derive(Debug)]
pub enum SaveOutcome {
    /// A new entry was created, with this `cite_key`.
    Created(String),
    /// The remembered entry was rewritten.
    Updated,
    /// No form screen was active; there was nothing to save.
    NothingToSave,
}

/// Why a save was refused.  A failure leaves the session on the same
/// screen with the form untouched, so the user can mend and retry.
#[derive(Debug)]
pub enum SessionError {
    /// The store failed; the error says what the store said.
    Store(StoreError),
    /// The form has fewer lines than the entry's field count.
    FormTooShort,
}

/// The session: current screen, the edit in progress if any, and one
/// cursor per list.  The field names follow the tables they track.
#[verifier::ext_equal]
pub struct App {
    /// The active screen (and sub-mode).
    pub active_menu_item: MenuItem,
    /// The cursor of the book list.
    pub book_list_state: SelectionCursor,
    /// The cursor of the article list.
    pub article_list_state: SelectionCursor,
    /// The `cite_key` of the row an edit or delete works on.
    pub update_item_id: String,
    /// Whether the form saves over `update_item_id` instead of creating.
    pub update_flag: bool,
}

/// The parts of the session a key press never touches behind the
/// transition table's back: whatever the table does not mention stays.
pub open spec fn same_cursors(a0: App, a1: App) -> bool {
    a1.book_list_state == a0.book_list_state && a1.article_list_state == a0.article_list_state
}

/// The effective list index of a cursor: an unseeded cursor acts on the
/// first row.
pub open spec fn eff_index(sel: Option<int>) -> int {
    match sel {
        Some(i) => i,
        None => 0,
    }
}

/// What Ctrl-u does from screen `m0`: on a list screen with a row under
/// the cursor, remember that row's key, pull its fields into the matching
/// form, raise the update flag and enter the form in text sub-mode; on an
/// empty list or with the cursor out of range, nothing.  Which row stands
/// under the cursor depends on the store's enumeration order, so the row
/// is named only as some key of the table.
pub open spec fn update_pull_spec(a0: App, a1: App, t: CatalogModel, o: KeyOutcome) -> bool {
    match a0.active_menu_item {
        MenuItem::ShowBooks => {
            if t.books.dom().len() == 0 || eff_index(a0.book_list_state@) >= t.books.dom().len() {
                a1 == a0 && o is Continue
            } else {
                exists|k: Seq<char>| #![auto] {
                    &&& t.books.contains_key(k)
                    &&& a1.update_item_id@ == k
                    &&& a1.update_flag == true
                    &&& a1.active_menu_item == MenuItem::NewBook(InputMode::Input)
                    &&& same_cursors(a0, a1)
                    &&& o matches KeyOutcome::SetBookForm(v) && v.deep_view() == book_fields_of(
                        t.books[k],
                    )
                }
            }
        },
        MenuItem::ListArticles => {
            if t.articles.dom().len() == 0 || eff_index(a0.article_list_state@)
                >= t.articles.dom().len() {
                a1 == a0 && o is Continue
            } else {
                exists|k: Seq<char>| #![auto] {
                    &&& t.articles.contains_key(k)
                    &&& a1.update_item_id@ == k
                    &&& a1.update_flag == true
                    &&& a1.active_menu_item == MenuItem::InsertArticle(InputMode::Input)
                    &&& same_cursors(a0, a1)
                    &&& o matches KeyOutcome::SetArticleForm(v) && v.deep_view()
                        == article_fields_of(t.articles[k])
                }
            }
        },
        _ => a1 == a0 && o is Continue,
    }
}

/// What Ctrl-d does from screen `m0`: on a list screen with a row under
/// the cursor, delete that row's record group and move the cursor to stay
/// in bounds — on a now-empty list it reports no selection; elsewhere,
/// nothing.
pub open spec fn delete_selected_spec(
    a0: App,
    a1: App,
    t0: CatalogModel,
    t1: CatalogModel,
    o: KeyOutcome,
) -> bool {
    match a0.active_menu_item {
        MenuItem::ShowBooks => {
            if t0.books.dom().len() == 0 || eff_index(a0.book_list_state@)
                >= t0.books.dom().len() {
                a1 == a0 && t1 == t0 && o is Continue
            } else {
                exists|k: Seq<char>| #![auto] {
                    &&& t0.books.contains_key(k)
                    &&& book_deleted(t0, t1, k)
                    &&& a1.update_item_id@ == k
                    &&& a1.update_flag == a0.update_flag
                    &&& a1.active_menu_item == a0.active_menu_item
                    &&& a1.article_list_state == a0.article_list_state
                    &&& a1.book_list_state@ == spec_down(
                        a0.book_list_state@,
                        t1.books.dom().len() as int,
                    )
                    &&& o is Continue
                }
            }
        },
        MenuItem::ListArticles => {
            if t0.articles.dom().len() == 0 || eff_index(a0.article_list_state@)
                >= t0.articles.dom().len() {
                a1 == a0 && t1 == t0 && o is Continue
            } else {
                exists|k: Seq<char>| #![auto] {
                    &&& t0.articles.contains_key(k)
                    &&& article_deleted(t0, t1, k)
                    &&& a1.update_item_id@ == k
                    &&& a1.update_flag == a0.update_flag
                    &&& a1.active_menu_item == a0.active_menu_item
                    &&& a1.book_list_state == a0.book_list_state
                    &&& a1.article_list_state@ == spec_down(
                        a0.article_list_state@,
                        t1.articles.dom().len() as int,
                    )
                    &&& o is Continue
                }
            }
        },
        _ => a1 == a0 && t1 == t0 && o is Continue,
    }
}

/// What an arrow key does from screen `m0` in command mode: on a list
/// screen the matching cursor takes one step over the live row count; the
/// store itself is only read.
pub open spec fn cursor_step_spec(a0: App, a1: App, t: CatalogModel, down: bool) -> bool {
    match a0.active_menu_item {
        MenuItem::ShowBooks => {
            &&& a1.active_menu_item == a0.active_menu_item
            &&& a1.update_flag == a0.update_flag
            &&& a1.update_item_id == a0.update_item_id
            &&& a1.article_list_state == a0.article_list_state
            &&& a1.book_list_state@ == if down {
                spec_down(a0.book_list_state@, t.books.dom().len() as int)
            } else {
                spec_up(a0.book_list_state@, t.books.dom().len() as int)
            }
        },
        MenuItem::ListArticles => {
            &&& a1.active_menu_item == a0.active_menu_item
            &&& a1.update_flag == a0.update_flag
            &&& a1.update_item_id == a0.update_item_id
            &&& a1.book_list_state == a0.book_list_state
            &&& a1.article_list_state@ == if down {
                spec_down(a0.article_list_state@, t.articles.dom().len() as int)
            } else {
                spec_up(a0.article_list_state@, t.articles.dom().len() as int)
            }
        },
        _ => a1 == a0,
    }
}

/// The transition table of [`App::on_key`]: given the session and store
/// before (`a0`, `t0`) and after (`a1`, `t1`) and the outcome `o`, what
/// each key is allowed to have done.
pub open spec fn on_key_spec(
    a0: App,
    a1: App,
    t0: CatalogModel,
    t1: CatalogModel,
    key: Key,
    o: KeyOutcome,
) -> bool {
    match key {
        Key::Char(c) => t1 == t0 && if command_mode(a0.active_menu_item) {
            if c == 'q' {
                a1 == a0 && o is Quit
            } else {
                match nav_screen(c) {
                    Some(m) => a1 == (App { active_menu_item: m, ..a0 }) && o is Continue,
                    None => a1 == a0 && o is Continue,
                }
            }
        } else {
            a1 == a0 && o is ForwardToForm
        },
        Key::F(n) => if n == 2 {
            t1 == t0 && a1 == (App {
                active_menu_item: enter_input_spec(a0.active_menu_item),
                ..a0
            }) && o is Continue
        } else if n == 12 {
            t1 == t0 && a1 == (App {
                active_menu_item: exit_input_spec(a0.active_menu_item),
                update_flag: false,
                ..a0
            }) && o is Continue
        } else if n == 9 {
            t1 == t0 && if form_screen(a0.active_menu_item) {
                a1 == a0 && o is NeedSave
            } else {
                a1 == (App { update_flag: false, ..a0 }) && o is Continue
            }
        } else {
            t1 == t0 && a1 == a0 && if command_mode(a0.active_menu_item) {
                o is Continue
            } else {
                o is ForwardToForm
            }
        },
        Key::Ctrl(c) => if c == 'u' {
            t1 == t0 && update_pull_spec(a0, a1, t0, o)
        } else if c == 'd' {
            delete_selected_spec(a0, a1, t0, t1, o)
        } else {
            t1 == t0 && a1 == a0 && o is Continue
        },
        Key::Down => t1 == t0 && if command_mode(a0.active_menu_item) {
            cursor_step_spec(a0, a1, t0, true) && o is Continue
        } else {
            a1 == a0 && o is ForwardToForm
        },
        Key::Up => t1 == t0 && if command_mode(a0.active_menu_item) {
            cursor_step_spec(a0, a1, t0, false) && o is Continue
        } else {
            a1 == a0 && o is ForwardToForm
        },
        Key::Other => t1 == t0 && a1 == a0 && if command_mode(a0.active_menu_item) {
            o is Continue
        } else {
            o is ForwardToForm
        },
    }
}

/// One entry's deletion, possibly cut short: entry `k`'s master row is
/// gone, or both its master row and its book or article row are.
pub open spec fn one_entry_partly_deleted(t0: CatalogModel, t1: CatalogModel, k: Seq<char>) -> bool {
    ||| t1 == with_master(t0, t0.master.remove(k))
    ||| book_deleted(t0, t1, k)
    ||| article_deleted(t0, t1, k)
}

/// What may have happened to the store when a key's work failed midway:
/// only Ctrl-d writes, and its two deletes are independent statements, so
/// the store is unchanged or some entry is partly or wholly gone.
pub open spec fn on_key_err_spec(t0: CatalogModel, t1: CatalogModel) -> bool {
    t1 == t0 || exists|k: Seq<char>| one_entry_partly_deleted(t0, t1, k)
}

impl App {
    /// A fresh session: the home screen in command mode, no edit in
    /// progress, nothing selected in either list.
    pub fn new() -> (a: App)
        ensures
            a.active_menu_item == MenuItem::Home,
            a.book_list_state@ is None,
            a.article_list_state@ is None,
            a.update_item_id@ == ""@,
            a.update_flag == false,
    {
        App {
            active_menu_item: MenuItem::Home,
            book_list_state: SelectionCursor::new(),
            article_list_state: SelectionCursor::new(),
            update_item_id: "".to_string(),
            update_flag: false,
        }
    }

    /// Whether keystrokes are currently commands.
    pub fn is_command_mode(&self) -> (r: bool)
        ensures
            r == command_mode(self.active_menu_item),
    {
        !matches!(
            self.active_menu_item,
            MenuItem::NewBook(InputMode::Input) | MenuItem::InsertArticle(InputMode::Input)
        )
    }

    /// Switch a form screen from command to text sub-mode.
    pub fn enter_input_mode(&mut self)
        ensures
            *final(self) == (App {
                active_menu_item: enter_input_spec(old(self).active_menu_item),
                ..*old(self)
            }),
    {
        if let MenuItem::NewBook(InputMode::Command) = self.active_menu_item {
            self.active_menu_item = MenuItem::NewBook(InputMode::Input);
        } else if let MenuItem::InsertArticle(InputMode::Command) = self.active_menu_item {
            self.active_menu_item = MenuItem::InsertArticle(InputMode::Input);
        }
    }

    /// Switch a form screen from text back to command sub-mode.
    pub fn exit_input_mode(&mut self)
        ensures
            *final(self) == (App {
                active_menu_item: exit_input_spec(old(self).active_menu_item),
                ..*old(self)
            }),
    {
        if let MenuItem::NewBook(InputMode::Input) = self.active_menu_item {
            self.active_menu_item = MenuItem::NewBook(InputMode::Command);
        } else if let MenuItem::InsertArticle(InputMode::Input) = self.active_menu_item {
            self.active_menu_item = MenuItem::InsertArticle(InputMode::Command);
        }
    }
}

/// Whether `s` can be stored faithfully as text.
fn text_is_ok(s: &str) -> (b: bool)
    ensures
        b == text_ok(s@),
{
    let n = s.unicode_len();
    let mut i: usize = 0;
    while i < n
        invariant
            i <= n,
            n == s@.len(),
            forall|j: int| 0 <= j < i ==> s@[j] != '\0',
        decreases n - i,
    {
        if s.get_char(i) == '\0' {
            return false;
        }
        i += 1;
    }
    true
}

/// Whether the first `n` lines of a form are storable text.
fn lines_ok(lines: &Vec<String>, n: usize) -> (b: bool)
    requires
        lines@.len() >= n,
    ensures
        b == fields_ok(lines.deep_view(), n as int),
{
    proof {
        lemma_vec_string_deep_view(lines);
    }
    let mut i: usize = 0;
    while i < n
        invariant
            i <= n,
            lines@.len() >= n,
            forall|j: int| 0 <= j < i ==> text_ok(#[trigger] lines.deep_view()[j]),
        decreases n - i,
    {
        if !text_is_ok(lines[i].as_str()) {
            proof {
                assert(lines.deep_view()[i as int] == lines@[i as int]@);
            }
            return false;
        }
        proof {
            assert(lines.deep_view()[i as int] == lines@[i as int]@);
        }
        i += 1;
    }
    true
}

/// How many positional fields the active form expects.
pub open spec fn form_field_count(m: MenuItem) -> int {
    match m {
        MenuItem::NewBook(_) => 9,
        MenuItem::InsertArticle(_) => 8,
        _ => 0,
    }
}

/// Which keys make [`App::on_key`] read or write the store at all; every
/// other key always succeeds.
pub open spec fn key_reads_store(key: Key, m: MenuItem) -> bool {
    match key {
        Key::Ctrl(c) => (c == 'u' || c == 'd') && (m == MenuItem::ShowBooks || m
            == MenuItem::ListArticles),
        Key::Down | Key::Up => command_mode(m) && (m == MenuItem::ShowBooks || m
            == MenuItem::ListArticles),
        _ => false,
    }
}

/// What a failed save may have left in the store: the partial-write
/// states of whichever group operation was underway.
pub open spec fn save_partial_spec(
    a0: App,
    t0: CatalogModel,
    t1: CatalogModel,
    f: Seq<Seq<char>>,
) -> bool {
    match a0.active_menu_item {
        MenuItem::NewBook(_) => if a0.update_flag {
            book_update_partial(t0, t1, a0.update_item_id@, f)
        } else {
            book_create_partial(t0, t1, f)
        },
        MenuItem::InsertArticle(_) => if a0.update_flag {
            article_update_partial(t0, t1, a0.update_item_id@, f)
        } else {
            article_create_partial(t0, t1, f)
        },
        _ => t1 == t0,
    }
}

/// What a successful save did, by screen and update flag: create or
/// rewrite the matching entry from the form's lines, drop the update
/// flag, and fall back to command sub-mode.
pub open spec fn save_ok_spec(
    a0: App,
    a1: App,
    t0: CatalogModel,
    t1: CatalogModel,
    f: Seq<Seq<char>>,
    o: SaveOutcome,
) -> bool {
    match a0.active_menu_item {
        MenuItem::NewBook(_) => {
            &&& a1 == (App {
                active_menu_item: exit_input_spec(a0.active_menu_item),
                update_flag: false,
                ..a0
            })
            &&& if a0.update_flag {
                o is Updated && book_updated(t0, t1, a0.update_item_id@, f)
            } else {
                o matches SaveOutcome::Created(key) && id_ok(key@) && book_created(t0, t1, key@, f)
            }
        },
        MenuItem::InsertArticle(_) => {
            &&& a1 == (App {
                active_menu_item: exit_input_spec(a0.active_menu_item),
                update_flag: false,
                ..a0
            })
            &&& if a0.update_flag {
                o is Updated && article_updated(t0, t1, a0.update_item_id@, f)
            } else {
                o matches SaveOutcome::Created(key) && id_ok(key@) && article_created(
                    t0,
                    t1,
                    key@,
                    f,
                )
            }
        },
        _ => a1 == a0 && t1 == t0 && o is NothingToSave,
    }
}

impl App {
    /// Ctrl-u: pull the selected row's fields into the matching form and
    /// begin an update of it.
    fn update_selected(&mut self, store: &Catalog) -> (r: Result<KeyOutcome, StoreError>)
        ensures
            r matches Ok(o) ==> update_pull_spec(*old(self), *final(self), store@, o),
            old(self).active_menu_item != MenuItem::ShowBooks && old(self).active_menu_item
                != MenuItem::ListArticles ==> r is Ok,
            r is Err ==> {
                &&& final(self).active_menu_item == old(self).active_menu_item
                &&& final(self).update_flag == old(self).update_flag
                &&& final(self).book_list_state == old(self).book_list_state
                &&& final(self).article_list_state == old(self).article_list_state
            },
    {
        match self.active_menu_item {
            MenuItem::ShowBooks => {
                let list = read_sqlite_book_table(store)?;
                if list.len() == 0 {
                    return Ok(KeyOutcome::Continue);
                }
                let e: usize = match self.book_list_state.selected() {
                    Some(i) => i,
                    None => 0,
                };
                if e >= list.len() {
                    return Ok(KeyOutcome::Continue);
                }
                let ghost k = list@[e as int]@.cite_key;
                self.update_item_id = list[e].cite_key.clone();
                let text_vec = Book::select(store, self.update_item_id.as_str())?;
                self.update_flag = true;
                self.active_menu_item = MenuItem::NewBook(InputMode::Input);
                proof {
                    assert(store@.books.contains_key(k) && final(self).update_item_id@ == k
                        && text_vec.deep_view() == book_fields_of(store@.books[k]));
                }
                Ok(KeyOutcome::SetBookForm(text_vec))
            },
            MenuItem::ListArticles => {
                let list = read_sqlite_article_table(store)?;
                if list.len() == 0 {
                    return Ok(KeyOutcome::Continue);
                }
                let e: usize = match self.article_list_state.selected() {
                    Some(i) => i,
                    None => 0,
                };
                if e >= list.len() {
                    return Ok(KeyOutcome::Continue);
                }
                let ghost k = list@[e as int]@.cite_key;
                self.update_item_id = list[e].cite_key.clone();
                let text_vec = Article::select(store, self.update_item_id.as_str())?;
                self.update_flag = true;
                self.active_menu_item = MenuItem::InsertArticle(InputMode::Input);
                proof {
                    assert(store@.articles.contains_key(k) && final(self).update_item_id@ == k
                        && text_vec.deep_view() == article_fields_of(store@.articles[k]));
                }
                Ok(KeyOutcome::SetArticleForm(text_vec))
            },
            _ => Ok(KeyOutcome::Continue),
        }
    }

    /// Ctrl-d: delete the selected row's record group and keep the cursor
    /// in bounds.
    fn delete_selected(&mut self, store: &mut Catalog) -> (r: Result<KeyOutcome, StoreError>)
        ensures
            r matches Ok(o) ==> delete_selected_spec(
                *old(self),
                *final(self),
                old(store)@,
                final(store)@,
                o,
            ),
            old(self).active_menu_item != MenuItem::ShowBooks && old(self).active_menu_item
                != MenuItem::ListArticles ==> r is Ok,
            r is Err ==> {
                &&& on_key_err_spec(old(store)@, final(store)@)
                &&& final(self).active_menu_item == old(self).active_menu_item
                &&& final(self).update_flag == old(self).update_flag
                &&& final(self).book_list_state == old(self).book_list_state
                &&& final(self).article_list_state == old(self).article_list_state
            },
    {
        match self.active_menu_item {
            MenuItem::ShowBooks => {
                let list = read_sqlite_book_table(store)?;
                if list.len() == 0 {
                    return Ok(KeyOutcome::Continue);
                }
                let e: usize = match self.book_list_state.selected() {
                    Some(i) => i,
                    None => 0,
                };
                if e >= list.len() {
                    return Ok(KeyOutcome::Continue);
                }
                let ghost t0 = store@;
                let ghost k = list@[e as int]@.cite_key;
                self.update_item_id = list[e].cite_key.clone();
                if let Err(er) = Book::delete_book(store, self.update_item_id.clone()) {
                    proof {
                        if store@ != t0 {
                            assert(one_entry_partly_deleted(t0, store@, k));
                        }
                    }
                    return Err(er);
                }
                let list2 = match read_sqlite_book_table(store) {
                    Ok(v) => v,
                    Err(er) => {
                        proof {
                            assert(one_entry_partly_deleted(t0, store@, k));
                        }
                        return Err(er);
                    },
                };
                self.book_list_state.select_down(list2.len());
                Ok(KeyOutcome::Continue)
            },
            MenuItem::ListArticles => {
                let list = read_sqlite_article_table(store)?;
                if list.len() == 0 {
                    return Ok(KeyOutcome::Continue);
                }
                let e: usize = match self.article_list_state.selected() {
                    Some(i) => i,
                    None => 0,
                };
                if e >= list.len() {
                    return Ok(KeyOutcome::Continue);
                }
                let ghost t0 = store@;
                let ghost k = list@[e as int]@.cite_key;
                self.update_item_id = list[e].cite_key.clone();
                if let Err(er) = Article::delete_article(store, self.update_item_id.clone()) {
                    proof {
                        if store@ != t0 {
                            assert(one_entry_partly_deleted(t0, store@, k));
                        }
                    }
                    return Err(er);
                }
                let list2 = match read_sqlite_article_table(store) {
                    Ok(v) => v,
                    Err(er) => {
                        proof {
                            assert(one_entry_partly_deleted(t0, store@, k));
                        }
                        return Err(er);
                    },
                };
                self.article_list_state.select_down(list2.len());
                Ok(KeyOutcome::Continue)
            },
            _ => Ok(KeyOutcome::Continue),
        }
    }

    /// An arrow key: one cursor step over the live row count of the
    /// active list.
    fn step_cursor(&mut self, store: &Catalog, down: bool) -> (r: Result<(), StoreError>)
        ensures
            r is Ok ==> cursor_step_spec(*old(self), *final(self), store@, down),
            old(self).active_menu_item != MenuItem::ShowBooks && old(self).active_menu_item
                != MenuItem::ListArticles ==> r is Ok,
            r is Err ==> *final(self) == *old(self),
    {
        match self.active_menu_item {
            MenuItem::ShowBooks => {
                let list = read_sqlite_book_table(store)?;
                if down {
                    self.book_list_state.select_down(list.len());
                } else {
                    self.book_list_state.select_up(list.len());
                }
                Ok(())
            },
            MenuItem::ListArticles => {
                let list = read_sqlite_article_table(store)?;
                if down {
                    self.article_list_state.select_down(list.len());
                } else {
                    self.article_list_state.select_up(list.len());
                }
                Ok(())
            },
            _ => Ok(()),
        }
    }

    /// Apply one key press.  The whole transition table is the contract:
    /// what changed on the session, what changed in the store, and what
    /// the caller still has to do.  Only Ctrl-d writes to the store; a
    /// failure leaves the screen, flag and cursors as they were and says
    /// what may have been deleted already.
    pub fn on_key(&mut self, store: &mut Catalog, key: Key) -> (r: Result<KeyOutcome, StoreError>)
        ensures
            r matches Ok(o) ==> on_key_spec(
                *old(self),
                *final(self),
                old(store)@,
                final(store)@,
                key,
                o,
            ),
            r is Err ==> {
                &&& on_key_err_spec(old(store)@, final(store)@)
                &&& final(self).active_menu_item == old(self).active_menu_item
                &&& final(self).update_flag == old(self).update_flag
                &&& final(self).book_list_state == old(self).book_list_state
                &&& final(self).article_list_state == old(self).article_list_state
            },
            !key_reads_store(key, old(self).active_menu_item) ==> r is Ok,
    {
        match key {
            Key::Char(c) => {
                if self.is_command_mode() {
                    if c == 'q' {
                        Ok(KeyOutcome::Quit)
                    } else {
                        if c == 'h' {
                            self.active_menu_item = MenuItem::Home;
                        } else if c == 's' {
                            self.active_menu_item = MenuItem::ShowBooks;
                        } else if c == 'b' {
                            self.active_menu_item = MenuItem::NewBook(InputMode::Command);
                        } else if c == 'l' {
                            self.active_menu_item = MenuItem::ListArticles;
                        } else if c == 'a' {
                            self.active_menu_item = MenuItem::InsertArticle(InputMode::Command);
                        }
                        Ok(KeyOutcome::Continue)
                    }
                } else {
                    Ok(KeyOutcome::ForwardToForm)
                }
            },
            Key::F(n) => {
                if n == 2 {
                    self.enter_input_mode();
                    Ok(KeyOutcome::Continue)
                } else if n == 12 {
                    self.update_flag = false;
                    self.exit_input_mode();
                    Ok(KeyOutcome::Continue)
                } else if n == 9 {
                    if matches!(
                        self.active_menu_item,
                        MenuItem::NewBook(_) | MenuItem::InsertArticle(_)
                    ) {
                        Ok(KeyOutcome::NeedSave)
                    } else {
                        self.update_flag = false;
                        Ok(KeyOutcome::Continue)
                    }
                } else if self.is_command_mode() {
                    Ok(KeyOutcome::Continue)
                } else {
                    Ok(KeyOutcome::ForwardToForm)
                }
            },
            Key::Ctrl(c) => {
                if c == 'u' {
                    self.update_selected(store)
                } else if c == 'd' {
                    self.delete_selected(store)
                } else {
                    Ok(KeyOutcome::Continue)
                }
            },
            Key::Down => {
                if self.is_command_mode() {
                    self.step_cursor(store, true)?;
                    Ok(KeyOutcome::Continue)
                } else {
                    Ok(KeyOutcome::ForwardToForm)
                }
            },
            Key::Up => {
                if self.is_command_mode() {
                    self.step_cursor(store, false)?;
                    Ok(KeyOutcome::Continue)
                } else {
                    Ok(KeyOutcome::ForwardToForm)
                }
            },
            Key::Other => {
                if self.is_command_mode() {
                    Ok(KeyOutcome::Continue)
                } else {
                    Ok(KeyOutcome::ForwardToForm)
                }
            },
        }
    }

    /// Save the gathered form lines: create a new entry, or — when the
    /// update flag is up — rewrite the remembered one.  A form that is
    /// too short, or holds text the store cannot keep faithfully, is
    /// refused before anything is written.
    pub fn save_form(&mut self, store: &mut Catalog, lines: Vec<String>) -> (r: Result<
        SaveOutcome,
        SessionError,
    >)
        ensures
            r matches Ok(o) ==> save_ok_spec(
                *old(self),
                *final(self),
                old(store)@,
                final(store)@,
                lines.deep_view(),
                o,
            ),
            r matches Err(e) ==> match e {
                SessionError::FormTooShort => *final(self) == *old(self) && final(store)@ == old(
                    store,
                )@ && form_screen(old(self).active_menu_item) && lines@.len() < form_field_count(
                    old(self).active_menu_item,
                ),
                SessionError::Store(_) => *final(self) == *old(self) && save_partial_spec(
                    *old(self),
                    old(store)@,
                    final(store)@,
                    lines.deep_view(),
                ),
            },
            form_screen(old(self).active_menu_item) && lines@.len() < form_field_count(
                old(self).active_menu_item,
            ) ==> r matches Err(SessionError::FormTooShort),
            !form_screen(old(self).active_menu_item) ==> r matches Ok(SaveOutcome::NothingToSave),
    {
        match self.active_menu_item {
            MenuItem::NewBook(_) => {
                if lines.len() < 9 {
                    return Err(SessionError::FormTooShort);
                }
                if !lines_ok(&lines, 9) {
                    return Err(SessionError::Store(StoreError::Statement(None)));
                }
                if !self.update_flag {
                    match Book::book_transaction(store, lines) {
                        Ok(key) => {
                            self.update_flag = false;
                            self.exit_input_mode();
                            Ok(SaveOutcome::Created(key))
                        },
                        Err(e) => Err(SessionError::Store(e)),
                    }
                } else {
                    match Book::book_update(store, lines, self.update_item_id.clone()) {
                        Ok(_) => {
                            self.update_flag = false;
                            self.exit_input_mode();
                            Ok(SaveOutcome::Updated)
                        },
                        Err(e) => Err(SessionError::Store(e)),
                    }
                }
            },
            MenuItem::InsertArticle(_) => {
                if lines.len() < 8 {
                    return Err(SessionError::FormTooShort);
                }
                if !lines_ok(&lines, 8) {
                    return Err(SessionError::Store(StoreError::Statement(None)));
                }
                if !self.update_flag {
                    match Article::article_transaction(store, lines) {
                        Ok(key) => {
                            self.update_flag = false;
                            self.exit_input_mode();
                            Ok(SaveOutcome::Created(key))
                        },
                        Err(e) => Err(SessionError::Store(e)),
                    }
                } else {
                    match Article::article_update(store, lines, self.update_item_id.clone()) {
                        Ok(_) => {
                            self.update_flag = false;
                            self.exit_input_mode();
                            Ok(SaveOutcome::Updated)
                        },
                        Err(e) => Err(SessionError::Store(e)),
                    }
                }
            },
            _ => Ok(SaveOutcome::NothingToSave),
        }
    }
}

} // verus!
