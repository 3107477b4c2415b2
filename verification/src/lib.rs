//! An interactive catalog of bibliographic records (books and articles),
//! backed by an SQLite store.
//!
//! The crate verifies the two delicate parts of such a catalog: the
//! multi-row persistence protocol that keeps the related tables consistent
//! under one logical "create / update / delete an entry" operation, and the
//! modal session state machine that turns key presses into screen changes,
//! cursor moves and store operations.  The store itself is reached through a
//! small set of trusted wrappers in [`store`]; everything layered on top of
//! them is proved.
//!
//! Failures follow one taxonomy throughout.  A store that cannot be opened
//! is fatal at startup.  A statement that fails mid-session surfaces as a
//! typed error and the session stays where it was; because the multi-row
//! create and update sequences are not one transaction, their error
//! contracts say exactly which rows may already be in place.  Moving the
//! selection on an empty list is never an error: it reports no selection.

pub mod cursor;
pub mod db;
pub mod laws;
pub mod session;
pub mod store;
