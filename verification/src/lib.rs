//! Record keeping for a retail inventory: items with a derived status, a
//! barcode index, an audit trail per item, filtered and paged queries, and a
//! snapshot of the whole state that can be restored. Beside the store stand
//! the smaller books that work with it: a ledger of transactions, the table
//! of pricing rules, the registry of business profiles, and the validation
//! of incoming batches.
//!
//! Every contract speaks of the mathematical view of a value (`@`). Times are
//! nanoseconds since the Unix epoch and are handed in by the caller, as is
//! the identity of the caller. A price is held as the bit pattern of a
//! binary64 number, see [`price`].
//!
//! - [`status`]: the status of an item, derived from quantity and expiration
//! - [`item`], [`store`]: the items, and the store that owns table and index
//! - [`query`], [`listing`]: search, pages, and a page as text
//! - [`persist`]: saving and restoring the whole state
//! - [`laws`]: what holds across several operations of the store
//! - [`ledger`], [`pricing`], [`profile`], [`aggregator`]: the other books
//! - [`text`], [`price`], [`timestamp`], [`seqs`], [`error`]: what they share

pub mod status;
pub mod seqs;
pub mod text;
pub mod item;
pub mod price;
pub mod error;
pub mod store;
pub mod query;
pub mod persist;
pub mod listing;
pub mod laws;
pub mod timestamp;
pub mod ledger;
pub mod profile;
pub mod pricing;
pub mod aggregator;
