//! A record store for clipboard history on top of SQLite.
//!
//! The store keeps one table of records, refreshes a record instead of
//! inserting it twice, evicts the oldest records beyond a retention limit,
//! and answers searches with the matches marked.
//!
//! The table itself lives in SQLite, on disk, where it may change between
//! two calls. `engine` holds the statements, `plan` the decisions that the
//! store makes on their answers, and `laws` what follows for the table as a
//! value.

pub mod clock;
pub mod digest;
pub mod engine;
pub mod highlight;
pub mod laws;
pub mod plan;
pub mod record;
pub mod store;
pub mod table;
pub use record::{QueryReq, Record, StoreError};
pub use highlight::highlight;
pub use store::SqliteDB;
