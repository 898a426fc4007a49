//! Core of a tabular-file viewer: format-dispatching ingestion that
//! normalizes decoded files into one columnar table, a session state
//! machine driving ingestion attempts, and a virtualized, type-aware
//! grid projection of the current table.

pub mod grid;
pub mod reader;
pub mod session;
pub mod table;
