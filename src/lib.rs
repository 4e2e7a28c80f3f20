//! An incremental, filtered table of event-log records: an append-only record
//! store, include/exclude filters per field, the view of passing records, and
//! a selection that stays within the view.

pub mod record;
pub mod filter;
pub mod table;
pub mod selection;
pub mod app;
