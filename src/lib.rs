//! Turns a command-line argument schema into an editable form, serializes the
//! form back into command-line tokens, re-validates them through the schema's
//! own parser and keeps the bookkeeping of a single background run whose
//! captured output is shown in a scrolling buffer.
pub mod coordinator;
pub mod dispatch;
pub mod misc;
pub mod schema;

pub use coordinator::{Claui, FormEntry};
pub use dispatch::RunState;
pub use misc::{capitalize, capitalize_from, AppInfo, ArgState};
