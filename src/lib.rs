//! A virtual multi-file edit session: matches gathered from many files are
//! shown as one editable buffer, and the rows the user changed are applied
//! back to their files as one atomic change per file.
pub mod aggregate;
pub mod reconcile;
pub mod session;
pub mod view;
