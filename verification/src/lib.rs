//! Bookkeeping rules for a mentorship practice: mentees, their calls, videos
//! and payments, the validation of what a user types, and the text that a
//! terminal front end shows.

pub mod dates;
pub mod error;
pub mod format;
pub mod ledger;
pub mod models;
pub mod services;
pub mod statements;
pub mod status;
pub mod store;
pub mod text;
pub mod validation;
