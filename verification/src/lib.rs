//! Verified core of a mail-server: search command building, MIME section
//! bookkeeping, request validation and event-hook rules.
pub mod address;
pub mod calendar;
pub mod decoders;
pub mod hook;
pub mod imap;
pub mod license;
pub mod mailbox;
pub mod message;
pub mod metrics;
pub mod oauth2;
pub mod overview;
pub mod patterns;
pub mod search;
pub mod section;
pub mod text;
pub mod tokens;
