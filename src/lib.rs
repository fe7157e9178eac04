//! Relays controller telemetry read as comma-separated serial lines to any
//! number of live subscribers as JSON text messages.
//!
//! The verified core: the line protocol parser (`input`), the wire encoder
//! (`message`), the fan-out hub (`hub`), the retry policy and ingest state
//! machine (`link`), the state of the dashboard that shows the feed
//! (`dashboard`), and what the command line asks for (`args`). `text` holds
//! the character-level pieces they share.

pub mod text;
pub mod input;
pub mod message;
pub mod hub;
pub mod link;
pub mod dashboard;
pub mod args;
