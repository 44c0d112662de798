//! Auditing the git state of many checked-out projects at once.
//!
//! The library holds the decisions of such an audit: how the text that git
//! prints is classified, how the classified project roots are tallied and
//! rendered, and how a directory tree is searched for project roots. It
//! performs no I/O itself: the caller lists directories and runs git, and
//! hands what came back to the library.

pub mod path;
pub mod text;
pub mod status;
pub mod search;
pub mod summary;

pub use search::{Entry, Request, Search};
pub use status::{Category, CommandOutput, Remote, Status};
pub use summary::StatusSummary;
