//! Composing conventional commits: the catalog of commit types, the message
//! grammar, and the decisions taken while a commit is written to a repository.

pub mod answers;
pub mod catalog;
pub mod commit;
pub mod message;

pub use catalog::{build_commit_types, format_commit_types};
pub use message::build_commit_message;
