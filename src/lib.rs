//! Profile panel core: turns a public activity feed into a display-ready
//! commit list, shrinks an avatar to a fixed thumbnail, and keeps each
//! result in a write-once slot that the presentation layer polls.

pub mod avatar;
pub mod error;
pub mod github;
pub mod slot;
pub mod text;

pub use avatar::{ProfileImage, THUMBNAIL_SIZE};
pub use error::FetchError;
pub use github::{Commit, Event, LatestCommit, LatestCommits, Payload, Repo};
pub use slot::Slot;
pub use text::{short_message, repo_name};
