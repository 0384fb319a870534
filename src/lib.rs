//! A line-oriented search-and-replace engine: patterns are compiled once,
//! every line of a source is rewritten independently (keeping its exact
//! terminator), and in-place edits follow a fixed sequence of steps.
pub mod error;
pub mod job;
pub mod lines;
pub mod matcher;
pub mod plan;
pub mod transcode;

pub use error::SubError;
pub use job::{Input, Sub};
pub use matcher::Matcher;
pub use plan::{EditStep, Route};
pub use transcode::Substitution;
