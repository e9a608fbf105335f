//! Collects the uncommitted changes of a Git repository as unified-diff text,
//! leaving out files that match exclude patterns, and prepares and reads the
//! exchange with a text-generation service that suggests a commit message.

pub mod diff;
pub mod exclude;
pub mod request;
pub mod response;
pub mod text;
