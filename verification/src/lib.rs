//! Credential resolution, error reporting and retry policy of a GitHub client.
//!
//! The library decides; its caller performs the network calls, runs commands,
//! sleeps and prints. Every function here is a total function of its
//! arguments: none panics, and none fails other than by returning a
//! [`GitHubError`].

pub mod client;
pub mod credentials;
pub mod error;
pub mod retry;
pub mod text;

pub use client::GitHubClient;
pub use credentials::{CredentialFile, CredentialSources, Credentials};
pub use error::{ErrorKind, GitHubError};
pub use retry::{RetryState, RetryStep};
