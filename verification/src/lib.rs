//! Mirrors photo posts from a source blog to a bot-operated blog, with each
//! caption translated on the way.
//!
//! The library holds the decisions of one run: which slice of the source
//! blog's history to fetch, how a response body becomes typed posts, which
//! posts are republished and in which order, and what is sent for each of
//! them. Network and file access stay with the caller, which performs the
//! actions that the pipeline asks for and reports what came back.
//!
//! - [`post`]: the typed model of a post.
//! - [`markup`]: removal of markup from captions.
//! - [`document`]: JSON documents, parsed by the `json` crate.
//! - [`response`]: from a response body to post counts and posts.
//! - [`window`]: the slice of the source blog's history that a run fetches.
//! - [`client`]: credentials, and the addresses of the requests.
//! - [`decimal`]: numbers as they are written into an address.
//! - [`pipeline`]: the run itself, one decision at a time.
//! - [`trace`]: what holds of whole runs.
//! - [`error`]: the ways in which a run fails.

pub mod client;
pub mod decimal;
pub mod document;
pub mod error;
pub mod markup;
pub mod pipeline;
pub mod post;
pub mod response;
pub mod trace;
pub mod window;
