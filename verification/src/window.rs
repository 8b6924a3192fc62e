//! Which slice of the source blog's history a run fetches.
//!
//! The bot blog's own post count is the only record of progress: every post
//! that the bot has published moves the window by one.

use vstd::prelude::*;
use crate::error::RunError;

verus! {

/// The fixed distances of a run.
#[derive(Clone, Copy, Debug, PartialEq, Eq, Structural)]
pub struct WindowConfig {
    /// How many posts one run fetches.
    pub posts_per_run: u64,
    /// How many posts of the source blog's history are left aside.
    pub start_offset: u64,
}

/// A slice of a blog's posts: `count` posts after the first `offset`.
#[derive(Clone, Copy, Debug, PartialEq, Eq, Structural)]
pub struct OffsetWindow {
    pub offset: u64,
    pub count: u64,
}

/// The number of posts to skip, as the formula gives it. It is negative while
/// the source blog is too short for the configured distances.
pub open spec fn offset_of(
    config: WindowConfig,
    total_source_posts: int,
    total_bot_posts: int,
) -> int {
    total_source_posts - total_bot_posts - config.posts_per_run - config.start_offset
}

/// The window of a run, where there is one.
pub open spec fn window_of(
    config: WindowConfig,
    total_source_posts: int,
    total_bot_posts: int,
) -> Result<OffsetWindow, RunError> {
    let offset = offset_of(config, total_source_posts, total_bot_posts);
    if offset >= 0 {
        Ok(OffsetWindow { offset: offset as u64, count: config.posts_per_run })
    } else {
        Err(RunError::NegativeOffset)
    }
}

/// Computes the number of posts to skip: `total_source_posts -
/// total_bot_posts - posts_per_run - start_offset`, whatever its sign.
pub fn compute_offset(
    config: &WindowConfig,
    total_source_posts: i64,
    total_bot_posts: i64,
) -> (offset: i128)
    ensures
        offset == offset_of(*config, total_source_posts as int, total_bot_posts as int),
{
    total_source_posts as i128 - total_bot_posts as i128 - config.posts_per_run as i128
        - config.start_offset as i128
}

/// Computes the window of a run from the post counts of the two blogs: it
/// starts at the computed offset and holds `posts_per_run` posts. A negative
/// offset is refused.
pub fn compute_window(
    config: &WindowConfig,
    total_source_posts: i64,
    total_bot_posts: i64,
) -> (window: Result<OffsetWindow, RunError>)
    ensures
        window == window_of(*config, total_source_posts as int, total_bot_posts as int),
{
    let offset = compute_offset(config, total_source_posts, total_bot_posts);
    if offset >= 0 {
        Ok(OffsetWindow { offset: offset as u64, count: config.posts_per_run })
    } else {
        Err(RunError::NegativeOffset)
    }
}

/// Where a run has a window, the window starts at the offset that the
/// formula gives, and a run has one exactly when that offset is not negative.
pub proof fn lemma_window_starts_at_offset(
    config: WindowConfig,
    total_source_posts: int,
    total_bot_posts: int,
)
    requires
        i64::MIN <= total_source_posts <= i64::MAX,
        i64::MIN <= total_bot_posts <= i64::MAX,
    ensures
        window_of(config, total_source_posts, total_bot_posts) is Ok <==> offset_of(
            config,
            total_source_posts,
            total_bot_posts,
        ) >= 0,
        window_of(config, total_source_posts, total_bot_posts) matches Ok(w) ==> w.offset
            == offset_of(config, total_source_posts, total_bot_posts) && w.count
            == config.posts_per_run,
{
}

} // verus!
