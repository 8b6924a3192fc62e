//! The ways in which a run can fail. Every one of them ends the run.

use vstd::prelude::*;

verus! {

/// Why a run stopped before its batch was complete.
#[derive(Clone, Copy, Debug, PartialEq, Eq, Structural)]
pub enum RunError {
    /// A request to the blog service did not come back.
    Network,
    /// A response body was not UTF-8, not JSON, held a run of zeros too long
    /// for the parser, or lacked a field that the pipeline reads.
    MalformedResponse,
    /// A photo-only operation was asked of a post that is no photo post.
    WrongPostKind,
    /// The translation service did not return a translated text.
    Translation,
    /// The window to fetch would start before the first post of the blog.
    NegativeOffset,
    /// A key file did not hold its two lines.
    Credentials,
    /// The pipeline was told of something it had not asked for.
    UnexpectedEvent,
}

/// A fallible text, with the text taken as a sequence of characters.
pub open spec fn string_result(r: Result<String, RunError>) -> Result<Seq<char>, RunError> {
    match r {
        Ok(text) => Ok(text@),
        Err(e) => Err(e),
    }
}

/// A fallible borrowed text, with the text taken as a sequence of characters.
pub open spec fn str_result(r: Result<&str, RunError>) -> Result<Seq<char>, RunError> {
    match r {
        Ok(text) => Ok(text@),
        Err(e) => Err(e),
    }
}

} // verus!
