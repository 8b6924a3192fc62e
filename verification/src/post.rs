//! The typed model of a blog post.

use vstd::prelude::*;
use vstd::string::*;
use crate::error::{string_result, str_result, RunError};

verus! {

/// A post as the blog service lists it. Only photo posts carry fields; every
/// other kind is known by its type tag alone.
#[derive(Debug, PartialEq, Eq)]
pub enum Post {
    Photo {
        blog_name: String,
        /// Plain text: markup has been removed.
        caption: String,
        id: u64,
        post_url: String,
        reblog_key: String,
        tags: Vec<String>,
    },
    Other(String),
}

/// What a `Post` holds, as mathematical values.
pub enum PostView {
    Photo {
        blog_name: Seq<char>,
        caption: Seq<char>,
        id: u64,
        post_url: Seq<char>,
        reblog_key: Seq<char>,
        tags: Seq<Seq<char>>,
    },
    Other(Seq<char>),
}

/// The texts of a list of strings, in order.
pub open spec fn texts(items: Seq<String>) -> Seq<Seq<char>> {
    Seq::new(items.len(), |i: int| items[i]@)
}

impl View for Post {
    type V = PostView;

    open spec fn view(&self) -> PostView {
        match *self {
            Post::Photo { blog_name, caption, id, post_url, reblog_key, tags } => PostView::Photo {
                blog_name: blog_name@,
                caption: caption@,
                id,
                post_url: post_url@,
                reblog_key: reblog_key@,
                tags: texts(tags@),
            },
            Post::Other(kind) => PostView::Other(kind@),
        }
    }
}

/// Copies a list of strings.
fn clone_texts(items: &Vec<String>) -> (copy: Vec<String>)
    ensures
        texts(copy@) == texts(items@),
{
    let mut copy: Vec<String> = Vec::new();
    let mut i: usize = 0;
    while i < items.len()
        invariant
            i <= items.len(),
            copy@.len() == i,
            forall|k: int| 0 <= k < i ==> (#[trigger] copy@[k])@ == items@[k]@,
        decreases items.len() - i,
    {
        copy.push(items[i].clone());
        i += 1;
    }
    copy
}

impl Clone for Post {
    /// A copy that holds the same values.
    fn clone(&self) -> (copy: Post)
        ensures
            copy@ == self@,
    {
        match self {
            Post::Photo { blog_name, caption, id, post_url, reblog_key, tags } => Post::Photo {
                blog_name: blog_name.clone(),
                caption: caption.clone(),
                id: *id,
                post_url: post_url.clone(),
                reblog_key: reblog_key.clone(),
                tags: clone_texts(tags),
            },
            Post::Other(kind) => Post::Other(kind.clone()),
        }
    }
}

impl PostView {
    /// Whether this is a photo post.
    pub open spec fn is_photo(self) -> bool {
        self is Photo
    }

    /// The identifier, which only a photo post has.
    pub open spec fn id(self) -> Result<u64, RunError> {
        match self {
            PostView::Photo { id, .. } => Ok(id),
            PostView::Other(_) => Err(RunError::WrongPostKind),
        }
    }

    /// The reblog key, which only a photo post has.
    pub open spec fn reblog_key(self) -> Result<Seq<char>, RunError> {
        match self {
            PostView::Photo { reblog_key, .. } => Ok(reblog_key),
            PostView::Other(_) => Err(RunError::WrongPostKind),
        }
    }

    /// The caption, which only a photo post has.
    pub open spec fn caption(self) -> Result<Seq<char>, RunError> {
        match self {
            PostView::Photo { caption, .. } => Ok(caption),
            PostView::Other(_) => Err(RunError::WrongPostKind),
        }
    }

    /// The type tag sent when the post is reblogged, which only a photo post
    /// has.
    pub open spec fn post_type(self) -> Result<Seq<char>, RunError> {
        match self {
            PostView::Photo { .. } => Ok("photo"@),
            PostView::Other(_) => Err(RunError::WrongPostKind),
        }
    }
}

impl Post {
    /// Whether this is a photo post.
    pub fn is_photo(&self) -> (photo: bool)
        ensures
            photo == self@.is_photo(),
    {
        match self {
            Post::Photo { .. } => true,
            Post::Other(_) => false,
        }
    }

    /// The type tag under which a photo post is reblogged; an error for any
    /// other post.
    pub fn post_type(&self) -> (kind: Result<&'static str, RunError>)
        ensures
            str_result(kind) == self@.post_type(),
    {
        match self {
            Post::Photo { .. } => Ok("photo"),
            Post::Other(_) => Err(RunError::WrongPostKind),
        }
    }

    /// The identifier of a photo post; an error for any other post.
    pub fn id(&self) -> (id: Result<u64, RunError>)
        ensures
            id == self@.id(),
    {
        match self {
            Post::Photo { id, .. } => Ok(*id),
            Post::Other(_) => Err(RunError::WrongPostKind),
        }
    }

    /// The key that authorises reblogging a photo post; an error for any
    /// other post.
    pub fn reblog_key(&self) -> (key: Result<String, RunError>)
        ensures
            string_result(key) == self@.reblog_key(),
    {
        match self {
            Post::Photo { reblog_key, .. } => Ok(reblog_key.clone()),
            Post::Other(_) => Err(RunError::WrongPostKind),
        }
    }

    /// The caption of a photo post; an error for any other post.
    pub fn caption(&self) -> (caption: Result<String, RunError>)
        ensures
            string_result(caption) == self@.caption(),
    {
        match self {
            Post::Photo { caption, .. } => Ok(caption.clone()),
            Post::Other(_) => Err(RunError::WrongPostKind),
        }
    }
}

} // verus!
