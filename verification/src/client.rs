//! The blog service as the pipeline addresses it: the credentials of a run
//! and the requests that it sends.

use vstd::prelude::*;
use vstd::string::*;
use vstd::std_specs::iter::IteratorSpec;
use crate::decimal::{decimal, push_decimal};
use crate::error::{string_result, RunError};
use crate::post::{Post, PostView};
use crate::window::OffsetWindow;

verus! {

/// The number of characters of `s` that stand before its first line break;
/// all of them where it has none.
pub open spec fn line_len(s: Seq<char>) -> int
    decreases s.len(),
{
    if s.len() == 0 || s[0] == '\n' {
        0
    } else {
        1 + line_len(s.drop_first())
    }
}

/// The first line of `s`, without its line break.
pub open spec fn first_line(s: Seq<char>) -> Seq<char> {
    s.take(line_len(s))
}

/// What follows the first line break of `s`, where it has one.
pub open spec fn after_first_line(s: Seq<char>) -> Option<Seq<char>> {
    if line_len(s) < s.len() {
        Some(s.skip(line_len(s) + 1))
    } else {
        None
    }
}

/// The first two lines of a key file. The file has to hold a line break;
/// the second line ends at the next one or at the end of the file, and may be
/// empty.
pub open spec fn key_pair_of(file: Seq<char>) -> Option<(Seq<char>, Seq<char>)> {
    match after_first_line(file) {
        Some(rest) => Some((first_line(file), first_line(rest))),
        None => None,
    }
}

proof fn lemma_line_len_bound(s: Seq<char>)
    ensures
        0 <= line_len(s) <= s.len(),
    decreases s.len(),
{
    if s.len() > 0 && s[0] != '\n' {
        lemma_line_len_bound(s.drop_first());
    }
}

/// Splits a text at its first line break.
fn split_line(text: &str) -> (parts: (&str, Option<&str>))
    ensures
        parts.0@ == first_line(text@),
        match parts.1 {
            Some(rest) => after_first_line(text@) == Some(rest@),
            None => after_first_line(text@) is None,
        },
{
    broadcast use vstd::string::group_string_axioms;

    let total = text.unicode_len();
    let mut chars = text.chars();
    let mut n: usize = 0;
    let mut at_break = false;
    assert(text@.skip(0) =~= text@);
    while !at_break && n < total
        invariant
            n <= total == text@.len(),
            chars.obeys_prophetic_iter_laws(),
            !at_break ==> chars.remaining() == text@.skip(n as int),
            line_len(text@) == n + line_len(text@.skip(n as int)),
            at_break ==> n < total && text@[n as int] == '\n',
        decreases total - n + (if at_break { 0int } else { 1int }),
    {
        let next = chars.next();
        assert(text@.skip(n as int).drop_first() =~= text@.skip(n + 1));
        match next {
            Some(c) => {
                if c == '\n' {
                    at_break = true;
                } else {
                    n += 1;
                }
            },
            None => {},
        }
    }
    proof {
        lemma_line_len_bound(text@);
    }
    let line = text.substring_char(0, n);
    if at_break {
        let rest = text.substring_char(n + 1, total);
        (line, Some(rest))
    } else {
        (line, None)
    }
}

/// Reads the two lines of a key file.
pub fn parse_key_pair(file: &str) -> (pair: Result<(String, String), RunError>)
    ensures
        match pair {
            Ok(p) => key_pair_of(file@) == Some((p.0@, p.1@)),
            Err(e) => e == RunError::Credentials && key_pair_of(file@) is None,
        },
{
    let (first, rest) = split_line(file);
    match rest {
        Some(rest) => {
            let (second, _) = split_line(rest);
            Ok((String::from_str(first), String::from_str(second)))
        },
        None => Err(RunError::Credentials),
    }
}

/// The credentials with which a run addresses the blog service.
#[derive(Debug, PartialEq, Eq)]
pub struct Rumblr {
    /// The API key that goes into every request.
    pub tumblr_key: String,
    pub tumblr_secret: String,
    /// The token under which requests are signed, with its secret.
    pub tumblr_token: String,
    pub tumblr_token_secret: String,
}

/// What a `Rumblr` holds, as mathematical values.
pub struct RumblrView {
    pub tumblr_key: Seq<char>,
    pub tumblr_secret: Seq<char>,
    pub tumblr_token: Seq<char>,
    pub tumblr_token_secret: Seq<char>,
}

impl View for Rumblr {
    type V = RumblrView;

    open spec fn view(&self) -> RumblrView {
        RumblrView {
            tumblr_key: self.tumblr_key@,
            tumblr_secret: self.tumblr_secret@,
            tumblr_token: self.tumblr_token@,
            tumblr_token_secret: self.tumblr_token_secret@,
        }
    }
}

/// The credentials that two key files hold: key and secret in the first,
/// token and token secret in the second.
pub open spec fn credentials_of(key_file: Seq<char>, token_file: Seq<char>) -> Option<RumblrView> {
    match (key_pair_of(key_file), key_pair_of(token_file)) {
        (Some(key), Some(token)) => Some(
            RumblrView {
                tumblr_key: key.0,
                tumblr_secret: key.1,
                tumblr_token: token.0,
                tumblr_token_secret: token.1,
            },
        ),
        _ => None,
    }
}

/// The address under which the photo posts of `blog` are listed and counted.
pub open spec fn posts_address(key: Seq<char>, blog: Seq<char>) -> Seq<char> {
    "https://api.tumblr.com/v2/blog/"@ + blog + "/posts/photo?api_key="@ + key
        + "&blog-identifier="@ + blog
}

/// The address of one page of the photo posts of `blog`, with captions
/// rendered as markup.
pub open spec fn page_address(key: Seq<char>, blog: Seq<char>, window: OffsetWindow) -> Seq<char> {
    posts_address(key, blog) + "&offset="@ + decimal(window.offset as nat) + "&limit="@ + decimal(
        window.count as nat,
    ) + "&format=markdown"@
}

/// The address that reblogs `post` to `blog` with `comment` as its caption.
/// Only a photo post has one.
pub open spec fn reblog_address(
    key: Seq<char>,
    post: PostView,
    blog: Seq<char>,
    comment: Seq<char>,
) -> Result<Seq<char>, RunError> {
    match post {
        PostView::Photo { id, reblog_key, .. } => Ok(
            "https://api.tumblr.com/v2/blog/"@ + blog + "/post/reblog?api_key="@ + key + "&type="@
                + "photo"@ + "&id="@ + decimal(id as nat) + "&reblog_key="@ + reblog_key
                + "&comment="@ + comment,
        ),
        PostView::Other(_) => Err(RunError::WrongPostKind),
    }
}

impl Rumblr {
    /// Reads the credentials out of the texts of the two key files.
    pub fn from_key_files(key_file: &str, token_file: &str) -> (client: Result<Rumblr, RunError>)
        ensures
            match client {
                Ok(c) => credentials_of(key_file@, token_file@) == Some(c@),
                Err(e) => e == RunError::Credentials && credentials_of(key_file@, token_file@)
                    is None,
            },
    {
        let key = parse_key_pair(key_file);
        let token = parse_key_pair(token_file);
        match (key, token) {
            (Ok(key), Ok(token)) => Ok(
                Rumblr {
                    tumblr_key: key.0,
                    tumblr_secret: key.1,
                    tumblr_token: token.0,
                    tumblr_token_secret: token.1,
                },
            ),
            _ => Err(RunError::Credentials),
        }
    }

    /// The address to ask for the number of photo posts of `blog`.
    pub fn total_posts_url(&self, blog: &str) -> (url: String)
        ensures
            url@ == posts_address(self@.tumblr_key, blog@),
    {
        let mut url = String::from_str("https://api.tumblr.com/v2/blog/");
        url.append(blog);
        url.append("/posts/photo?api_key=");
        url.append(self.tumblr_key.as_str());
        url.append("&blog-identifier=");
        url.append(blog);
        url
    }

    /// The address to ask for the photo posts of `blog` that lie in `window`.
    pub fn posts_url(&self, blog: &str, window: OffsetWindow) -> (url: String)
        ensures
            url@ == page_address(self@.tumblr_key, blog@, window),
    {
        let mut url = self.total_posts_url(blog);
        url.append("&offset=");
        push_decimal(&mut url, window.offset);
        url.append("&limit=");
        push_decimal(&mut url, window.count);
        url.append("&format=markdown");
        url
    }

    /// The address that reblogs `post` to `blog` with `comment` as the new
    /// caption; an error where `post` is no photo post.
    pub fn reblog_url(&self, post: &Post, blog: &str, comment: &str) -> (url: Result<
        String,
        RunError,
    >)
        ensures
            string_result(url) == reblog_address(self@.tumblr_key, post@, blog@, comment@),
    {
        let kind = post.post_type()?;
        let id = post.id()?;
        let reblog_key = post.reblog_key()?;
        let mut url = String::from_str("https://api.tumblr.com/v2/blog/");
        url.append(blog);
        url.append("/post/reblog?api_key=");
        url.append(self.tumblr_key.as_str());
        url.append("&type=");
        url.append(kind);
        url.append("&id=");
        push_decimal(&mut url, id);
        url.append("&reblog_key=");
        url.append(reblog_key.as_str());
        url.append("&comment=");
        url.append(comment);
        Ok(url)
    }
}

} // verus!
