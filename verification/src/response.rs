//! Reading the blog service's responses.
//!
//! A response is a JSON document of the shape
//! `{ "response": { "total_posts": .., "posts": [ .. ] } }`. A record in
//! `posts` whose `type` is `"photo"` has to hold every field of a photo post;
//! a record of any other type is kept by its type alone. Whatever does not
//! have this shape is a malformed response: nothing is skipped or guessed.

use vstd::prelude::*;
use vstd::string::*;
use crate::document::{document_of, parse_body, views, Json, JsonView};
use crate::error::RunError;
use crate::markup::{sanitize_caption, strip_markup};
use crate::post::{texts, Post, PostView};

verus! {

/// The text under `key` in `record`.
pub open spec fn text_field(record: JsonView, key: Seq<char>) -> Option<Seq<char>> {
    match record.member(key) {
        Some(value) => value.text(),
        None => None,
    }
}

/// Whether every element of `items` is a string.
pub open spec fn all_text(items: Seq<JsonView>) -> bool {
    forall|i: int| 0 <= i < items.len() ==> (#[trigger] items[i]).text() is Some
}

/// The tags that an array of strings holds: each of them, in the given order,
/// repeated where the array repeats it.
pub open spec fn tags_of(value: JsonView) -> Option<Seq<Seq<char>>> {
    match value.items() {
        Some(items) => if all_text(items) {
            Some(Seq::new(items.len(), |i: int| items[i].text()->Some_0))
        } else {
            None
        },
        None => None,
    }
}

/// The array that holds `tags` as its strings.
pub open spec fn tag_array(tags: Seq<Seq<char>>) -> JsonView {
    JsonView::Array(Seq::new(tags.len(), |i: int| JsonView::Text(tags[i])))
}

/// Reading tags neither drops nor reorders nor merges them: an array of
/// strings gives back exactly the strings that it was made of.
pub proof fn lemma_tags_round_trip(tags: Seq<Seq<char>>)
    ensures
        tags_of(tag_array(tags)) == Some(tags),
{
    assert(all_text(tag_array(tags)->Array_0));
}

/// The photo post that `record` describes, where it holds all six fields in
/// their kinds. The caption loses its markup; everything else is taken as it
/// is.
pub open spec fn photo_of(record: JsonView) -> Option<PostView> {
    let blog_name = text_field(record, "blog_name"@);
    let caption = text_field(record, "caption"@);
    let post_url = text_field(record, "post_url"@);
    let reblog_key = text_field(record, "reblog_key"@);
    let id = match record.member("id"@) {
        Some(value) => value.unsigned(),
        None => None,
    };
    let tags = match record.member("tags"@) {
        Some(value) => tags_of(value),
        None => None,
    };
    if blog_name is Some && caption is Some && post_url is Some && reblog_key is Some && id is Some
        && tags is Some {
        Some(
            PostView::Photo {
                blog_name: blog_name->Some_0,
                caption: strip_markup(caption->Some_0),
                id: id->Some_0,
                post_url: post_url->Some_0,
                reblog_key: reblog_key->Some_0,
                tags: tags->Some_0,
            },
        )
    } else {
        None
    }
}

/// The post that `record` describes: its `type` decides.
pub open spec fn post_of(record: JsonView) -> Option<PostView> {
    match text_field(record, "type"@) {
        Some(kind) => if kind == "photo"@ {
            photo_of(record)
        } else {
            Some(PostView::Other(kind))
        },
        None => None,
    }
}

/// Whether every element of `records` describes a post.
pub open spec fn all_posts(records: Seq<JsonView>) -> bool {
    forall|i: int| 0 <= i < records.len() ==> post_of(#[trigger] records[i]) is Some
}

/// The posts that `records` describe, one for each and in the same order,
/// where every record describes one.
pub open spec fn listed_posts(records: Seq<JsonView>) -> Option<Seq<PostView>> {
    if all_posts(records) {
        Some(Seq::new(records.len(), |i: int| post_of(records[i])->Some_0))
    } else {
        None
    }
}

/// The posts that a document lists, in the order in which it lists them.
pub open spec fn posts_of(doc: JsonView) -> Option<Seq<PostView>> {
    match doc.member("response"@) {
        Some(response) => match response.member("posts"@) {
            Some(posts) => match posts.items() {
                Some(records) => listed_posts(records),
                None => None,
            },
            None => None,
        },
        None => None,
    }
}

/// The number of posts that a document reports.
pub open spec fn total_of(doc: JsonView) -> Option<i64> {
    match doc.member("response"@) {
        Some(response) => match response.member("total_posts"@) {
            Some(total) => total.signed(),
            None => None,
        },
        None => None,
    }
}

/// The posts that a response body lists.
pub open spec fn posts_in_body(body: Seq<u8>) -> Option<Seq<PostView>> {
    match document_of(body) {
        Some(doc) => posts_of(doc),
        None => None,
    }
}

/// The number of posts that a response body reports.
pub open spec fn total_in_body(body: Seq<u8>) -> Option<i64> {
    match document_of(body) {
        Some(doc) => total_of(doc),
        None => None,
    }
}

/// The views of a list of posts, in order.
pub open spec fn post_views(posts: Seq<Post>) -> Seq<PostView> {
    Seq::new(posts.len(), |i: int| posts[i]@)
}

/// A parsed page against what the response holds: the posts where it is well
/// formed, and `MalformedResponse` where it is not.
pub open spec fn page_matches(
    page: Result<Vec<Post>, RunError>,
    expected: Option<Seq<PostView>>,
) -> bool {
    match page {
        Ok(posts) => expected == Some(post_views(posts@)),
        Err(e) => e == RunError::MalformedResponse && expected is None,
    }
}

/// A parsed count against what the response holds.
pub open spec fn total_matches(total: Result<i64, RunError>, expected: Option<i64>) -> bool {
    match total {
        Ok(n) => expected == Some(n),
        Err(e) => e == RunError::MalformedResponse && expected is None,
    }
}

/// A parsed post against what the record holds.
pub open spec fn post_matches(post: Result<Post, RunError>, expected: Option<PostView>) -> bool {
    match post {
        Ok(p) => expected == Some(p@),
        Err(e) => e == RunError::MalformedResponse && expected is None,
    }
}

/// Copies the text under `key` out of `record`.
fn read_text(record: &Json, key: &str) -> (text: Option<String>)
    ensures
        match text {
            Some(t) => text_field(record@, key@) == Some(t@),
            None => text_field(record@, key@) is None,
        },
{
    match record.member(key) {
        Some(value) => match value.as_text() {
            Some(text) => Some(text.clone()),
            None => None,
        },
        None => None,
    }
}

/// Copies the tags out of an array of strings.
fn read_tags(value: &Json) -> (tags: Option<Vec<String>>)
    ensures
        match tags {
            Some(t) => tags_of(value@) == Some(texts(t@)),
            None => tags_of(value@) is None,
        },
{
    match value.as_items() {
        Some(items) => {
            let mut tags: Vec<String> = Vec::new();
            let mut i: usize = 0;
            while i < items.len()
                invariant
                    i <= items.len(),
                    value@.items() == Some(views(items@)),
                    tags@.len() == i,
                    forall|k: int|
                        0 <= k < i ==> views(items@)[k].text() == Some((#[trigger] tags@[k])@),
                decreases items.len() - i,
            {
                match items[i].as_text() {
                    Some(tag) => {
                        tags.push(tag.clone());
                    },
                    None => {
                        assert(views(items@)[i as int].text() is None);
                        return None;
                    },
                }
                i += 1;
            }
            assert(all_text(views(items@))) by {
                assert forall|k: int| 0 <= k < items@.len() implies (#[trigger] views(
                    items@,
                )[k]).text() is Some by {
                    assert(views(items@)[k].text() == Some(tags@[k]@));
                }
            }
            Some(tags)
        },
        None => None,
    }
}

/// Reads one photo record.
pub fn parse_photo(record: &Json) -> (post: Result<Post, RunError>)
    ensures
        post_matches(post, photo_of(record@)),
{
    let blog_name = read_text(record, "blog_name");
    let caption = read_text(record, "caption");
    let post_url = read_text(record, "post_url");
    let reblog_key = read_text(record, "reblog_key");
    let id = match record.member("id") {
        Some(value) => value.as_u64(),
        None => None,
    };
    let tags = match record.member("tags") {
        Some(value) => read_tags(value),
        None => None,
    };
    match (blog_name, caption, post_url, reblog_key, id, tags) {
        (
            Some(blog_name),
            Some(caption),
            Some(post_url),
            Some(reblog_key),
            Some(id),
            Some(tags),
        ) => {
            let caption = sanitize_caption(caption.as_str());
            Ok(Post::Photo { blog_name, caption, id, post_url, reblog_key, tags })
        },
        _ => Err(RunError::MalformedResponse),
    }
}

/// Reads one record of a page: a photo post in full, any other post by its
/// type.
pub fn parse_post(record: &Json) -> (post: Result<Post, RunError>)
    ensures
        post_matches(post, post_of(record@)),
{
    match read_text(record, "type") {
        Some(kind) => {
            if kind == String::from_str("photo") {
                parse_photo(record)
            } else {
                Ok(Post::Other(kind))
            }
        },
        None => Err(RunError::MalformedResponse),
    }
}

/// Reads the posts of a page out of its document, in the order in which the
/// service listed them.
pub fn posts_from_document(doc: &Json) -> (page: Result<Vec<Post>, RunError>)
    ensures
        page_matches(page, posts_of(doc@)),
{
    let response = match doc.member("response") {
        Some(response) => response,
        None => { return Err(RunError::MalformedResponse); },
    };
    let listed = match response.member("posts") {
        Some(listed) => listed,
        None => { return Err(RunError::MalformedResponse); },
    };
    let records = match listed.as_items() {
        Some(records) => records,
        None => { return Err(RunError::MalformedResponse); },
    };
    let mut posts: Vec<Post> = Vec::new();
    let mut i: usize = 0;
    while i < records.len()
        invariant
            i <= records.len(),
            posts_of(doc@) == listed_posts(views(records@)),
            posts@.len() == i,
            forall|k: int|
                0 <= k < i ==> post_of(views(records@)[k]) == Some((#[trigger] posts@[k])@),
        decreases records.len() - i,
    {
        match parse_post(&records[i]) {
            Ok(post) => {
                posts.push(post);
            },
            Err(e) => {
                assert(post_of(views(records@)[i as int]) is None);
                return Err(RunError::MalformedResponse);
            },
        }
        i += 1;
    }
    assert(all_posts(views(records@))) by {
        assert forall|k: int| 0 <= k < records@.len() implies post_of(
            #[trigger] views(records@)[k],
        ) is Some by {
            assert(post_of(views(records@)[k]) == Some(posts@[k]@));
        }
    }
    assert(posts_of(doc@)->Some_0 =~= post_views(posts@));
    Ok(posts)
}

/// Reads the total number of posts out of a document.
pub fn total_posts_from_document(doc: &Json) -> (total: Result<i64, RunError>)
    ensures
        total_matches(total, total_of(doc@)),
{
    let found = match doc.member("response") {
        Some(response) => match response.member("total_posts") {
            Some(total) => total.as_i64(),
            None => None,
        },
        None => None,
    };
    match found {
        Some(n) => Ok(n),
        None => Err(RunError::MalformedResponse),
    }
}

/// Reads the posts that the body of a page response lists.
pub fn parse_posts(body: &[u8]) -> (page: Result<Vec<Post>, RunError>)
    ensures
        page_matches(page, posts_in_body(body@)),
{
    match parse_body(body) {
        Some(doc) => posts_from_document(&doc),
        None => Err(RunError::MalformedResponse),
    }
}

/// Reads the total number of posts that a response body reports.
pub fn parse_total_posts(body: &[u8]) -> (total: Result<i64, RunError>)
    ensures
        total_matches(total, total_in_body(body@)),
{
    match parse_body(body) {
        Some(doc) => total_posts_from_document(&doc),
        None => Err(RunError::MalformedResponse),
    }
}

} // verus!
