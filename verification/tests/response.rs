use rumblr::document::Json;
use rumblr::error::RunError;
use rumblr::post::Post;
use rumblr::response::{
    parse_photo, parse_post, parse_posts, parse_total_posts, posts_from_document,
    total_posts_from_document,
};

fn text(s: &str) -> Json {
    Json::Text(String::from(s))
}

fn number(n: u64) -> Json {
    Json::Number { positive: true, mantissa: n, exponent: 0 }
}

fn object(members: Vec<(&str, Json)>) -> Json {
    Json::Object(members.into_iter().map(|(k, v)| (String::from(k), v)).collect())
}

fn photo_record(tags: Vec<&str>) -> Vec<(&'static str, Json)> {
    vec![
        ("type", text("photo")),
        ("blog_name", text("markv5")),
        ("caption", text("<p>кот <b>спит</b></p>")),
        ("post_url", text("https://markv5.tumblr.com/post/42")),
        ("reblog_key", text("AbCd")),
        ("id", number(42)),
        ("tags", Json::Array(tags.into_iter().map(text).collect())),
    ]
}

fn photo_post(tags: Vec<&str>) -> Post {
    Post::Photo {
        blog_name: String::from("markv5"),
        caption: String::from("кот спит"),
        id: 42,
        post_url: String::from("https://markv5.tumblr.com/post/42"),
        reblog_key: String::from("AbCd"),
        tags: tags.into_iter().map(String::from).collect(),
    }
}

fn without(mut members: Vec<(&'static str, Json)>, key: &str) -> Json {
    members.retain(|(k, _)| *k != key);
    object(members)
}

fn with(mut members: Vec<(&'static str, Json)>, key: &'static str, value: Json) -> Json {
    members.retain(|(k, _)| *k != key);
    members.push((key, value));
    object(members)
}

#[test]
fn photo_record_becomes_a_photo_post() {
    let record = object(photo_record(vec!["cat", "nap"]));
    assert_eq!(parse_photo(&record), Ok(photo_post(vec!["cat", "nap"])));
    assert_eq!(parse_post(&record), Ok(photo_post(vec!["cat", "nap"])));
}

#[test]
fn tags_keep_their_order_and_their_repeats() {
    let record = object(photo_record(vec!["a", "b", "a"]));
    match parse_photo(&record) {
        Ok(Post::Photo { tags, .. }) => {
            assert_eq!(tags, vec![String::from("a"), String::from("b"), String::from("a")])
        }
        other => panic!("no photo post: {:?}", other),
    }
    let none = object(photo_record(vec![]));
    assert_eq!(parse_photo(&none), Ok(photo_post(vec![])));
}

#[test]
fn caption_loses_its_markup_and_nothing_else_does() {
    let record = with(photo_record(vec!["<b>"]), "blog_name", text("<i>markv5</i>"));
    match parse_photo(&record) {
        Ok(Post::Photo { blog_name, caption, tags, .. }) => {
            assert_eq!(caption, "кот спит");
            assert_eq!(blog_name, "<i>markv5</i>");
            assert_eq!(tags, vec![String::from("<b>")]);
        }
        other => panic!("no photo post: {:?}", other),
    }
}

#[test]
fn photo_record_needs_every_field() {
    for key in ["blog_name", "caption", "post_url", "reblog_key", "id", "tags"] {
        let record = without(photo_record(vec!["cat"]), key);
        assert_eq!(parse_photo(&record), Err(RunError::MalformedResponse), "without {}", key);
        assert_eq!(parse_post(&record), Err(RunError::MalformedResponse), "without {}", key);
    }
}

#[test]
fn photo_record_needs_every_field_in_its_kind() {
    for key in ["blog_name", "caption", "post_url", "reblog_key"] {
        let record = with(photo_record(vec!["cat"]), key, number(1));
        assert_eq!(parse_photo(&record), Err(RunError::MalformedResponse), "{} as number", key);
    }
    let text_id = with(photo_record(vec![]), "id", text("42"));
    assert_eq!(parse_photo(&text_id), Err(RunError::MalformedResponse));
    let negative = Json::Number { positive: false, mantissa: 42, exponent: 0 };
    assert_eq!(
        parse_photo(&with(photo_record(vec![]), "id", negative)),
        Err(RunError::MalformedResponse)
    );
    let fraction = Json::Number { positive: true, mantissa: 425, exponent: -1 };
    assert_eq!(
        parse_photo(&with(photo_record(vec![]), "id", fraction)),
        Err(RunError::MalformedResponse)
    );
    let text_tags = with(photo_record(vec![]), "tags", text("cat"));
    assert_eq!(parse_photo(&text_tags), Err(RunError::MalformedResponse));
    let mixed = with(photo_record(vec![]), "tags", Json::Array(vec![text("cat"), number(1)]));
    assert_eq!(parse_photo(&mixed), Err(RunError::MalformedResponse));
    assert_eq!(parse_photo(&Json::Array(vec![])), Err(RunError::MalformedResponse));
}

#[test]
fn other_record_is_kept_by_its_type() {
    let record = object(vec![("type", text("text")), ("body", text("hello"))]);
    assert_eq!(parse_post(&record), Ok(Post::Other(String::from("text"))));
    let bare = object(vec![("type", text("Photo"))]);
    assert_eq!(parse_post(&bare), Ok(Post::Other(String::from("Photo"))));
    let empty = object(vec![("type", text(""))]);
    assert_eq!(parse_post(&empty), Ok(Post::Other(String::new())));
}

#[test]
fn record_needs_a_type() {
    assert_eq!(parse_post(&object(vec![])), Err(RunError::MalformedResponse));
    assert_eq!(parse_post(&object(vec![("type", number(1))])), Err(RunError::MalformedResponse));
    assert_eq!(parse_post(&text("photo")), Err(RunError::MalformedResponse));
    assert_eq!(parse_post(&Json::Null), Err(RunError::MalformedResponse));
}

#[test]
fn page_lists_its_posts_in_order() {
    let doc = object(vec![(
        "response",
        object(vec![(
            "posts",
            Json::Array(vec![
                object(photo_record(vec!["one"])),
                object(vec![("type", text("text"))]),
                object(photo_record(vec!["two"])),
            ]),
        )]),
    )]);
    assert_eq!(
        posts_from_document(&doc),
        Ok(vec![
            photo_post(vec!["one"]),
            Post::Other(String::from("text")),
            photo_post(vec!["two"])
        ])
    );
}

#[test]
fn empty_page_is_a_page() {
    let doc = object(vec![("response", object(vec![("posts", Json::Array(vec![]))]))]);
    assert_eq!(posts_from_document(&doc), Ok(vec![]));
}

#[test]
fn one_bad_record_spoils_the_page() {
    let doc = object(vec![(
        "response",
        object(vec![(
            "posts",
            Json::Array(vec![
                object(photo_record(vec!["one"])),
                without(photo_record(vec!["two"]), "reblog_key"),
            ]),
        )]),
    )]);
    assert_eq!(posts_from_document(&doc), Err(RunError::MalformedResponse));
    let untyped = object(vec![(
        "response",
        object(vec![("posts", Json::Array(vec![object(vec![("id", number(1))])]))]),
    )]);
    assert_eq!(posts_from_document(&untyped), Err(RunError::MalformedResponse));
}

#[test]
fn page_needs_its_shape() {
    assert_eq!(posts_from_document(&Json::Null), Err(RunError::MalformedResponse));
    assert_eq!(posts_from_document(&object(vec![])), Err(RunError::MalformedResponse));
    let flat = object(vec![("posts", Json::Array(vec![]))]);
    assert_eq!(posts_from_document(&flat), Err(RunError::MalformedResponse));
    let no_posts = object(vec![("response", object(vec![("total_posts", number(1))]))]);
    assert_eq!(posts_from_document(&no_posts), Err(RunError::MalformedResponse));
    let posts_object = object(vec![("response", object(vec![("posts", object(vec![]))]))]);
    assert_eq!(posts_from_document(&posts_object), Err(RunError::MalformedResponse));
    let response_array = object(vec![("response", Json::Array(vec![]))]);
    assert_eq!(posts_from_document(&response_array), Err(RunError::MalformedResponse));
}

#[test]
fn total_is_read_from_the_document() {
    let doc = object(vec![("response", object(vec![("total_posts", number(50000))]))]);
    assert_eq!(total_posts_from_document(&doc), Ok(50000));
    let negative = Json::Number { positive: false, mantissa: 3, exponent: 0 };
    let doc = object(vec![("response", object(vec![("total_posts", negative)]))]);
    assert_eq!(total_posts_from_document(&doc), Ok(-3));
}

#[test]
fn total_needs_a_whole_number() {
    let missing = object(vec![("response", object(vec![("posts", Json::Array(vec![]))]))]);
    assert_eq!(total_posts_from_document(&missing), Err(RunError::MalformedResponse));
    let as_text = object(vec![("response", object(vec![("total_posts", text("5"))]))]);
    assert_eq!(total_posts_from_document(&as_text), Err(RunError::MalformedResponse));
    let fraction = Json::Number { positive: true, mantissa: 55, exponent: -1 };
    let doc = object(vec![("response", object(vec![("total_posts", fraction)]))]);
    assert_eq!(total_posts_from_document(&doc), Err(RunError::MalformedResponse));
    let huge = object(vec![("response", object(vec![("total_posts", number(u64::MAX))]))]);
    assert_eq!(total_posts_from_document(&huge), Err(RunError::MalformedResponse));
    assert_eq!(total_posts_from_document(&Json::Array(vec![])), Err(RunError::MalformedResponse));
    assert_eq!(
        total_posts_from_document(&object(vec![("total_posts", number(1))])),
        Err(RunError::MalformedResponse)
    );
}

#[test]
fn total_is_read_from_a_body() {
    let body = b"{\"meta\": {\"status\": 200}, \
        \"response\": {\"total_posts\": 40000, \"posts\": []}}";
    assert_eq!(parse_total_posts(body), Ok(40000));
    assert_eq!(parse_total_posts(b"{\"response\": {\"total_posts\": 0}}"), Ok(0));
}

#[test]
fn total_body_has_to_be_a_well_formed_response() {
    assert_eq!(parse_total_posts(b""), Err(RunError::MalformedResponse));
    assert_eq!(parse_total_posts(b"not json"), Err(RunError::MalformedResponse));
    assert_eq!(parse_total_posts(&[0xff, 0xfe]), Err(RunError::MalformedResponse));
    assert_eq!(parse_total_posts(b"{\"response\": {}}"), Err(RunError::MalformedResponse));
    assert_eq!(
        parse_total_posts(b"{\"response\": {\"total_posts\": \"12\"}}"),
        Err(RunError::MalformedResponse)
    );
    assert_eq!(
        parse_total_posts(b"{\"response\": {\"total_posts\": 1.5}}"),
        Err(RunError::MalformedResponse)
    );
    assert_eq!(parse_total_posts(b"[40000]"), Err(RunError::MalformedResponse));
}

#[test]
fn posts_are_read_from_a_body() {
    let body = "{\"response\": {\"total_posts\": 2, \"posts\": [\
        {\"type\": \"photo\", \"blog_name\": \"markv5\", \"id\": 42, \
         \"post_url\": \"https://markv5.tumblr.com/post/42\", \"reblog_key\": \"AbCd\", \
         \"caption\": \"<p>кот <b>спит</b></p>\", \"tags\": [\"a\", \"b\", \"a\"], \
         \"note_count\": 3},\
        {\"type\": \"quote\", \"text\": \"...\"}]}}";
    assert_eq!(
        parse_posts(body.as_bytes()),
        Ok(vec![photo_post(vec!["a", "b", "a"]), Post::Other(String::from("quote"))])
    );
}

#[test]
fn posts_body_has_to_be_a_well_formed_response() {
    assert_eq!(parse_posts(b""), Err(RunError::MalformedResponse));
    assert_eq!(parse_posts(b"{\"response\": {\"posts\": [}}"), Err(RunError::MalformedResponse));
    assert_eq!(parse_posts(&[b'{', 0x80, b'}']), Err(RunError::MalformedResponse));
    assert_eq!(parse_posts(b"{\"response\": {\"posts\": 3}}"), Err(RunError::MalformedResponse));
    assert_eq!(
        parse_posts(b"{\"response\": {\"posts\": [{\"type\": \"photo\"}]}}"),
        Err(RunError::MalformedResponse)
    );
    assert_eq!(
        parse_posts(b"{\"response\": {\"posts\": [\"photo\"]}}"),
        Err(RunError::MalformedResponse)
    );
}

#[test]
fn body_with_a_long_run_of_zeros_is_malformed() {
    let total = format!("{{\"response\": {{\"total_posts\": 0.{}}}}}", "0".repeat(32769));
    assert_eq!(parse_total_posts(total.as_bytes()), Err(RunError::MalformedResponse));
    let posts = format!(
        "{{\"response\": {{\"posts\": [], \"weight\": -0.{}1}}}}",
        "0".repeat(40000)
    );
    assert_eq!(parse_posts(posts.as_bytes()), Err(RunError::MalformedResponse));
}
