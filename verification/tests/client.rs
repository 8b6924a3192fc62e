use rumblr::client::{parse_key_pair, Rumblr};
use rumblr::error::RunError;
use rumblr::post::Post;
use rumblr::window::OffsetWindow;

fn client() -> Rumblr {
    Rumblr {
        tumblr_key: String::from("KEY"),
        tumblr_secret: String::from("SECRET"),
        tumblr_token: String::from("TOKEN"),
        tumblr_token_secret: String::from("TOKENSECRET"),
    }
}

fn pair(a: &str, b: &str) -> Result<(String, String), RunError> {
    Ok((String::from(a), String::from(b)))
}

#[test]
fn key_file_holds_two_lines() {
    assert_eq!(parse_key_pair("key\nsecret"), pair("key", "secret"));
    assert_eq!(parse_key_pair("key\nsecret\n"), pair("key", "secret"));
    assert_eq!(parse_key_pair("key\nsecret\nmore\nlines"), pair("key", "secret"));
}

#[test]
fn key_file_lines_may_be_empty() {
    assert_eq!(parse_key_pair("key\n"), pair("key", ""));
    assert_eq!(parse_key_pair("\n"), pair("", ""));
    assert_eq!(parse_key_pair("\nsecret"), pair("", "secret"));
    assert_eq!(parse_key_pair("\n\nthird"), pair("", ""));
}

#[test]
fn key_file_lines_are_taken_as_they_are() {
    assert_eq!(parse_key_pair("key \r\n secret\r\n"), pair("key \r", " secret\r"));
    assert_eq!(parse_key_pair("ключ\nсекрет"), pair("ключ", "секрет"));
}

#[test]
fn key_file_of_one_line_is_refused() {
    assert_eq!(parse_key_pair(""), Err(RunError::Credentials));
    assert_eq!(parse_key_pair("key"), Err(RunError::Credentials));
    assert_eq!(parse_key_pair("key secret"), Err(RunError::Credentials));
}

#[test]
fn credentials_come_from_two_key_files() {
    assert_eq!(Rumblr::from_key_files("KEY\nSECRET\n", "TOKEN\nTOKENSECRET\n"), Ok(client()));
    assert_eq!(Rumblr::from_key_files("KEY", "TOKEN\nTOKENSECRET\n"), Err(RunError::Credentials));
    assert_eq!(Rumblr::from_key_files("KEY\nSECRET\n", "TOKEN"), Err(RunError::Credentials));
    assert_eq!(Rumblr::from_key_files("", ""), Err(RunError::Credentials));
}

#[test]
fn total_posts_url_names_key_and_blog() {
    assert_eq!(
        client().total_posts_url("markv5"),
        "https://api.tumblr.com/v2/blog/markv5/posts/photo?api_key=KEY&blog-identifier=markv5"
    );
}

#[test]
fn posts_url_names_the_window() {
    assert_eq!(
        client().posts_url("markv5", OffsetWindow { offset: 2997, count: 3 }),
        "https://api.tumblr.com/v2/blog/markv5/posts/photo?api_key=KEY&blog-identifier=markv5\
         &offset=2997&limit=3&format=markdown"
    );
    assert_eq!(
        client().posts_url("b", OffsetWindow { offset: 0, count: 0 }),
        "https://api.tumblr.com/v2/blog/b/posts/photo?api_key=KEY&blog-identifier=b\
         &offset=0&limit=0&format=markdown"
    );
}

#[test]
fn reblog_url_names_the_post_and_the_comment() {
    let post = Post::Photo {
        blog_name: String::from("markv5"),
        caption: String::from("кот"),
        id: 1234567890123,
        post_url: String::from("https://markv5.tumblr.com/post/1234567890123"),
        reblog_key: String::from("AbCd"),
        tags: vec![],
    };
    assert_eq!(
        client().reblog_url(&post, "markv5engbot", "cat\n(I am a bot)"),
        Ok(String::from(
            "https://api.tumblr.com/v2/blog/markv5engbot/post/reblog?api_key=KEY&type=photo\
             &id=1234567890123&reblog_key=AbCd&comment=cat\n(I am a bot)"
        ))
    );
}

#[test]
fn reblog_url_is_refused_for_other_posts() {
    let post = Post::Other(String::from("text"));
    assert_eq!(client().reblog_url(&post, "markv5engbot", "hi"), Err(RunError::WrongPostKind));
}
