use rumblr::markup::sanitize_caption;

#[test]
fn strips_simple_tags() {
    assert_eq!(sanitize_caption("<b>hi</b> there"), "hi there");
}

#[test]
fn stripping_twice_changes_nothing() {
    let once = sanitize_caption("<b>hi</b> there");
    assert_eq!(sanitize_caption(&once), once);
    let odd = sanitize_caption("a <<i>b> c < d");
    assert_eq!(odd, "a b> c < d");
    assert_eq!(sanitize_caption(&odd), odd);
}

#[test]
fn plain_text_is_kept() {
    assert_eq!(sanitize_caption(""), "");
    assert_eq!(sanitize_caption("just words"), "just words");
    assert_eq!(sanitize_caption("2 > 1"), "2 > 1");
}

#[test]
fn unclosed_bracket_is_kept() {
    assert_eq!(sanitize_caption("1 < 2"), "1 < 2");
    assert_eq!(sanitize_caption("<p>open <b"), "open <b");
}

#[test]
fn tag_ends_at_the_nearest_closing_bracket() {
    assert_eq!(sanitize_caption("<a href=\"x>y\">z"), "y\">z");
    assert_eq!(sanitize_caption("<<a>b>"), "b>");
    assert_eq!(sanitize_caption("<>x<>"), "x");
}

#[test]
fn tag_may_span_lines() {
    assert_eq!(sanitize_caption("a<br\n/>b"), "ab");
}

#[test]
fn entities_are_not_decoded() {
    assert_eq!(sanitize_caption("&lt;b&gt;bold&lt;/b&gt;"), "&lt;b&gt;bold&lt;/b&gt;");
}

#[test]
fn text_beyond_ascii_is_kept() {
    assert_eq!(sanitize_caption("<p>привет, <i>мир</i></p>"), "привет, мир");
}

#[test]
fn closing_bracket_before_a_tag_is_kept() {
    assert_eq!(sanitize_caption("a>b<c>d"), "a>bd");
    assert_eq!(sanitize_caption("><"), "><");
    assert_eq!(sanitize_caption("<a<b>c>"), "c>");
    assert_eq!(sanitize_caption("x<y>z<w"), "xz<w");
}

/// One pass from left to right: a `<` opens a tag when a `>` follows it
/// somewhere, and the tag runs up to the first such `>`.
fn one_pass(text: &[char]) -> String {
    let mut kept = String::new();
    let mut i = 0;
    while i < text.len() {
        let close = text[i + 1..].iter().position(|c| *c == '>');
        match close {
            Some(distance) if text[i] == '<' => i += distance + 2,
            _ => {
                kept.push(text[i]);
                i += 1;
            }
        }
    }
    kept
}

#[test]
fn every_short_text_is_stripped_in_one_pass() {
    let alphabet = ['<', '>', 'a', '\n', 'я'];
    let mut texts: Vec<Vec<char>> = vec![vec![]];
    let mut from = 0;
    for _ in 0..5 {
        let upto = texts.len();
        for i in from..upto {
            for c in alphabet {
                let mut longer = texts[i].clone();
                longer.push(c);
                texts.push(longer);
            }
        }
        from = upto;
    }
    assert_eq!(texts.len(), 3906);
    for text in &texts {
        let raw: String = text.iter().collect();
        let clean = sanitize_caption(&raw);
        assert_eq!(clean, one_pass(text), "for {:?}", raw);
        assert_eq!(sanitize_caption(&clean), clean, "for {:?}", raw);
    }
}
