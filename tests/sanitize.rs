use tidder::model::{Comment, Post};
use tidder::sanitize::{fallback_to_marker, sanitize_comments, sanitize_posts, DELETED_TEXT, RAW_HTML_OMITTED};

fn post(title: &str, body: &str, deleted: bool) -> Post {
    Post {
        id: None,
        author_name: "Alice".to_string(),
        author_id: "A".to_string(),
        category_id: "c1".to_string(),
        category_name: "General".to_string(),
        title: title.to_string(),
        body: body.to_string(),
        upvotes: 0,
        downvotes: 0,
        published: true,
        deleted,
        created_at: "t".to_string(),
        updated_at: "t".to_string(),
    }
}

fn comment(body: &str, deleted: bool) -> Comment {
    Comment {
        id: None,
        author_name: "Alice".to_string(),
        author_id: "A".to_string(),
        post_id: "p1".to_string(),
        body: body.to_string(),
        deleted,
        upvotes: 0,
        downvotes: 0,
        created_at: "t".to_string(),
        updated_at: "t".to_string(),
    }
}

#[test]
fn markdown_is_rendered() {
    let mut p = post("Title here", "**bold** move", false);
    let r = p.sanitize(&false);
    assert_eq!(r.body, "<p><strong>bold</strong> move</p>\n");
    assert_eq!(r.title, "Title here");
    assert_eq!(p.body, "**bold** move");
}

#[test]
fn deleted_post_is_redacted_without_override() {
    let mut p = post("Title here", "secret text", true);
    let r = p.sanitize(&false);
    assert_eq!(r.title, DELETED_TEXT);
    assert_eq!(r.body, DELETED_TEXT);
    assert!(r.deleted);
    assert_eq!(p.title, "Title here");
    assert_eq!(p.body, "secret text");
}

#[test]
fn deleted_post_is_rendered_with_override() {
    let mut p = post("Title here", "secret text", true);
    let r = p.sanitize(&true);
    assert_eq!(r.title, "Title here");
    assert_eq!(r.body, "<p>secret text</p>\n");
}

#[test]
fn raw_html_only_body_becomes_marker() {
    let mut p = post("Title here", "<script>alert(1)</script>", false);
    let r = p.sanitize(&false);
    assert_eq!(r.body, DELETED_TEXT);
    assert_eq!(r.title, "Title here");
    let mut c = comment("<div>\nhi\n</div>", false);
    assert_eq!(c.sanitize(&true).body, DELETED_TEXT);
}

#[test]
fn marker_renders_as_omitted_html() {
    let html = comrak::markdown_to_html(DELETED_TEXT, &comrak::ComrakOptions::default());
    assert_eq!(html, format!("{}\n", RAW_HTML_OMITTED));
}

#[test]
fn sanitizing_the_marker_is_idempotent() {
    for (deleted, show_all) in [(false, false), (false, true), (true, false), (true, true)] {
        let mut p = post(DELETED_TEXT, DELETED_TEXT, deleted);
        let r = p.sanitize(&show_all);
        assert_eq!(r.body, DELETED_TEXT);
        assert_eq!(r.title, DELETED_TEXT);
        let mut c = comment(DELETED_TEXT, deleted);
        assert_eq!(c.sanitize(&show_all).body, DELETED_TEXT);
    }
}

#[test]
fn deleted_comment_is_redacted() {
    let mut c = comment("rude words", true);
    assert_eq!(c.sanitize(&false).body, DELETED_TEXT);
    assert_eq!(c.body, "rude words");
    assert_eq!(c.sanitize(&true).body, "<p>rude words</p>\n");
}

#[test]
fn listings_are_sanitized_in_order() {
    let posts = vec![post("One one", "first", false), post("Two two", "second", true)];
    let r = sanitize_posts(posts, false);
    assert_eq!(r.len(), 2);
    assert_eq!(r[0].body, "<p>first</p>\n");
    assert_eq!(r[1].title, DELETED_TEXT);
    let r = sanitize_comments(vec![comment("x", true), comment("y", false)], false);
    assert_eq!(r[0].body, DELETED_TEXT);
    assert_eq!(r[1].body, "<p>y</p>\n");
    assert!(sanitize_posts(Vec::new(), true).is_empty());
}

#[test]
fn fallback_replaces_only_omitted_html() {
    assert_eq!(fallback_to_marker("<!-- raw HTML omitted -->\n".to_string()), DELETED_TEXT);
    assert_eq!(fallback_to_marker(" \n\t<!-- raw HTML omitted -->\n<!-- raw HTML omitted -->".to_string()), DELETED_TEXT);
    assert_eq!(fallback_to_marker(" \n\t<!-- raw HTML omitted --><p>x</p>".to_string()), " \n\t<!-- raw HTML omitted --><p>x</p>");
    assert_eq!(fallback_to_marker("<p>a</p>\n<!-- raw HTML omitted -->".to_string()), "<p>a</p>\n<!-- raw HTML omitted -->");
    assert_eq!(fallback_to_marker(String::new()), DELETED_TEXT);
    assert_eq!(fallback_to_marker("  \n ".to_string()), DELETED_TEXT);
    assert_eq!(fallback_to_marker("<!-- raw HTML".to_string()), "<!-- raw HTML");
}

#[test]
fn empty_rendering_becomes_marker() {
    let mut p = post("Title here", "   ", false);
    assert_eq!(p.sanitize(&false).body, DELETED_TEXT);
    let mut c = comment(" \n ", false);
    assert_eq!(c.sanitize(&false).body, DELETED_TEXT);
}

#[test]
fn omitted_html_followed_by_text_is_kept() {
    let mut p = post("Title here", "<div>x</div>\n\nhello", false);
    assert_eq!(p.sanitize(&false).body, "<!-- raw HTML omitted -->\n<p>hello</p>\n");
}
