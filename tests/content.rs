use tidder::content::{
    category_source, collect_search_results, listing_conditions, new_comment, new_post, CategorySource,
    SearchHit,
};
use tidder::model::{Category, CreateCommentRequest, CreatePostRequest, Post};
use tidder::sanitize::DELETED_TEXT;

fn form(new_category: Option<&str>, category_id: Option<&str>) -> CreatePostRequest {
    CreatePostRequest {
        new_category: new_category.map(|s| s.to_string()),
        category_id: category_id.map(|s| s.to_string()),
        title: "Hello".to_string(),
        body: "0123456789".to_string(),
    }
}

fn post(id: &str, published: bool, deleted: bool) -> Post {
    Post {
        id: Some(id.to_string()),
        author_name: "Alice".to_string(),
        author_id: "A".to_string(),
        category_id: "c1".to_string(),
        category_name: "General".to_string(),
        title: "Title".to_string(),
        body: "body".to_string(),
        upvotes: 0,
        downvotes: 0,
        published,
        deleted,
        created_at: "t".to_string(),
        updated_at: "t".to_string(),
    }
}

#[test]
fn category_choice() {
    assert!(matches!(category_source(&form(Some("New"), None)), Some(CategorySource::New(n)) if n == "New"));
    assert!(matches!(category_source(&form(Some("New"), Some("c"))), Some(CategorySource::New(_))));
    assert!(matches!(category_source(&form(None, Some("c"))), Some(CategorySource::Existing(id)) if id == "c"));
    assert!(category_source(&form(None, None)).is_none());
}

#[test]
fn new_posts_and_drafts() {
    let cat = Category { id: "c9".to_string(), name: "Rust".to_string(), posts: None };
    let p = new_post("A", "Alice", &cat, &form(None, Some("c9")), false);
    assert!(p.id.is_none());
    assert!(p.published);
    assert!(!p.deleted);
    assert_eq!(p.category_name, "Rust");
    assert_eq!(p.upvotes, 0);
    assert_eq!(p.created_at, p.updated_at);
    assert!(!p.created_at.is_empty());
    let d = new_post("A", "Alice", &cat, &form(None, Some("c9")), true);
    assert!(!d.published);
}

#[test]
fn new_comments() {
    let c = new_comment("A", "Alice", "p7", &CreateCommentRequest { body: "hey".to_string() });
    assert_eq!(c.post_id, "p7");
    assert_eq!(c.body, "hey");
    assert!(!c.deleted);
    assert_eq!(c.created_at, c.updated_at);
}

#[test]
fn search_results_drop_drafts_and_deleted() {
    let hits = vec![
        SearchHit::Post(post("p1", true, false)),
        SearchHit::Category(Category { id: "c1".to_string(), name: "General".to_string(), posts: None }),
        SearchHit::Post(post("p2", false, false)),
        SearchHit::Post(post("p3", true, true)),
        SearchHit::Post(post("p4", true, false)),
    ];
    let (cats, posts) = collect_search_results(hits);
    assert_eq!(cats.len(), 1);
    assert_eq!(cats[0].name, "General");
    assert_eq!(posts.len(), 2);
    assert_eq!(posts[0].id.as_deref(), Some("p1"));
    assert_eq!(posts[1].id.as_deref(), Some("p4"));
    assert_eq!(posts[0].body, "<p>body</p>\n");
    assert_ne!(posts[1].title, DELETED_TEXT);
}

#[test]
fn listings_hide_drafts_without_override() {
    let conditions = listing_conditions(false);
    assert_eq!(conditions, vec![("published", true), ("deleted", false)]);
    assert!(listing_conditions(true).is_empty());
}
