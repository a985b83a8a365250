//! Building new posts and comments, and sorting search results.

use vstd::prelude::*;
use crate::model::{Category, Comment, CreateCommentRequest, CreatePostRequest, Post};
use crate::sanitize::{post_sanitized, sanitize_post};

verus! {

/// Relies on `chrono::Utc::now` and `DateTime::to_rfc3339`: the current time as
/// RFC 3339 text. Nothing is known of its value.
#[verifier::external_body]
fn now_rfc3339() -> (r: String) {
    chrono::Utc::now().to_rfc3339()
}

/// Where a new post's category comes from.
#[derive(Debug, Clone)]
pub enum CategorySource {
    /// A category of this name is to be created.
    New(String),
    /// The category with this id already exists.
    Existing(String),
}

/// The category a post form asks for: a new one takes precedence; `None` where
/// the form names neither.
pub fn category_source(form: &CreatePostRequest) -> (r: Option<CategorySource>)
    ensures
        form.new_category matches Some(n) ==> r == Some(CategorySource::New(n)),
        form.new_category is None ==> (form.category_id matches Some(id) ==> r == Some(
            CategorySource::Existing(id),
        )),
        form.new_category is None && form.category_id is None ==> r is None,
{
    match (&form.new_category, &form.category_id) {
        (Some(n), _) => Some(CategorySource::New(n.clone())),
        (None, Some(id)) => Some(CategorySource::Existing(id.clone())),
        (None, None) => None,
    }
}

/// A post as it is first stored: not yet indexed, no votes, not deleted,
/// published unless it is a draft, created and updated now.
pub fn new_post(
    author_id: &str,
    author_name: &str,
    category: &Category,
    form: &CreatePostRequest,
    draft: bool,
) -> (p: Post)
    ensures
        p.id is None,
        p.author_id@ == author_id@,
        p.author_name@ == author_name@,
        p.category_id == category.id,
        p.category_name == category.name,
        p.title == form.title,
        p.body == form.body,
        p.upvotes == 0,
        p.downvotes == 0,
        p.published == !draft,
        !p.deleted,
        p.created_at == p.updated_at,
{
    let now = now_rfc3339();
    Post {
        id: None,
        author_id: author_id.to_owned(),
        author_name: author_name.to_owned(),
        category_id: category.id.clone(),
        category_name: category.name.clone(),
        title: form.title.clone(),
        body: form.body.clone(),
        upvotes: 0,
        downvotes: 0,
        published: !draft,
        created_at: now.clone(),
        updated_at: now,
        deleted: false,
    }
}

/// A comment as it is first stored on the post `post_id`: not yet indexed, no
/// votes, not deleted, created and updated now.
pub fn new_comment(
    author_id: &str,
    author_name: &str,
    post_id: &str,
    form: &CreateCommentRequest,
) -> (c: Comment)
    ensures
        c.id is None,
        c.author_id@ == author_id@,
        c.author_name@ == author_name@,
        c.post_id@ == post_id@,
        c.body == form.body,
        c.upvotes == 0,
        c.downvotes == 0,
        !c.deleted,
        c.created_at == c.updated_at,
{
    let now = now_rfc3339();
    Comment {
        id: None,
        author_id: author_id.to_owned(),
        author_name: author_name.to_owned(),
        post_id: post_id.to_owned(),
        body: form.body.clone(),
        deleted: false,
        upvotes: 0,
        downvotes: 0,
        created_at: now.clone(),
        updated_at: now,
    }
}

/// One result of a full-text search across categories and posts.
#[derive(Debug, Clone)]
pub enum SearchHit {
    Category(Category),
    Post(Post),
}

/// The categories among `hits`, in order.
pub open spec fn hit_categories(hits: Seq<SearchHit>) -> Seq<Category>
    decreases hits.len(),
{
    if hits.len() == 0 {
        Seq::empty()
    } else {
        let init = hit_categories(hits.drop_last());
        match hits.last() {
            SearchHit::Category(c) => init.push(c),
            SearchHit::Post(_) => init,
        }
    }
}

/// The posts among `hits` that anyone may read (published, not deleted), in order.
pub open spec fn public_hit_posts(hits: Seq<SearchHit>) -> Seq<Post>
    decreases hits.len(),
{
    if hits.len() == 0 {
        Seq::empty()
    } else {
        let init = public_hit_posts(hits.drop_last());
        match hits.last() {
            SearchHit::Post(p) => if p.published && !p.deleted {
                init.push(p)
            } else {
                init
            },
            SearchHit::Category(_) => init,
        }
    }
}

/// Splits search hits into categories and posts; drafts and deleted posts are
/// dropped and the rest are sanitized without the override.
pub fn collect_search_results(hits: Vec<SearchHit>) -> (r: (Vec<Category>, Vec<Post>))
    ensures
        r.0@ == hit_categories(hits@),
        r.1@.len() == public_hit_posts(hits@).len(),
        forall|i: int|
            0 <= i < r.1@.len() ==> post_sanitized(
                #[trigger] public_hit_posts(hits@)[i],
                r.1@[i],
                false,
            ),
{
    let mut categories: Vec<Category> = Vec::new();
    let mut posts: Vec<Post> = Vec::new();
    let mut i: usize = 0;
    while i < hits.len()
        invariant
            i <= hits@.len(),
            categories@ == hit_categories(hits@.subrange(0, i as int)),
            posts@.len() == public_hit_posts(hits@.subrange(0, i as int)).len(),
            forall|j: int|
                0 <= j < posts@.len() ==> post_sanitized(
                    #[trigger] public_hit_posts(hits@.subrange(0, i as int))[j],
                    posts@[j],
                    false,
                ),
        decreases hits@.len() - i,
    {
        proof {
            let pre = hits@.subrange(0, i + 1);
            assert(pre.drop_last() == hits@.subrange(0, i as int));
            assert(pre.last() == hits@[i as int]);
        }
        match &hits[i] {
            SearchHit::Category(c) => {
                categories.push(Category { id: c.id.clone(), name: c.name.clone(), posts: c.posts });
            },
            SearchHit::Post(p) => {
                if p.published && !p.deleted {
                    let mut q = p.duplicate();
                    let shown = sanitize_post(&mut q, &false);
                    posts.push(shown);
                }
            },
        }
        i = i + 1;
    }
    proof {
        assert(hits@.subrange(0, hits@.len() as int) == hits@);
    }
    (categories, posts)
}

/// The field values that the store must match for a post to be listed: none
/// under the override, else `published == true` and `deleted == false`. Unlike
/// a read by id, a listing thus shows no draft to anyone without the override,
/// its author and admins included.
pub fn listing_conditions(show_all: bool) -> (r: Vec<(&'static str, bool)>)
    ensures
        show_all ==> r@.len() == 0,
        !show_all ==> r@.len() == 2 && r@[0].0@ == "published"@ && r@[0].1 && r@[1].0@
            == "deleted"@ && !r@[1].1,
{
    if show_all {
        Vec::new()
    } else {
        vec![("published", true), ("deleted", false)]
    }
}

} // verus!
