//! The records that the forum stores and exchanges.

use vstd::prelude::*;

verus! {

/// Name of the search index that holds categories.
pub const CATEGORY_INDEX: &'static str = "tidder_category";

/// Name of the search index that holds comments.
pub const COMMENT_INDEX: &'static str = "tidder_comment";

/// Name of the search index that holds posts.
pub const POST_INDEX: &'static str = "tidder_post";

#[derive(Debug, Clone)]
pub struct Category {
    pub id: String,
    pub name: String,
    pub posts: Option<u64>,
}

#[derive(Debug, Clone)]
pub struct Post {
    pub id: Option<String>,
    pub author_name: String,
    pub author_id: String,
    pub category_id: String,
    pub category_name: String,
    pub title: String,
    pub body: String,
    pub upvotes: u32,
    pub downvotes: u32,
    pub published: bool,
    pub deleted: bool,
    pub created_at: String,
    pub updated_at: String,
}

#[derive(Debug, Clone)]
pub struct Comment {
    pub id: Option<String>,
    pub author_name: String,
    pub author_id: String,
    pub post_id: String,
    pub body: String,
    pub deleted: bool,
    pub upvotes: u32,
    pub downvotes: u32,
    pub created_at: String,
    pub updated_at: String,
}

#[derive(Debug, Clone)]
pub struct User {
    pub id: String,
    pub username: String,
    pub username_lower: String,
    pub password: String,
    pub avatar_url: Option<String>,
    pub created_at: String,
    pub role: String,
}

/// Credentials submitted at login or registration.
#[derive(Debug, Clone)]
pub struct UserRequest {
    pub username: String,
    pub password: String,
}

/// A new post: either `category_id` names an existing category or
/// `new_category` names one to create.
#[derive(Debug, Clone)]
pub struct CreatePostRequest {
    pub new_category: Option<String>,
    pub category_id: Option<String>,
    pub title: String,
    pub body: String,
}

#[derive(Debug, Clone)]
pub struct CreateCommentRequest {
    pub body: String,
}

#[derive(Debug, Clone)]
pub struct GetPostsResponse {
    pub posts: Vec<Post>,
}

/// Query parameters shared by the read endpoints.
#[derive(Debug, Clone)]
pub struct QueryParams {
    pub q: Option<String>,
    pub show_all: Option<bool>,
    pub draft: Option<bool>,
}

/// The claim set that a session token carries.
#[derive(Debug, Clone)]
pub struct Claims {
    pub sub: String,
    pub iss: String,
    pub exp: usize,
    pub iat: usize,
    pub username: String,
    pub role: String,
}

/// The two indexes whose documents can be soft-deleted.
#[derive(Debug, Clone, Copy, PartialEq, Eq, Structural)]
pub enum Index {
    Post,
    Comment,
}

impl Index {
    /// The name of the search index that holds this kind of document.
    pub fn name(&self) -> (r: &'static str)
        ensures
            r@ == (match self {
                Index::Post => POST_INDEX@,
                Index::Comment => COMMENT_INDEX@,
            }),
    {
        match self {
            Index::Post => POST_INDEX,
            Index::Comment => COMMENT_INDEX,
        }
    }
}

fn copy_opt_string(s: &Option<String>) -> (r: Option<String>)
    ensures
        r == *s,
{
    match s {
        Some(v) => Some(v.clone()),
        None => None,
    }
}

impl Post {
    /// A field-by-field copy.
    pub fn duplicate(&self) -> (r: Post)
        ensures
            r == *self,
    {
        Post {
            id: copy_opt_string(&self.id),
            author_name: self.author_name.clone(),
            author_id: self.author_id.clone(),
            category_id: self.category_id.clone(),
            category_name: self.category_name.clone(),
            title: self.title.clone(),
            body: self.body.clone(),
            upvotes: self.upvotes,
            downvotes: self.downvotes,
            published: self.published,
            deleted: self.deleted,
            created_at: self.created_at.clone(),
            updated_at: self.updated_at.clone(),
        }
    }
}

impl Comment {
    /// A field-by-field copy.
    pub fn duplicate(&self) -> (r: Comment)
        ensures
            r == *self,
    {
        Comment {
            id: copy_opt_string(&self.id),
            author_name: self.author_name.clone(),
            author_id: self.author_id.clone(),
            post_id: self.post_id.clone(),
            body: self.body.clone(),
            deleted: self.deleted,
            upvotes: self.upvotes,
            downvotes: self.downvotes,
            created_at: self.created_at.clone(),
            updated_at: self.updated_at.clone(),
        }
    }
}

} // verus!
