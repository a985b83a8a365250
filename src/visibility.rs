//! Who may see a post or comment, in what form, and who may change it.

use vstd::prelude::*;
use crate::model::{Comment, Post};
use crate::sanitize::{
    comment_sanitized, post_sanitized, redacted, sanitize_comment, sanitize_post,
};
use crate::security::{identity_view, show_all_granted, AccessError, Identity, Role};
use crate::text::str_eq;

verus! {

/// How an item is shown to a given viewer.
#[derive(Debug, Clone, Copy, PartialEq, Eq, Structural)]
pub enum Verdict {
    /// Not shown at all; indistinguishable from an absent item.
    Hidden,
    /// Shown, with its title and body replaced by the redaction marker.
    RedactedVisible,
    /// Shown with its real content.
    FullyVisible,
}

/// Whether `viewer` is the author of an item written by `author`, or an admin.
pub open spec fn owner_or_admin(viewer: Option<(Seq<char>, Role)>, author: Seq<char>) -> bool {
    match viewer {
        Some((subject, role)) => subject == author || role == Role::Admin,
        None => false,
    }
}

/// The visibility policy. The override shows everything; a draft is hidden from
/// anyone who is neither its author nor an admin; a deleted item is redacted;
/// anything else is shown in full.
///
/// An admin who reads a draft by its id therefore sees it without asking for
/// the override; only listings keep drafts from admins unless the override is
/// on (see `content::listing_conditions`).
pub open spec fn verdict(
    viewer: Option<(Seq<char>, Role)>,
    author: Seq<char>,
    published: bool,
    deleted: bool,
    show_all: bool,
) -> Verdict {
    if show_all {
        Verdict::FullyVisible
    } else if !published && !owner_or_admin(viewer, author) {
        Verdict::Hidden
    } else if deleted {
        Verdict::RedactedVisible
    } else {
        Verdict::FullyVisible
    }
}

fn is_owner_or_admin(viewer: &Result<Identity, AccessError>, author_id: &str) -> (r: bool)
    ensures
        r == owner_or_admin(identity_view(*viewer), author_id@),
{
    match viewer {
        Ok(id) => str_eq(id.subject.as_str(), author_id) || id.role.is_admin(),
        Err(_) => false,
    }
}

/// Decides how an item by `author_id`, with the given state flags, is shown to
/// `viewer` (an error stands for an anonymous caller).
pub fn decide_visibility(
    viewer: &Result<Identity, AccessError>,
    author_id: &str,
    published: bool,
    deleted: bool,
    show_all: bool,
) -> (r: Verdict)
    ensures
        r == verdict(identity_view(*viewer), author_id@, published, deleted, show_all),
{
    if show_all {
        Verdict::FullyVisible
    } else if !published && !is_owner_or_admin(viewer, author_id) {
        Verdict::Hidden
    } else if deleted {
        Verdict::RedactedVisible
    } else {
        Verdict::FullyVisible
    }
}

/// A post as `viewer` may read it: `NotFound` where the policy hides it, else
/// the sanitized post.
pub fn view_post(mut post: Post, viewer: &Result<Identity, AccessError>, show_all: bool) -> (r:
    Result<Post, AccessError>)
    ensures
        r is Err <==> verdict(
            identity_view(*viewer),
            post.author_id@,
            post.published,
            post.deleted,
            show_all,
        ) == Verdict::Hidden,
        r matches Err(e) ==> e == AccessError::NotFound,
        r matches Ok(p) ==> post_sanitized(post, p, show_all),
{
    let v = decide_visibility(viewer, post.author_id.as_str(), post.published, post.deleted, show_all);
    match v {
        Verdict::Hidden => Err(AccessError::NotFound),
        _ => Ok(sanitize_post(&mut post, &show_all)),
    }
}

/// A comment as `viewer` may read it. Comments are always published, so none is
/// hidden; a deleted one is redacted unless the override is on.
pub fn view_comment(mut comment: Comment, viewer: &Result<Identity, AccessError>, show_all: bool) -> (r:
    Comment)
    ensures
        verdict(identity_view(*viewer), comment.author_id@, true, comment.deleted, show_all)
            != Verdict::Hidden,
        comment_sanitized(comment, r, show_all),
{
    sanitize_comment(&mut comment, &show_all)
}

/// Whether `id` may unpublish or delete an item written by `author`.
pub open spec fn may_mutate(id: (Seq<char>, Role), author: Seq<char>) -> bool {
    id.1 == Role::Admin || id.0 == author
}

/// Checks that `identity` may unpublish or delete an item by `author_id`: its
/// author or an admin.
pub fn authorize_mutation(identity: &Identity, author_id: &str) -> (r: Result<(), AccessError>)
    ensures
        r is Ok <==> may_mutate((identity.subject@, identity.role), author_id@),
        r matches Err(e) ==> e == AccessError::Forbidden,
{
    if identity.role.is_admin() || str_eq(identity.subject.as_str(), author_id) {
        Ok(())
    } else {
        Err(AccessError::Forbidden)
    }
}

/// Checks that `identity` may publish a post by `author_id`: its author alone,
/// admins included in the refusal.
pub fn authorize_publish(identity: &Identity, author_id: &str) -> (r: Result<(), AccessError>)
    ensures
        r is Ok <==> identity.subject@ == author_id@,
        r matches Err(e) ==> e == AccessError::Forbidden,
{
    if str_eq(identity.subject.as_str(), author_id) {
        Ok(())
    } else {
        Err(AccessError::Forbidden)
    }
}

/// A draft is hidden from every viewer who is neither its author nor an admin,
/// anonymous callers included, whatever override that viewer asks for.
pub proof fn lemma_draft_hidden_from_others(
    requested: Option<bool>,
    viewer: Option<(Seq<char>, Role)>,
    author: Seq<char>,
    deleted: bool,
)
    requires
        !owner_or_admin(viewer, author),
    ensures
        verdict(viewer, author, false, deleted, show_all_granted(requested, viewer))
            == Verdict::Hidden,
{
}

/// Without the override a deleted item is never shown in full, whoever asks.
pub proof fn lemma_deleted_never_fully_visible(
    viewer: Option<(Seq<char>, Role)>,
    author: Seq<char>,
    published: bool,
)
    ensures
        verdict(viewer, author, published, true, false) != Verdict::FullyVisible,
{
}

/// Where an item is shown at all, the sanitizer withholds its text exactly when
/// the policy's verdict is `RedactedVisible`.
pub proof fn lemma_redaction_agrees_with_verdict(
    viewer: Option<(Seq<char>, Role)>,
    author: Seq<char>,
    published: bool,
    deleted: bool,
    show_all: bool,
)
    requires
        verdict(viewer, author, published, deleted, show_all) != Verdict::Hidden,
    ensures
        (verdict(viewer, author, published, deleted, show_all) == Verdict::RedactedVisible)
            == redacted(deleted, show_all),
{
}

} // verus!
