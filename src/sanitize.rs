//! Turns stored posts and comments into what a reader is shown.

use vstd::prelude::*;
use crate::model::{Comment, Post};
use crate::text::{is_only_filler, is_space, only_filler};

verus! {

/// Theme used to highlight fenced code blocks.
pub const CODE_BLOCK_THEME: &'static str = "base16-eighties.dark";

/// The redaction marker that stands in for withheld text.
pub const DELETED_TEXT: &'static str = "<p class=\"text-red-500\">deleted</p>";

/// What the renderer writes in place of raw HTML that it refuses to pass through.
pub const RAW_HTML_OMITTED: &'static str = "<!-- raw HTML omitted -->";

/// The HTML that comrak renders from the markdown `md`, with its default options
/// and fenced code highlighted in `theme`.
pub uninterp spec fn markdown_html(md: Seq<char>, theme: Seq<char>) -> Seq<char>;

/// Relies on `comrak::markdown_to_html_with_plugins` with default options and a
/// syntect highlighter built by `SyntectAdapter::new(theme)`: the output depends
/// on the markdown and the theme alone. The adapter looks the theme up in
/// syntect's default theme set when it highlights, and panics on a name missing
/// there, hence the one theme admitted. Under the default options raw HTML is not
/// passed through: a document that is one HTML block, such as the redaction
/// marker, renders as the omission comment and a line break.
#[verifier::external_body]
fn render_markdown(md: &str, theme: &str) -> (r: String)
    requires
        theme@ == CODE_BLOCK_THEME@,
    ensures
        r@ == markdown_html(md@, theme@),
        md@ == DELETED_TEXT@ ==> r@ == RAW_HTML_OMITTED@.push('\n'),
{
    let adapter = comrak::plugins::syntect::SyntectAdapter::new(theme);
    let options = comrak::ComrakOptions::default();
    let mut plugins = comrak::ComrakPlugins::default();
    plugins.render.codefence_syntax_highlighter = Some(&adapter);
    comrak::markdown_to_html_with_plugins(md, &options, &plugins)
}

/// Whether stored text is withheld: it is deleted and the override is off.
pub open spec fn redacted(deleted: bool, show_all: bool) -> bool {
    !show_all && deleted
}

/// The title that a reader is shown.
pub open spec fn shown_title(title: Seq<char>, deleted: bool, show_all: bool) -> Seq<char> {
    if redacted(deleted, show_all) {
        DELETED_TEXT@
    } else {
        title
    }
}

/// The body that a reader is shown: the marker where the text is withheld,
/// else the rendered markdown, unless the rendering shows nothing (it is empty,
/// or holds only white space and omitted raw HTML), where the marker stands in.
pub open spec fn shown_body(body: Seq<char>, deleted: bool, show_all: bool) -> Seq<char> {
    after_fallback(
        if redacted(deleted, show_all) {
            DELETED_TEXT@
        } else {
            markdown_html(body, CODE_BLOCK_THEME@)
        },
    )
}

/// `after` is `before` as a reader is shown it.
pub open spec fn post_sanitized(before: Post, after: Post, show_all: bool) -> bool {
    &&& after.title@ == shown_title(before.title@, before.deleted, show_all)
    &&& after.body@ == shown_body(before.body@, before.deleted, show_all)
    &&& after.id == before.id
    &&& after.author_name == before.author_name
    &&& after.author_id == before.author_id
    &&& after.category_id == before.category_id
    &&& after.category_name == before.category_name
    &&& after.upvotes == before.upvotes
    &&& after.downvotes == before.downvotes
    &&& after.published == before.published
    &&& after.deleted == before.deleted
    &&& after.created_at == before.created_at
    &&& after.updated_at == before.updated_at
}

/// `after` is `before` as a reader is shown it.
pub open spec fn comment_sanitized(before: Comment, after: Comment, show_all: bool) -> bool {
    &&& after.body@ == shown_body(before.body@, before.deleted, show_all)
    &&& after.id == before.id
    &&& after.author_name == before.author_name
    &&& after.author_id == before.author_id
    &&& after.post_id == before.post_id
    &&& after.deleted == before.deleted
    &&& after.upvotes == before.upvotes
    &&& after.downvotes == before.downvotes
    &&& after.created_at == before.created_at
    &&& after.updated_at == before.updated_at
}

/// What is shown for rendered HTML: the marker where rendering left nothing,
/// or nothing but white space and omitted raw HTML; else the HTML itself.
pub open spec fn after_fallback(html: Seq<char>) -> Seq<char> {
    if only_filler(html, RAW_HTML_OMITTED@) {
        DELETED_TEXT@
    } else {
        html
    }
}

/// Replaces rendered HTML that shows nothing by the marker.
pub fn fallback_to_marker(html: String) -> (r: String)
    ensures
        r@ == after_fallback(html@),
{
    if is_only_filler(html.as_str(), RAW_HTML_OMITTED) {
        DELETED_TEXT.to_owned()
    } else {
        html
    }
}

proof fn lemma_omission_line_is_filler()
    ensures
        only_filler(RAW_HTML_OMITTED@.push('\n'), RAW_HTML_OMITTED@),
{
    reveal_strlit("<!-- raw HTML omitted -->");
    let m = RAW_HTML_OMITTED@;
    let s = m.push('\n');
    assert(!is_space(s[0]));
    assert(s.subrange(0, m.len() as int) == m);
    let rest = s.subrange(m.len() as int, s.len() as int);
    assert(rest == seq!['\n']);
    assert(is_space(rest[0]));
    assert(rest.drop_first().len() == 0);
    assert(only_filler(rest.drop_first(), m));
    assert(only_filler(rest, m));
}

/// The body text shown for `body`.
fn render_body(body: &str, deleted: bool, show_all: bool) -> (r: String)
    ensures
        r@ == shown_body(body@, deleted, show_all),
        body@ == DELETED_TEXT@ ==> r@ == DELETED_TEXT@,
{
    let html = if !show_all && deleted {
        DELETED_TEXT.to_owned()
    } else {
        render_markdown(body, CODE_BLOCK_THEME)
    };
    proof {
        if body@ == DELETED_TEXT@ && !redacted(deleted, show_all) {
            lemma_omission_line_is_filler();
        }
    }
    fallback_to_marker(html)
}

/// What a reader is shown of `post`; the post itself is left as it is.
pub fn sanitize_post(post: &mut Post, show_all: &bool) -> (r: Post)
    ensures
        *final(post) == *old(post),
        post_sanitized(*old(post), r, *show_all),
        old(post).title@ == DELETED_TEXT@ ==> r.title@ == DELETED_TEXT@,
        old(post).body@ == DELETED_TEXT@ ==> r.body@ == DELETED_TEXT@,
{
    let mut shown = post.duplicate();
    shown.body = render_body(post.body.as_str(), post.deleted, *show_all);
    if !*show_all && post.deleted {
        shown.title = DELETED_TEXT.to_owned();
    }
    shown
}

/// What a reader is shown of `comment`; the comment itself is left as it is.
pub fn sanitize_comment(comment: &mut Comment, show_all: &bool) -> (r: Comment)
    ensures
        *final(comment) == *old(comment),
        comment_sanitized(*old(comment), r, *show_all),
        old(comment).body@ == DELETED_TEXT@ ==> r.body@ == DELETED_TEXT@,
{
    let mut shown = comment.duplicate();
    shown.body = render_body(comment.body.as_str(), comment.deleted, *show_all);
    shown
}

impl Post {
    /// What a reader is shown of this post; the post itself is left as it is.
    pub fn sanitize(&mut self, show_all: &bool) -> (r: Post)
        ensures
            *final(self) == *old(self),
            post_sanitized(*old(self), r, *show_all),
            old(self).title@ == DELETED_TEXT@ ==> r.title@ == DELETED_TEXT@,
            old(self).body@ == DELETED_TEXT@ ==> r.body@ == DELETED_TEXT@,
    {
        sanitize_post(self, show_all)
    }
}

impl Comment {
    /// What a reader is shown of this comment; the comment itself is left as it is.
    pub fn sanitize(&mut self, show_all: &bool) -> (r: Comment)
        ensures
            *final(self) == *old(self),
            comment_sanitized(*old(self), r, *show_all),
            old(self).body@ == DELETED_TEXT@ ==> r.body@ == DELETED_TEXT@,
    {
        sanitize_comment(self, show_all)
    }
}

/// Every post of a listing as a reader is shown it, in the same order.
pub fn sanitize_posts(posts: Vec<Post>, show_all: bool) -> (r: Vec<Post>)
    ensures
        r@.len() == posts@.len(),
        forall|i: int| 0 <= i < r@.len() ==> post_sanitized(#[trigger] posts@[i], r@[i], show_all),
{
    let mut out: Vec<Post> = Vec::new();
    let mut i: usize = 0;
    while i < posts.len()
        invariant
            i <= posts@.len(),
            out@.len() == i,
            forall|j: int| 0 <= j < i ==> post_sanitized(#[trigger] posts@[j], out@[j], show_all),
        decreases posts@.len() - i,
    {
        let mut p = posts[i].duplicate();
        let shown = sanitize_post(&mut p, &show_all);
        out.push(shown);
        i = i + 1;
    }
    out
}

/// Every comment of a listing as a reader is shown it, in the same order.
pub fn sanitize_comments(comments: Vec<Comment>, show_all: bool) -> (r: Vec<Comment>)
    ensures
        r@.len() == comments@.len(),
        forall|i: int|
            0 <= i < r@.len() ==> comment_sanitized(#[trigger] comments@[i], r@[i], show_all),
{
    let mut out: Vec<Comment> = Vec::new();
    let mut i: usize = 0;
    while i < comments.len()
        invariant
            i <= comments@.len(),
            out@.len() == i,
            forall|j: int|
                0 <= j < i ==> comment_sanitized(#[trigger] comments@[j], out@[j], show_all),
        decreases comments@.len() - i,
    {
        let mut c = comments[i].duplicate();
        let shown = sanitize_comment(&mut c, &show_all);
        out.push(shown);
        i = i + 1;
    }
    out
}

/// A deleted item read without the override shows the redaction marker as
/// both its title and its body, whoever reads it.
pub proof fn lemma_deleted_is_redacted(before: Post, after: Post, comment: Comment, shown: Comment)
    requires
        before.deleted,
        post_sanitized(before, after, false),
        comment.deleted,
        comment_sanitized(comment, shown, false),
    ensures
        after.title@ == DELETED_TEXT@,
        after.body@ == DELETED_TEXT@,
        shown.body@ == DELETED_TEXT@,
{
}

} // verus!
