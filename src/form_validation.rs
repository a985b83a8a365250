//! Checks on user-submitted forms: posts, comments and registrations.

use vstd::prelude::*;
use vstd::utf8::encode_utf8;
use crate::model::{CreateCommentRequest, CreatePostRequest, UserRequest};
use crate::security::{bcrypt_hash, bcrypt_outcome};
use crate::text::str_eq;

verus! {

/// Letters, digits, underscores and spaces, the whole text, at least one character.
pub const TITLE_PATTERN: &'static str = "^[a-zA-Z0-9_ ]+$";

/// Letters, digits and underscores, the whole text, at least one character.
pub const USERNAME_PATTERN: &'static str = "^[a-zA-Z0-9_]+$";

/// Some ASCII upper-case letter.
pub const UPPER_PATTERN: &'static str = "[A-Z]";

/// Some ASCII lower-case letter.
pub const LOWER_PATTERN: &'static str = "[a-z]";

/// Some decimal digit (in the Unicode sense).
pub const DIGIT_PATTERN: &'static str = "\\d";

/// Some punctuation character of a fixed set.
pub const SPECIAL_PATTERN: &'static str = "[!@#$%^&*(),.?\\\":{}|<>]";

/// A store error for a username (or its lower-case form) that is already taken.
pub const DUPLICATE_USERNAME: &'static str = "UNIQUE constraint failed: users.username";

/// A store error for a username whose lower-case form is already taken.
pub const DUPLICATE_USERNAME_LOWER: &'static str = "UNIQUE constraint failed: users.username_lower";

/// Length of `s` in bytes, as UTF-8.
pub open spec fn byte_len(s: Seq<char>) -> nat {
    encode_utf8(s).len()
}

pub open spec fn is_word_char(c: char) -> bool {
    ('a' <= c && c <= 'z') || ('A' <= c && c <= 'Z') || ('0' <= c && c <= '9') || c == '_'
}

/// A nonempty text made of word characters, and of spaces where `spaces` allows.
pub open spec fn word_text(s: Seq<char>, spaces: bool) -> bool {
    s.len() > 0 && forall|i: int| 0 <= i < s.len() ==> is_word_char(s[i]) || (spaces && s[i] == ' ')
}

pub open spec fn is_special_char(c: char) -> bool {
    c == '!' || c == '@' || c == '#' || c == '$' || c == '%' || c == '^' || c == '&' || c == '*'
        || c == '(' || c == ')' || c == ',' || c == '.' || c == '?' || c == '"' || c == ':'
        || c == '{' || c == '}' || c == '|' || c == '<' || c == '>'
}

pub open spec fn has_char_in(s: Seq<char>, lo: char, hi: char) -> bool {
    exists|i: int| 0 <= i < s.len() && lo <= #[trigger] s[i] && s[i] <= hi
}

pub open spec fn has_special_char(s: Seq<char>) -> bool {
    exists|i: int| 0 <= i < s.len() && is_special_char(#[trigger] s[i])
}

/// A file name made of word characters, a dot, and one of the image extensions
/// png, jpg, jpeg, gif.
pub open spec fn image_file_name(s: Seq<char>) -> bool {
    exists|k: int|
        0 < k < s.len() && word_text(#[trigger] s.subrange(0, k), false) && s[k] == '.' && {
            let ext = s.subrange(k + 1, s.len() as int);
            ext == "png"@ || ext == "jpg"@ || ext == "jpeg"@ || ext == "gif"@
        }
}

/// Whether the regular expression `pattern` finds a match in `text` (`None`
/// where the pattern does not compile).
pub uninterp spec fn regex_finds(pattern: Seq<char>, text: Seq<char>) -> Option<bool>;

/// Relies on `regex::Regex::new` and `Regex::is_match`: whether `pattern`
/// matches somewhere in `text`, `None` where it is not a valid expression. Without
/// flags, `^` and `$` anchor at the ends of the text and a bracketed class of
/// ASCII characters matches exactly those characters, which gives the meaning of
/// the fixed patterns below.
#[verifier::external_body]
pub(crate) fn regex_is_match(pattern: &str, text: &str) -> (r: Option<bool>)
    ensures
        r == regex_finds(pattern@, text@),
        pattern@ == TITLE_PATTERN@ ==> r == Some(word_text(text@, true)),
        pattern@ == USERNAME_PATTERN@ ==> r == Some(word_text(text@, false)),
        pattern@ == UPPER_PATTERN@ ==> r == Some(has_char_in(text@, 'A', 'Z')),
        pattern@ == LOWER_PATTERN@ ==> r == Some(has_char_in(text@, 'a', 'z')),
        pattern@ == DIGIT_PATTERN@ ==> r is Some,
        pattern@ == DIGIT_PATTERN@ && has_char_in(text@, '0', '9') ==> r == Some(true),
        pattern@ == SPECIAL_PATTERN@ ==> r == Some(has_special_char(text@)),
        pattern@ == IMAGE_NAME_PATTERN@ ==> r == Some(image_file_name(text@)),
{
    match regex::Regex::new(pattern) {
        Ok(re) => Some(re.is_match(text)),
        Err(_) => None,
    }
}

/// A whole file name: word characters, a dot, an image extension.
pub const IMAGE_NAME_PATTERN: &'static str = "^[a-zA-Z0-9_]+\\.(png|jpg|jpeg|gif)$";

/// The first rule that a new post breaks, if any.
pub open spec fn post_form_error(form: CreatePostRequest) -> Option<Seq<char>> {
    let body = byte_len(form.body@);
    let title = byte_len(form.title@);
    if body < 10 {
        Some("Post body must be at least 10 characters long"@)
    } else if body > 10000 {
        Some("Post body can be at most 10000 characters long"@)
    } else if !word_text(form.title@, true) {
        Some("Title can only contain letters, numbers, spaces and underscores"@)
    } else if title < 5 {
        Some("Title must be at least 5 characters long"@)
    } else if title > 100 {
        Some("Title must be less than 100 characters long"@)
    } else if form.new_category is None && form.category_id is None {
        Some("Category is required"@)
    } else if form.new_category is Some && form.category_id is Some {
        Some("Cannot specify both category and new_category"@)
    } else if form.new_category matches Some(c) && byte_len(c@) < 3 {
        Some("New category name must be at least 3 characters long"@)
    } else if form.new_category matches Some(c) && byte_len(c@) > 50 {
        Some("New category name must be less than 50 characters long"@)
    } else if form.new_category matches Some(c) && !word_text(c@, true) {
        Some("New category name can only contain letters, numbers, spaces and underscores"@)
    } else {
        None
    }
}

/// The view of a validation result.
pub open spec fn outcome_view(r: Result<(), &'static str>) -> Option<Seq<char>> {
    match r {
        Ok(_) => None,
        Err(m) => Some(m@),
    }
}

/// Whether `pattern` matches in `text`; a pattern that does not compile matches nothing.
pub(crate) fn matches_pattern(pattern: &str, text: &str) -> (r: bool)
    ensures
        r == (regex_finds(pattern@, text@) == Some(true)),
        pattern@ == TITLE_PATTERN@ ==> r == word_text(text@, true),
        pattern@ == USERNAME_PATTERN@ ==> r == word_text(text@, false),
        pattern@ == UPPER_PATTERN@ ==> r == has_char_in(text@, 'A', 'Z'),
        pattern@ == LOWER_PATTERN@ ==> r == has_char_in(text@, 'a', 'z'),
        pattern@ == SPECIAL_PATTERN@ ==> r == has_special_char(text@),
        pattern@ == IMAGE_NAME_PATTERN@ ==> r == image_file_name(text@),
{
    match regex_is_match(pattern, text) {
        Some(b) => b,
        None => false,
    }
}

/// Checks a new post: body and title lengths (in bytes), the title's
/// characters, and exactly one of an existing or a new category, well named.
pub fn validate_new_post(form: &CreatePostRequest) -> (r: Result<(), &'static str>)
    requires
        byte_len(form.body@) <= usize::MAX,
        byte_len(form.title@) <= usize::MAX,
        form.new_category matches Some(c) ==> byte_len(c@) <= usize::MAX,
    ensures
        outcome_view(r) == post_form_error(*form),
{
    let body = form.body.as_str().len();
    let title = form.title.as_str().len();
    if body < 10 {
        return Err("Post body must be at least 10 characters long");
    } else if body > 10000 {
        return Err("Post body can be at most 10000 characters long");
    } else if !matches_pattern(TITLE_PATTERN, form.title.as_str()) {
        return Err("Title can only contain letters, numbers, spaces and underscores");
    } else if title < 5 {
        return Err("Title must be at least 5 characters long");
    } else if title > 100 {
        return Err("Title must be less than 100 characters long");
    }
    match (&form.new_category, &form.category_id) {
        (None, None) => Err("Category is required"),
        (Some(_), Some(_)) => Err("Cannot specify both category and new_category"),
        (Some(c), None) => {
            let n = c.as_str().len();
            if n < 3 {
                Err("New category name must be at least 3 characters long")
            } else if n > 50 {
                Err("New category name must be less than 50 characters long")
            } else if !matches_pattern(TITLE_PATTERN, c.as_str()) {
                Err("New category name can only contain letters, numbers, spaces and underscores")
            } else {
                Ok(())
            }
        },
        (None, Some(_)) => Ok(()),
    }
}

/// The first rule that a new comment breaks, if any.
pub open spec fn comment_form_error(form: CreateCommentRequest) -> Option<Seq<char>> {
    if byte_len(form.body@) < 1 {
        Some("Body must be at least 1 characters long"@)
    } else if byte_len(form.body@) > 10000 {
        Some("Body must be less than 10000 characters long"@)
    } else {
        None
    }
}

/// Checks a new comment: between 1 and 10000 bytes of body.
pub fn validate_new_comment(form: &CreateCommentRequest) -> (r: Result<(), &'static str>)
    requires
        byte_len(form.body@) <= usize::MAX,
    ensures
        outcome_view(r) == comment_form_error(*form),
{
    let n = form.body.as_str().len();
    if n < 1 {
        Err("Body must be at least 1 characters long")
    } else if n > 10000 {
        Err("Body must be less than 10000 characters long")
    } else {
        Ok(())
    }
}

/// Whether a password is acceptable: 8 to 64 bytes, with an upper-case letter,
/// a lower-case letter, a digit or a special character (any one of the four
/// suffices).
pub open spec fn password_acceptable(p: Seq<char>) -> bool {
    &&& 8 <= byte_len(p) <= 64
    &&& (has_char_in(p, 'A', 'Z') || has_char_in(p, 'a', 'z') || regex_finds(DIGIT_PATTERN@, p)
        == Some(true) || has_special_char(p))
}

/// The first rule that a registration breaks, if any.
pub open spec fn registration_error(form: UserRequest) -> Option<Seq<char>> {
    if !word_text(form.username@, false) {
        Some("Username can only contain letters, numbers and underscores"@)
    } else if !password_acceptable(form.password@) {
        Some(
            "Password must be between 8 and 64 characters long and contain at least one uppercase letter, one lowercase letter, one digit and one special character"@,
        )
    } else {
        None
    }
}

/// Checks a registration: the username's characters, then the password.
pub fn validate_registration(form: &UserRequest) -> (r: Result<(), &'static str>)
    requires
        byte_len(form.password@) <= usize::MAX,
    ensures
        outcome_view(r) == registration_error(*form),
{
    if !matches_pattern(USERNAME_PATTERN, form.username.as_str()) {
        return Err("Username can only contain letters, numbers and underscores");
    }
    let p = form.password.as_str();
    let n = p.len();
    let classes = matches_pattern(UPPER_PATTERN, p) || matches_pattern(LOWER_PATTERN, p)
        || matches_pattern(DIGIT_PATTERN, p) || matches_pattern(SPECIAL_PATTERN, p);
    if n >= 8 && n <= 64 && classes {
        Ok(())
    } else {
        Err(
            "Password must be between 8 and 64 characters long and contain at least one uppercase letter, one lowercase letter, one digit and one special character",
        )
    }
}

/// Checks a registration and hashes its password for storage.
pub fn prepare_registration(form: &UserRequest) -> (r: Result<String, &'static str>)
    requires
        byte_len(form.password@) <= usize::MAX,
    ensures
        registration_error(*form) matches Some(m) ==> (r matches Err(e) && e@ == m),
        registration_error(*form) is None ==> (r is Ok || (r matches Err(e) && e@
            == "Failed to hash password"@)),
        r matches Ok(h) ==> registration_error(*form) is None && bcrypt_outcome(
            form.password@,
            h@,
        ) == Some(true),
{
    match validate_registration(form) {
        Err(e) => Err(e),
        Ok(()) => match bcrypt_hash(form.password.as_str()) {
            Some(h) => Ok(h),
            None => Err("Failed to hash password"),
        },
    }
}

/// Whether a store error says that the username is already taken.
pub fn is_duplicate_username(error: &str) -> (r: bool)
    ensures
        r == (error@ == DUPLICATE_USERNAME@ || error@ == DUPLICATE_USERNAME_LOWER@),
{
    str_eq(error, DUPLICATE_USERNAME) || str_eq(error, DUPLICATE_USERNAME_LOWER)
}

} // verus!
