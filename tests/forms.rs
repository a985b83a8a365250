use tidder::form_validation::{
    is_duplicate_username, prepare_registration, validate_new_comment, validate_new_post,
    validate_registration,
};
use tidder::model::{CreateCommentRequest, CreatePostRequest, UserRequest};

fn form(title: &str, body: &str, new_category: Option<&str>, category_id: Option<&str>) -> CreatePostRequest {
    CreatePostRequest {
        new_category: new_category.map(|s| s.to_string()),
        category_id: category_id.map(|s| s.to_string()),
        title: title.to_string(),
        body: body.to_string(),
    }
}

#[test]
fn post_form_rules_in_order() {
    let long = "x".repeat(10001);
    assert_eq!(validate_new_post(&form("Hello", "short", None, Some("c"))), Err("Post body must be at least 10 characters long"));
    assert_eq!(validate_new_post(&form("Hello", &long, None, Some("c"))), Err("Post body can be at most 10000 characters long"));
    assert_eq!(validate_new_post(&form("Hi!", "0123456789", None, Some("c"))), Err("Title can only contain letters, numbers, spaces and underscores"));
    assert_eq!(validate_new_post(&form("Hi", "0123456789", None, Some("c"))), Err("Title must be at least 5 characters long"));
    assert_eq!(validate_new_post(&form(&"t".repeat(101), "0123456789", None, Some("c"))), Err("Title must be less than 100 characters long"));
    assert_eq!(validate_new_post(&form("Hello", "0123456789", None, None)), Err("Category is required"));
    assert_eq!(validate_new_post(&form("Hello", "0123456789", Some("New"), Some("c"))), Err("Cannot specify both category and new_category"));
    assert_eq!(validate_new_post(&form("Hello", "0123456789", Some("ab"), None)), Err("New category name must be at least 3 characters long"));
    assert_eq!(validate_new_post(&form("Hello", "0123456789", Some(&"c".repeat(51)), None)), Err("New category name must be less than 50 characters long"));
    assert_eq!(validate_new_post(&form("Hello", "0123456789", Some("bad-name"), None)), Err("New category name can only contain letters, numbers, spaces and underscores"));
    assert_eq!(validate_new_post(&form("Hello there_1", "0123456789", Some("Rust news"), None)), Ok(()));
    assert_eq!(validate_new_post(&form("Hello", &"y".repeat(10000), None, Some("c"))), Ok(()));
}

#[test]
fn post_body_length_counts_bytes() {
    // nine two-byte characters are eighteen bytes
    assert_eq!(validate_new_post(&form("Hello", "ééééééééé", None, Some("c"))), Ok(()));
    assert_eq!(validate_new_post(&form("Hellö", "0123456789", None, Some("c"))), Err("Title can only contain letters, numbers, spaces and underscores"));
}

#[test]
fn comment_form_rules() {
    let c = |b: &str| CreateCommentRequest { body: b.to_string() };
    assert_eq!(validate_new_comment(&c("")), Err("Body must be at least 1 characters long"));
    assert_eq!(validate_new_comment(&c(&"z".repeat(10001))), Err("Body must be less than 10000 characters long"));
    assert_eq!(validate_new_comment(&c("k")), Ok(()));
    assert_eq!(validate_new_comment(&c(&"z".repeat(10000))), Ok(()));
}

fn reg(u: &str, p: &str) -> UserRequest {
    UserRequest { username: u.to_string(), password: p.to_string() }
}

#[test]
fn registration_rules() {
    let pw_msg = "Password must be between 8 and 64 characters long and contain at least one uppercase letter, one lowercase letter, one digit and one special character";
    assert_eq!(validate_registration(&reg("bad name", "Secret#123")), Err("Username can only contain letters, numbers and underscores"));
    assert_eq!(validate_registration(&reg("", "Secret#123")), Err("Username can only contain letters, numbers and underscores"));
    assert_eq!(validate_registration(&reg("alice", "Sh#1")), Err(pw_msg));
    assert_eq!(validate_registration(&reg("alice", &"a".repeat(65))), Err(pw_msg));
    assert_eq!(validate_registration(&reg("alice", "        ")), Err(pw_msg));
    // any one of the four character classes is enough
    assert_eq!(validate_registration(&reg("alice", "abcdefgh")), Ok(()));
    assert_eq!(validate_registration(&reg("alice", "12345678")), Ok(()));
    assert_eq!(validate_registration(&reg("alice", "!!!!!!!!")), Ok(()));
    assert_eq!(validate_registration(&reg("alice_01", "Secret#123")), Ok(()));
}

#[test]
fn registration_refuses_before_hashing() {
    assert_eq!(prepare_registration(&reg("bad name", "Secret#123")), Err("Username can only contain letters, numbers and underscores"));
}

#[test]
fn duplicate_username_errors() {
    assert!(is_duplicate_username("UNIQUE constraint failed: users.username"));
    assert!(is_duplicate_username("UNIQUE constraint failed: users.username_lower"));
    assert!(!is_duplicate_username("UNIQUE constraint failed: users.id"));
    assert!(!is_duplicate_username(""));
}

#[test]
fn registration_hashes_an_accepted_password() {
    let hash = prepare_registration(&reg("alice", "Secret#123")).unwrap();
    assert_ne!(hash, "Secret#123");
    assert!(hash.starts_with("$2"));
    assert!(tidder::security::verify_password("Secret#123", &hash));
}
