use pubky_app_specs::api::{
    create_bookmark, create_file, create_post, create_tag, create_user, validate_post,
};
use pubky_app_specs::ids::timestamp_id;
use pubky_app_specs::kind::PostKind;
use pubky_app_specs::models::Post;
use pubky_app_specs::paths::{bookmark_path, file_path, post_path, tag_path, user_path};
use pubky_app_specs::response::error_json;
use pubky_app_specs::uri::parse_uri;

fn now_micros() -> i64 {
    let elapsed = std::time::SystemTime::now()
        .duration_since(std::time::UNIX_EPOCH)
        .unwrap();
    elapsed.as_micros() as i64
}

fn json(text: &str) -> serde_json::Value {
    serde_json::from_str(text).unwrap()
}

#[test]
fn test_create_post() {
    let result = create_post("Hello, world!".to_string(), "short", now_micros());
    assert!(result.is_ok());
    let created = result.unwrap();
    assert!(!created.id.is_empty());
    assert!(!created.path.is_empty());
    assert_eq!(created.object.content, "Hello, world!");
    assert_eq!(created.object.kind, PostKind::Short);
}

#[test]
fn test_validate_post() {
    // {"content":"Hello","kind":"short"}
    let post = Post::new("Hello".to_string(), PostKind::Short, None, None, None);
    let result = json(&validate_post(&post, None));
    assert_eq!(result["valid"], true);
}

#[test]
fn test_create_file() {
    let result = create_file(
        "test.png".to_string(),
        "pubky://user123/pub/pubky.app/blobs/abc123".to_string(),
        "image/png".to_string(),
        1024,
        now_micros(),
    );
    assert!(result.is_ok());
    assert!(!result.unwrap().id.is_empty());
}

#[test]
fn test_create_bookmark() {
    let result = create_bookmark("pubky://user123/pub/pubky.app/posts/abc123".to_string());
    assert!(result.is_ok());
    assert!(!result.unwrap().id.is_empty());
}

#[test]
fn test_create_tag() {
    let result = create_tag(
        "pubky://user123/pub/pubky.app/posts/abc123".to_string(),
        "cool".to_string(),
    );
    assert!(result.is_ok());
    assert!(!result.unwrap().id.is_empty());
}

#[test]
fn test_create_user() {
    let created = create_user("Alice".to_string(), Some("Developer".to_string()), None, None);
    assert!(!created.path.is_empty());
    assert_eq!(created.user.name, "Alice");
    assert_eq!(created.user.bio, Some("Developer".to_string()));
}

#[test]
fn test_generate_timestamp_id() {
    let id = timestamp_id(now_micros());
    assert_eq!(id.len(), 13);
}

#[test]
fn test_get_paths() {
    let id = "0033SSE3B1FQ0";
    let post = post_path(id);
    let file = file_path(id);
    let bookmark = bookmark_path(id);
    let tag = tag_path(id);
    let user = user_path();
    assert!(!post.is_empty());
    assert!(!file.is_empty());
    assert!(!bookmark.is_empty());
    assert!(!tag.is_empty());
    assert!(!user.is_empty());
    assert!(post.contains("posts/"));
}

#[test]
fn test_parse_uri_post() {
    let parsed = parse_uri(
        "pubky://operrr8wsbpr3ue9d4qj41ge1kcc6r7fdiy6o3ugjrrhi4y77rdo/pub/pubky.app/posts/0033SSE3B1FQ0",
    )
    .unwrap();
    assert_eq!(parsed.user_id, "operrr8wsbpr3ue9d4qj41ge1kcc6r7fdiy6o3ugjrrhi4y77rdo");
    assert_eq!(parsed.resource_type, "posts");
    assert_eq!(parsed.resource_id, Some("0033SSE3B1FQ0".to_string()));
}

#[test]
fn test_parse_uri_user() {
    let parsed = parse_uri(
        "pubky://operrr8wsbpr3ue9d4qj41ge1kcc6r7fdiy6o3ugjrrhi4y77rdo/pub/pubky.app/profile.json",
    )
    .unwrap();
    assert_eq!(parsed.resource_type, "profile.json");
    assert!(parsed.resource_id.is_none());
}

#[test]
fn test_parse_uri_invalid() {
    let error = parse_uri("http://invalid/uri").unwrap_err();
    let result = json(&error_json(&error));
    assert_eq!(result["success"], false);
    assert!(result["error"].is_string());
}
