use pubky_app_specs::api::{
    create_bookmark, create_post, create_post_full, create_tag, create_user,
    create_user_with_links, non_empty, validate_bookmark, validate_file, validate_post,
    validate_tag,
};
use pubky_app_specs::ids::{hash_id, timestamp_id, validate_hash_id, validate_timestamp_id};
use pubky_app_specs::kind::{parse_post_kind, PostKind};
use pubky_app_specs::models::{Bookmark, File, Post, Tag, UserLink};
use pubky_app_specs::paths::{post_path, user_path};
use pubky_app_specs::response::{error_json, escape_json, invalid_json, valid_json, validation_json};
use pubky_app_specs::uri::parse_uri;

const DOC_TIMESTAMP: i64 = 1755807382790000;
const DOC_ID: &str = "0033SSE3B1FQ0";
const USER: &str = "operrr8wsbpr3ue9d4qj41ge1kcc6r7fdiy6o3ugjrrhi4y77rdo";

fn json(text: &str) -> serde_json::Value {
    serde_json::from_str(text).unwrap()
}

fn is_crockford(c: char) -> bool {
    "0123456789ABCDEFGHJKMNPQRSTVWXYZ".contains(c)
}

#[test]
fn timestamp_id_encodes_big_endian_crockford() {
    assert_eq!(timestamp_id(DOC_TIMESTAMP), DOC_ID);
    assert_eq!(timestamp_id(0), "0000000000000");
    assert_eq!(timestamp_id(1), "0000000000002");
    assert_eq!(timestamp_id(-1), "ZZZZZZZZZZZZY");
}

#[test]
fn timestamp_ids_validate() {
    for ts in [0i64, 1, -1, DOC_TIMESTAMP, i64::MAX, i64::MIN] {
        assert!(validate_timestamp_id(&timestamp_id(ts)).is_ok());
    }
}

#[test]
fn timestamp_id_checks() {
    assert!(validate_timestamp_id(DOC_ID).is_ok());
    assert!(validate_timestamp_id("0033sse3b1fq0").is_ok());
    assert!(validate_timestamp_id("0O33SSE3B1FQI").is_ok());
    assert_eq!(
        validate_timestamp_id("0033SSE3B1FQ").unwrap_err(),
        "Invalid ID length: must be 13 characters"
    );
    assert_eq!(
        validate_timestamp_id("0033SSE3B1FQU").unwrap_err(),
        "Invalid ID: not a Crockford Base32 string"
    );
    assert_eq!(
        validate_timestamp_id("0033SSE3B1FQ=").unwrap_err(),
        "Invalid ID: not a Crockford Base32 string"
    );
}

#[test]
fn create_post_uses_timestamp_id_and_post_path() {
    let created = create_post("Hello".to_string(), "long", DOC_TIMESTAMP).unwrap();
    assert_eq!(created.id, DOC_ID);
    assert_eq!(created.path, "/pub/pubky.app/posts/0033SSE3B1FQ0");
    assert_eq!(created.object.kind, PostKind::Long);
    assert!(created.object.parent.is_none());
    assert!(created.object.embed.is_none());
    assert!(created.object.attachments.is_none());
}

#[test]
fn create_post_rejects_unknown_kind() {
    let error = create_post("Hello".to_string(), "story", DOC_TIMESTAMP).unwrap_err();
    assert_eq!(error, "Invalid post kind: story");
    assert_eq!(
        create_post("Hello".to_string(), "Short", DOC_TIMESTAMP).unwrap_err(),
        "Invalid post kind: Short"
    );
}

#[test]
fn create_post_full_keeps_parent_and_embed() {
    let parent = "pubky://user123/pub/pubky.app/posts/0033SSE3B1FQ0";
    let created = create_post_full(
        "reply".to_string(),
        "short",
        Some(parent.to_string()),
        Some("pubky://user123/pub/pubky.app/posts/abc".to_string()),
        Some("image".to_string()),
        DOC_TIMESTAMP,
    )
    .unwrap();
    assert_eq!(created.object.parent, Some(parent.to_string()));
    let embed = created.object.embed.unwrap();
    assert_eq!(embed.uri, "pubky://user123/pub/pubky.app/posts/abc");
    assert_eq!(embed.kind, PostKind::Image);
    assert_eq!(created.id, DOC_ID);
}

#[test]
fn create_post_full_drops_empty_parts() {
    let created = create_post_full(
        "text".to_string(),
        "video",
        Some(String::new()),
        Some(String::new()),
        Some("bogus".to_string()),
        DOC_TIMESTAMP,
    )
    .unwrap();
    assert!(created.object.parent.is_none());
    assert!(created.object.embed.is_none());
    let created = create_post_full(
        "text".to_string(),
        "link",
        None,
        None,
        Some("image".to_string()),
        DOC_TIMESTAMP,
    )
    .unwrap();
    assert!(created.object.embed.is_none());
}

#[test]
fn create_post_full_requires_embed_kind() {
    let error = create_post_full(
        "Hi".to_string(),
        "short",
        None,
        Some("pubky://user123/pub/pubky.app/posts/abc123".to_string()),
        None,
        DOC_TIMESTAMP,
    )
    .unwrap_err();
    assert_eq!(error, "Embed kind is required when an embed URI is given");
    let value = json(&error_json(&error));
    assert_eq!(value["success"], false);
    assert!(value["error"].is_string());
}

#[test]
fn create_post_full_errors() {
    let error = create_post_full(
        "text".to_string(),
        "reel",
        None,
        Some("pubky://a/pub/pubky.app/posts/b".to_string()),
        Some("bogus".to_string()),
        DOC_TIMESTAMP,
    )
    .unwrap_err();
    assert_eq!(error, "Invalid post kind: reel");
    let error = create_post_full(
        "text".to_string(),
        "file",
        None,
        Some("pubky://a/pub/pubky.app/posts/b".to_string()),
        Some("bogus".to_string()),
        DOC_TIMESTAMP,
    )
    .unwrap_err();
    assert_eq!(error, "Invalid embed kind: bogus");
}

#[test]
fn kind_names_round_trip() {
    let kinds = [
        PostKind::Short,
        PostKind::Long,
        PostKind::Image,
        PostKind::Video,
        PostKind::Link,
        PostKind::File,
    ];
    let names = ["short", "long", "image", "video", "link", "file"];
    for (kind, name) in kinds.iter().zip(names.iter()) {
        assert_eq!(kind.name(), *name);
        assert_eq!(parse_post_kind(kind.name()), Some(*kind));
    }
    assert_eq!(parse_post_kind("shorts"), None);
    assert_eq!(parse_post_kind(""), None);
}

#[test]
fn validate_post_answers() {
    let post = Post::new("Hello".to_string(), PostKind::Short, None, None, None);
    assert_eq!(validate_post(&post, Some(DOC_ID)), "{\"valid\":true}");
    let answer = validate_post(&post, Some("abc"));
    assert_eq!(
        answer,
        "{\"valid\":false,\"error\":\"Invalid ID length: must be 13 characters\"}"
    );
    assert_eq!(json(&answer)["valid"], false);
}

#[test]
fn validate_file_answers() {
    let file = File::new(
        "a.png".to_string(),
        "pubky://u/pub/pubky.app/blobs/b".to_string(),
        "image/png".to_string(),
        10,
    );
    assert_eq!(validate_file(&file, None), "{\"valid\":true}");
    assert_eq!(json(&validate_file(&file, Some("ZZZZZZZZZZZZu")))["valid"], false);
}

#[test]
fn hash_ids_are_deterministic_and_distinct() {
    let uri = "pubky://user123/pub/pubky.app/posts/abc123";
    let first = create_bookmark(uri.to_string()).unwrap();
    let second = create_bookmark(uri.to_string()).unwrap();
    assert_eq!(first.id, second.id);
    assert_eq!(first.id.len(), 26);
    assert!(first.id.chars().all(is_crockford));
    assert_ne!(first.id, uri);
    assert_eq!(first.path, format!("/pub/pubky.app/bookmarks/{}", first.id));
    let other = create_bookmark("pubky://user123/pub/pubky.app/posts/abc124".to_string()).unwrap();
    assert_ne!(first.id, other.id);
    let tag = create_tag(uri.to_string(), "cool".to_string()).unwrap();
    assert_ne!(tag.id, first.id);
    assert_eq!(tag.id, hash_id(&format!("{}:cool", uri)));
    assert_eq!(tag.path, format!("/pub/pubky.app/tags/{}", tag.id));
}

#[test]
fn created_bookmark_and_tag_validate_against_their_ids() {
    let uri = "pubky://user123/pub/pubky.app/posts/abc123";
    let bookmark = Bookmark::new(uri.to_string());
    let id = bookmark.create_id();
    assert_eq!(validate_bookmark(&bookmark, Some(&id)), "{\"valid\":true}");
    let tag = Tag::new(uri.to_string(), "cool".to_string());
    let tag_id = tag.create_id();
    assert_eq!(validate_tag(&tag, Some(&tag_id)), "{\"valid\":true}");
    let answer = validate_tag(&tag, Some(&id));
    let expected = format!("Invalid ID: expected {}, found {}", tag_id, id);
    assert_eq!(json(&answer)["error"], expected.as_str());
}

#[test]
fn hash_id_mismatch_message() {
    assert!(validate_hash_id("ABC", "ABC").is_ok());
    assert_eq!(
        validate_hash_id("ABD", "ABC").unwrap_err(),
        "Invalid ID: expected ABC, found ABD"
    );
}

#[test]
fn error_json_escapes_and_round_trips() {
    let message = "say \"hi\" \\ now";
    let answer = error_json(message);
    assert_eq!(answer, "{\"success\":false,\"error\":\"say \\\"hi\\\" \\\\ now\"}");
    assert_eq!(json(&answer)["error"], message);
    assert_eq!(escape_json("\"\""), "\\\"\\\"");
    assert_eq!(escape_json("a\nb\u{1f}"), "a\\u000ab\\u001f");
    let plain = error_json("Invalid post kind: story");
    let value = json(&plain);
    assert_eq!(value["success"], false);
    assert_eq!(value["error"], "Invalid post kind: story");
    let quoted = json(&error_json("a \"b\""));
    assert_eq!(quoted["error"], "a \"b\"");
    let controls = json(&error_json("line\nbreak\ttab\r\u{0}"));
    assert_eq!(controls["error"], "line\nbreak\ttab\r\u{0}");
}

#[test]
fn failure_answer_for_backslash_kind_is_json() {
    let error = create_post("Hello".to_string(), "a\\", DOC_TIMESTAMP).unwrap_err();
    let value = json(&error_json(&error));
    assert_eq!(value["success"], false);
    assert_eq!(value["error"], "Invalid post kind: a\\");
    let value = json(&invalid_json("path C:\\tmp\\\"x\""));
    assert_eq!(value["valid"], false);
    assert_eq!(value["error"], "path C:\\tmp\\\"x\"");
}

#[test]
fn validation_answers() {
    assert_eq!(valid_json(), "{\"valid\":true}");
    assert_eq!(invalid_json("bad \"x\""), "{\"valid\":false,\"error\":\"bad \\\"x\\\"\"}");
    assert_eq!(validation_json(&Ok(())), "{\"valid\":true}");
    assert_eq!(
        validation_json(&Err("nope".to_string())),
        "{\"valid\":false,\"error\":\"nope\"}"
    );
}

#[test]
fn parse_uri_reads_back_object_paths() {
    let uri = format!("pubky://{}{}", USER, post_path(DOC_ID));
    let parsed = parse_uri(&uri).unwrap();
    assert_eq!(parsed.user_id, USER);
    assert_eq!(parsed.resource_type, "posts");
    assert_eq!(parsed.resource_id.as_deref(), Some(DOC_ID));
    let profile = format!("pubky://{}{}", USER, user_path());
    let parsed = parse_uri(&profile).unwrap();
    assert_eq!(parsed.resource_type, "profile.json");
    assert_eq!(parsed.resource_id, None);
}

#[test]
fn parse_uri_rejects_malformed() {
    assert_eq!(
        parse_uri("http://invalid/uri").unwrap_err(),
        "Invalid pubky URI: http://invalid/uri"
    );
    for bad in [
        "pubky://",
        "pubky://user",
        "pubky:///pub/pubky.app/posts/x",
        "pubky://user/pub/pubky.app/",
        "pubky://user/pub/pubky.app/posts/",
        "pubky://user/pub/pubky.app//x",
        "pubky://user/pub/pubky.app/posts/x/y",
        "pubky://user/pub/other.app/posts/x",
        "pubky://user/pub/pubky.app",
    ] {
        assert!(parse_uri(bad).is_err(), "{}", bad);
    }
    let parsed = parse_uri("pubky://u/pub/pubky.app/last_read").unwrap();
    assert_eq!(parsed.resource_type, "last_read");
    assert!(parsed.resource_id.is_none());
}

#[test]
fn users_drop_empty_fields() {
    let created = create_user(
        "Bob".to_string(),
        Some(String::new()),
        Some("https://example.com/a.png".to_string()),
        Some(String::new()),
    );
    assert_eq!(created.path, "/pub/pubky.app/profile.json");
    assert!(created.user.bio.is_none());
    assert_eq!(created.user.image.as_deref(), Some("https://example.com/a.png"));
    assert!(created.user.status.is_none());
    assert!(created.user.links.is_none());
    let links = vec![UserLink::new("GitHub".to_string(), "https://github.com/bob".to_string())];
    let created = create_user_with_links("Bob".to_string(), None, None, None, Some(links));
    assert_eq!(created.user.links.unwrap()[0].title, "GitHub");
    assert_eq!(non_empty(Some("x".to_string())), Some("x".to_string()));
    assert_eq!(non_empty(Some(String::new())), None);
    assert_eq!(non_empty(None), None);
}

#[test]
fn timestamp_ids_sort_by_time() {
    let times = [0i64, 1, 2, 31, 32, 1023, 1024, DOC_TIMESTAMP, DOC_TIMESTAMP + 1, i64::MAX];
    for pair in times.windows(2) {
        let earlier = timestamp_id(pair[0]);
        let later = timestamp_id(pair[1]);
        assert!(earlier < later, "{} {}", earlier, later);
        assert!(earlier.chars().all(is_crockford));
    }
}
