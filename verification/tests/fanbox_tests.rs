use haisin::source::fanbox::{Fanbox, FanboxItem, FanboxResponse, FanboxUser};
use haisin::Error;

fn item(id: &str, title: &str, excerpt: Option<&str>) -> FanboxItem {
    FanboxItem {
        id: id.to_string(),
        title: title.to_string(),
        cover_image_url: Some(format!("https://img.test/{}.png", id)),
        published_at: 1_600_000_000,
        updated_at: 1_600_100_000,
        creator_id: "alice".to_string(),
        user: FanboxUser {
            user_id: "9".to_string(),
            name: "Alice".to_string(),
            icon_url: "https://img.test/icon.png".to_string(),
        },
        excerpt: excerpt.map(str::to_string),
    }
}

#[test]
fn maps_items_one_to_one() {
    let resp = FanboxResponse { items: vec![item("11", "Hello", Some("short")), item("12", "Again", None)] };
    let a = Fanbox::article_from_response("alice", &resp);
    assert_eq!(a.id, "alice");
    assert_eq!(a.url, "https://alice.fanbox.cc");
    assert_eq!(a.title, "Alice | FANBOX");
    assert_eq!(a.posts.len(), 2);
    let p = &a.posts[0];
    assert_eq!(p.url, "https://alice.fanbox.cc/posts/11");
    // The post's id doubles as its synthesized URL.
    assert_eq!(p.id, "https://alice.fanbox.cc/posts/11");
    assert_eq!(p.title, "Hello");
    assert_eq!(p.author.id, "9");
    assert_eq!(p.author.name, "Alice");
    assert_eq!(p.author.alias, "alice");
    assert_eq!(p.author.icon_url, "https://img.test/icon.png");
    assert_eq!(p.image_url.as_deref(), Some("https://img.test/11.png"));
    assert_eq!(p.published_at, 1_600_000_000);
    assert_eq!(p.updated_at, 1_600_100_000);
    // The excerpt fills both summary and content.
    assert_eq!(p.summary.as_deref(), Some("short"));
    assert_eq!(p.content.as_deref(), Some("short"));
    assert_eq!(a.posts[1].url, "https://alice.fanbox.cc/posts/12");
    assert_eq!(a.posts[1].summary, None);
    assert_eq!(a.posts[1].content, None);
}

#[test]
fn title_of_empty_listing_uses_empty_name() {
    let resp = FanboxResponse { items: vec![] };
    let a = Fanbox::article_from_response("alice", &resp);
    assert_eq!(a.title, " | FANBOX");
    assert_eq!(a.posts.len(), 0);
}

#[test]
fn status_404_is_not_found() {
    let r = Fanbox::handle_response("alice", 404, Some(FanboxResponse { items: vec![] }), "boom");
    assert!(matches!(r, Err(Error::NotFound)));
}

#[test]
fn other_non_success_statuses_are_transport_failures() {
    for status in [500u16, 502, 403, 301, 100] {
        let r = Fanbox::handle_response("alice", status, Some(FanboxResponse { items: vec![] }), "boom");
        match r {
            Err(Error::Misc(t)) => assert_eq!(t, "boom"),
            _ => panic!("status {} should be a transport failure", status),
        }
    }
}

#[test]
fn undeserializable_body_is_transport_failure() {
    let r = Fanbox::handle_response::<&str>("alice", 200, None, "bad body");
    match r {
        Err(Error::Misc(t)) => assert_eq!(t, "bad body"),
        _ => panic!("missing body should be a transport failure"),
    }
}

#[test]
fn success_with_body_yields_article() {
    let resp = FanboxResponse { items: vec![item("11", "Hello", Some("short"))] };
    let r = Fanbox::handle_response("alice", 200, Some(resp), "unused");
    match r {
        Ok(a) => {
            assert_eq!(a.id, "alice");
            assert_eq!(a.posts.len(), 1);
        },
        _ => panic!("success status with a body must map to the article"),
    }
}
