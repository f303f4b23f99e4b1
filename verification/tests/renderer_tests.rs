use haisin::renderer::render;
use haisin::text::escape;
use haisin::{Article, Author, Post};

fn author() -> Author {
    Author {
        id: "u1".to_string(),
        name: "Alice & Bob".to_string(),
        alias: "alice".to_string(),
        icon_url: "https://example.test/icon.png".to_string(),
    }
}

fn post(id: &str, title: &str, published: i64, updated: i64) -> Post {
    Post {
        author: author(),
        id: id.to_string(),
        title: title.to_string(),
        image_url: None,
        published_at: published,
        updated_at: updated,
        summary: Some("tea & cake".to_string()),
        content: Some("all of the tea & cake".to_string()),
        url: format!("https://example.test/posts/{}", id),
    }
}

fn article() -> Article {
    Article {
        id: "alice".to_string(),
        url: "https://example.test/alice".to_string(),
        title: "Alice & Bob | Site".to_string(),
        posts: vec![
            post("1", "First & second", 100, 250),
            post("2", "Third", 90, 120),
        ],
    }
}

#[test]
fn feed_id_is_article_url() {
    let doc = render(&article());
    assert_eq!(doc.id, "https://example.test/alice");
}

#[test]
fn feed_updated_is_max_of_posts() {
    let doc = render(&article());
    assert_eq!(doc.updated, 250);
}

#[test]
fn feed_updated_of_empty_article_is_epoch() {
    let a = Article {
        id: "alice".to_string(),
        url: "https://example.test/alice".to_string(),
        title: "Empty".to_string(),
        posts: vec![],
    };
    let doc = render(&a);
    assert_eq!(doc.updated, 0);
    assert_eq!(doc.author.name, "");
    assert_eq!(doc.entries.len(), 0);
}

#[test]
fn feed_updated_keeps_negative_instants() {
    let a = Article {
        id: "alice".to_string(),
        url: "https://example.test/alice".to_string(),
        title: "Old".to_string(),
        posts: vec![post("1", "Before the epoch", -500, -500)],
    };
    assert_eq!(render(&a).updated, -500);
}

#[test]
fn titles_and_texts_are_escaped() {
    let doc = render(&article());
    assert_eq!(doc.title, "Alice &amp; Bob | Site");
    assert_eq!(doc.author.name, "Alice &amp; Bob");
    let e = &doc.entries[0];
    assert_eq!(e.title, "First &amp; second");
    assert_eq!(e.author.name, "Alice &amp; Bob");
    assert_eq!(e.summary.as_deref(), Some("tea &amp; cake"));
    let c = e.content.as_ref().unwrap();
    assert_eq!(c.value, "all of the tea &amp; cake");
    assert_eq!(c.content_type, "text");
    assert_eq!(c.src, "https://example.test/posts/1");
}

#[test]
fn link_carries_raw_title_and_fixed_type() {
    let doc = render(&article());
    let l = &doc.entries[0].link;
    // The link's title is the post title as it stands, unescaped.
    assert_eq!(l.title, "First & second");
    assert_eq!(l.href, "https://example.test/posts/1");
    assert_eq!(l.mime_type, "text/html");
    assert_eq!(l.rel, "alternate");
}

#[test]
fn entries_preserve_posts_in_order() {
    let doc = render(&article());
    assert_eq!(doc.entries.len(), 2);
    assert_eq!(doc.entries[0].id, "https://example.test/posts/1");
    assert_eq!(doc.entries[1].id, "https://example.test/posts/2");
    assert_eq!(doc.entries[0].updated, 250);
    assert_eq!(doc.entries[0].published, 100);
    assert_eq!(doc.entries[1].updated, 120);
    assert_eq!(doc.entries[1].published, 90);
}

#[test]
fn escape_rewrites_every_ampersand() {
    assert_eq!(escape("a & b & c"), "a &amp; b &amp; c");
    assert_eq!(escape("&"), "&amp;");
    assert_eq!(escape(""), "");
    assert_eq!(escape("no entity"), "no entity");
}

#[test]
fn escape_is_blind_to_existing_entities() {
    // Known behavior: text already holding an entity is escaped again.
    assert_eq!(escape("&amp;"), "&amp;amp;");
}
