use haisin::source::fanbox::{Fanbox, FanboxItem, FanboxResponse, FanboxUser};
use haisin::source::{parse_failure_message, FetchOutcome, SourceType, Sources};
use haisin::renderer::render;
use haisin::state::State;
use haisin::{default_port, Article, Error, Field, PostFieldName};

#[test]
fn registered_platform_keys_resolve() {
    assert!(matches!(SourceType::from_str("fanbox"), Ok(SourceType::Fanbox)));
    assert!(matches!(SourceType::from_str("fantia"), Ok(SourceType::Fantia)));
}

#[test]
fn unregistered_platform_keys_are_refused() {
    assert!(SourceType::from_str("").is_err());
    assert!(SourceType::from_str("pixiv").is_err());
    assert!(SourceType::from_str("Fanbox").is_err());
    assert!(SourceType::from_str("fanbox ").is_err());
}

#[test]
fn resolve_translates_each_outcome() {
    let ok: Result<Article, Error<&str>> = Ok(Article {
        id: "a".to_string(),
        url: "https://example.test/a".to_string(),
        title: "T".to_string(),
        posts: vec![],
    });
    match Sources::resolve(ok) {
        FetchOutcome::Fetched(a) => assert_eq!(a.id, "a"),
        _ => panic!("ok must be fetched"),
    }
    assert!(matches!(
        Sources::resolve::<&str>(Err(Error::NotFound)),
        FetchOutcome::NotFound
    ));
    assert!(matches!(
        Sources::resolve(Err(Error::Misc("gateway"))),
        FetchOutcome::Transport("gateway")
    ));
    assert!(matches!(
        Sources::resolve::<&str>(Err(Error::ParseError(Field::Post(PostFieldName::Title)))),
        FetchOutcome::ParseFailed(Field::Post(PostFieldName::Title))
    ));
}

#[test]
fn parse_failure_message_names_the_dotted_path() {
    assert_eq!(
        parse_failure_message(&Field::Post(PostFieldName::Title)),
        "failed to parse: post.title"
    );
    assert_eq!(
        parse_failure_message(&Field::Post(PostFieldName::PublishedAt)),
        "failed to parse: post.published_at"
    );
    assert_eq!(
        parse_failure_message(&haisin::Field::Author(haisin::AuthorFieldName::Name)),
        "failed to parse: author.name"
    );
}

#[test]
fn state_hands_back_its_registry() {
    let state = State::new(Sources::new());
    let _sources: &Sources = state.sources();
}

#[test]
fn port_defaults_to_3000() {
    assert_eq!(default_port(), 3000);
}

#[test]
fn fanbox_fetch_end_to_end() {
    // The platform key routes, one upstream item yields one entry whose id
    // is the synthesized post URL.
    let key = SourceType::from_str("fanbox");
    assert!(matches!(key, Ok(SourceType::Fanbox)));
    let resp = FanboxResponse {
        items: vec![FanboxItem {
            id: "42".to_string(),
            title: "Hi".to_string(),
            cover_image_url: None,
            published_at: 1_600_000_000,
            updated_at: 1_600_000_000,
            creator_id: "alice".to_string(),
            user: FanboxUser {
                user_id: "9".to_string(),
                name: "Alice".to_string(),
                icon_url: "".to_string(),
            },
            excerpt: Some("hello".to_string()),
        }],
    };
    let fetched = Fanbox::handle_response("alice", 200, Some(resp), "unused");
    let article = match Sources::resolve(fetched) {
        FetchOutcome::Fetched(a) => a,
        _ => panic!("fetch must succeed"),
    };
    let doc = render(&article);
    assert_eq!(doc.entries.len(), 1);
    assert_eq!(doc.entries[0].id, "https://alice.fanbox.cc/posts/42");
    assert_eq!(doc.id, "https://alice.fanbox.cc");
}
