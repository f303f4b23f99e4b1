use vstd::prelude::*;

use crate::text::escape;
use crate::text::escape_text;
use crate::Article;
use crate::ArticleView;
use crate::PostView;

verus! {

/// The one person a rendered feed names as author, for the feed and for
/// every entry alike.
pub struct FeedPerson {
    pub name: String,
}

#[verifier::ext_equal]
pub ghost struct FeedPersonView {
    pub name: Seq<char>,
}

impl View for FeedPerson {
    type V = FeedPersonView;

    open spec fn view(&self) -> FeedPersonView {
        FeedPersonView { name: self.name@ }
    }
}

/// The single alternate-relation link of an entry. `mime_type` is always
/// the fixed HTML type and `title` the post's title, as the target format
/// shows them.
pub struct FeedLink {
    pub href: String,
    pub mime_type: String,
    pub rel: String,
    pub title: String,
}

#[verifier::ext_equal]
pub ghost struct FeedLinkView {
    pub href: Seq<char>,
    pub mime_type: Seq<char>,
    pub rel: Seq<char>,
    pub title: Seq<char>,
}

impl View for FeedLink {
    type V = FeedLinkView;

    open spec fn view(&self) -> FeedLinkView {
        FeedLinkView {
            href: self.href@,
            mime_type: self.mime_type@,
            rel: self.rel@,
            title: self.title@,
        }
    }
}

/// Text-typed entry content, carrying the post URL as its source reference.
pub struct FeedContent {
    pub content_type: String,
    pub src: String,
    pub value: String,
}

#[verifier::ext_equal]
pub ghost struct FeedContentView {
    pub content_type: Seq<char>,
    pub src: Seq<char>,
    pub value: Seq<char>,
}

impl View for FeedContent {
    type V = FeedContentView;

    open spec fn view(&self) -> FeedContentView {
        FeedContentView {
            content_type: self.content_type@,
            src: self.src@,
            value: self.value@,
        }
    }
}

/// One feed entry. Timestamps are seconds since the Unix epoch.
pub struct FeedEntry {
    pub title: String,
    pub id: String,
    pub updated: i64,
    pub author: FeedPerson,
    pub link: FeedLink,
    pub published: i64,
    pub summary: Option<String>,
    pub content: Option<FeedContent>,
}

#[verifier::ext_equal]
pub ghost struct FeedEntryView {
    pub title: Seq<char>,
    pub id: Seq<char>,
    pub updated: int,
    pub author: FeedPersonView,
    pub link: FeedLinkView,
    pub published: int,
    pub summary: Option<Seq<char>>,
    pub content: Option<FeedContentView>,
}

impl View for FeedEntry {
    type V = FeedEntryView;

    open spec fn view(&self) -> FeedEntryView {
        FeedEntryView {
            title: self.title@,
            id: self.id@,
            updated: self.updated as int,
            author: self.author@,
            link: self.link@,
            published: self.published as int,
            summary: self.summary.deep_view(),
            content: match self.content {
                Some(c) => Some(c@),
                None => None,
            },
        }
    }
}

/// The rendered feed document: the target syndication format restricted to
/// the parts this renderer populates.
pub struct FeedDoc {
    pub title: String,
    pub id: String,
    pub updated: i64,
    pub author: FeedPerson,
    pub entries: Vec<FeedEntry>,
}

#[verifier::ext_equal]
pub ghost struct FeedDocView {
    pub title: Seq<char>,
    pub id: Seq<char>,
    pub updated: int,
    pub author: FeedPersonView,
    pub entries: Seq<FeedEntryView>,
}

impl View for FeedDoc {
    type V = FeedDocView;

    open spec fn view(&self) -> FeedDocView {
        FeedDocView {
            title: self.title@,
            id: self.id@,
            updated: self.updated as int,
            author: self.author@,
            entries: self.entries@.map_values(|e: FeedEntry| e@),
        }
    }
}

/// The feed-level updated instant: the greatest `updated_at` over the posts,
/// or the fixed epoch instant when there are none.
pub open spec fn spec_max_updated(posts: Seq<PostView>) -> int
    decreases posts.len(),
{
    if posts.len() == 0 {
        crate::time::FEED_EPOCH as int
    } else if posts.len() == 1 {
        posts[0].updated_at
    } else {
        let rest = spec_max_updated(posts.drop_last());
        if posts.last().updated_at > rest {
            posts.last().updated_at
        } else {
            rest
        }
    }
}

/// The feed author's name: the first post's author, escaped; empty without
/// posts.
pub open spec fn spec_feed_author_name(a: ArticleView) -> Seq<char> {
    if a.posts.len() == 0 {
        Seq::empty()
    } else {
        escape_text(a.posts[0].author.name)
    }
}

/// The entry one post becomes.
pub open spec fn spec_entry_of(p: PostView, author_name: Seq<char>) -> FeedEntryView {
    FeedEntryView {
        title: escape_text(p.title),
        id: p.url,
        updated: p.updated_at,
        author: FeedPersonView { name: author_name },
        link: FeedLinkView {
            href: p.url,
            mime_type: "text/html"@,
            rel: "alternate"@,
            title: p.title,
        },
        published: p.published_at,
        summary: match p.summary {
            Some(s) => Some(escape_text(s)),
            None => None,
        },
        content: match p.content {
            Some(c) => Some(
                FeedContentView { content_type: "text"@, src: p.url, value: escape_text(c) },
            ),
            None => None,
        },
    }
}

/// The whole document an article renders to.
pub open spec fn spec_render(a: ArticleView) -> FeedDocView {
    FeedDocView {
        title: escape_text(a.title),
        id: a.url,
        updated: spec_max_updated(a.posts),
        author: FeedPersonView { name: spec_feed_author_name(a) },
        entries: a.posts.map_values(|p: PostView| spec_entry_of(p, spec_feed_author_name(a))),
    }
}

/// Every post's `updated_at` is within the feed-level updated instant, and
/// when posts exist the instant is one of theirs.
pub proof fn lemma_max_updated_is_max(posts: Seq<PostView>)
    ensures
        forall|i: int| 0 <= i < posts.len() ==> posts[i].updated_at <= spec_max_updated(posts),
        posts.len() > 0 ==> exists|i: int|
            0 <= i < posts.len() && posts[i].updated_at == spec_max_updated(posts),
    decreases posts.len(),
{
    if posts.len() > 1 {
        lemma_max_updated_is_max(posts.drop_last());
        assert(forall|i: int|
            0 <= i < posts.len() - 1 ==> #[trigger] posts.drop_last()[i] == posts[i]);
        assert forall|i: int|
            0 <= i < posts.len() - 1 implies #[trigger] posts[i].updated_at <= spec_max_updated(
            posts.drop_last(),
        ) by {
            assert(posts.drop_last()[i] == posts[i]);
            assert(posts.drop_last()[i].updated_at <= spec_max_updated(posts.drop_last()));
        }
        let ghost j = choose|j: int|
            0 <= j < posts.len() - 1 && posts.drop_last()[j].updated_at == spec_max_updated(
                posts.drop_last(),
            );
        if posts.last().updated_at > spec_max_updated(posts.drop_last()) {
            assert(posts[posts.len() - 1].updated_at == spec_max_updated(posts));
        } else {
            assert(posts[j].updated_at == spec_max_updated(posts));
        }
    } else if posts.len() == 1 {
        assert(posts[0].updated_at == spec_max_updated(posts));
    }
}

/// Computes the feed-level updated instant of `posts`.
fn max_updated(posts: &Vec<crate::Post>) -> (r: i64)
    ensures
        r == spec_max_updated(posts.deep_view()),
{
    let ghost view = posts.deep_view();
    if posts.len() == 0 {
        return crate::time::FEED_EPOCH;
    }
    let mut r: i64 = posts[0].updated_at;
    let mut i: usize = 1;
    proof {
        assert(view.subrange(0, 1).len() == 1);
        assert(view.subrange(0, 1)[0] == view[0]);
        assert(view[0] == posts[0]@);
    }
    while i < posts.len()
        invariant
            1 <= i <= posts.len(),
            view == posts.deep_view(),
            view.len() == posts.len(),
            r == spec_max_updated(view.subrange(0, i as int)),
        decreases posts.len() - i,
    {
        proof {
            assert(view.subrange(0, i as int + 1).drop_last() =~= view.subrange(0, i as int));
            assert(view.subrange(0, i as int + 1).last() == view[i as int]);
            assert(view[i as int] == posts[i as int]@);
        }
        let updated = posts[i].updated_at;
        if updated > r {
            r = updated;
        }
        i = i + 1;
    }
    proof {
        assert(view.subrange(0, posts.len() as int) =~= view);
    }
    r
}

/// Renders an article as a feed document. Total over every article: the
/// renderer has no failure path.
///
/// The contract pins the whole document; in particular the feed id is the
/// article's URL, and the feed-level updated instant is the greatest
/// `updated_at` of the posts (the fixed epoch instant when there are none).
pub fn render(article: &Article) -> (doc: FeedDoc)
    ensures
        doc@ == spec_render(article@),
        doc@.id == article@.url,
        doc@.updated == spec_max_updated(article@.posts),
{
    let author_name = if article.posts.len() == 0 {
        String::new()
    } else {
        escape(article.posts[0].author.name.as_str())
    };
    let updated = max_updated(&article.posts);
    let ghost feed_author = spec_feed_author_name(article@);
    let mut entries: Vec<FeedEntry> = Vec::new();
    let mut i: usize = 0;
    while i < article.posts.len()
        invariant
            i <= article.posts.len(),
            author_name@ == feed_author,
            feed_author == spec_feed_author_name(article@),
            article@.posts.len() == article.posts.len(),
            entries@.len() == i,
            forall|j: int|
                0 <= j < i ==> #[trigger] entries@[j]@ == spec_entry_of(
                    article@.posts[j],
                    feed_author,
                ),
        decreases article.posts.len() - i,
    {
        let post = &article.posts[i];
        let entry = FeedEntry {
            title: escape(post.title.as_str()),
            id: post.url.clone(),
            updated: post.updated_at,
            author: FeedPerson { name: author_name.clone() },
            link: FeedLink {
                href: post.url.clone(),
                mime_type: "text/html".to_owned(),
                rel: "alternate".to_owned(),
                title: post.title.clone(),
            },
            published: post.published_at,
            summary: match &post.summary {
                Some(s) => Some(escape(s.as_str())),
                None => None,
            },
            content: match &post.content {
                Some(c) => Some(
                    FeedContent {
                        content_type: "text".to_owned(),
                        src: post.url.clone(),
                        value: escape(c.as_str()),
                    },
                ),
                None => None,
            },
        };
        proof {
            assert(entry@ =~= spec_entry_of(article@.posts[i as int], feed_author));
        }
        entries.push(entry);
        i = i + 1;
    }
    let doc = FeedDoc {
        title: escape(article.title.as_str()),
        id: article.url.clone(),
        updated,
        author: FeedPerson { name: author_name },
        entries,
    };
    proof {
        assert(doc@.entries =~= spec_render(article@).entries);
        assert(doc@ =~= spec_render(article@));
    }
    doc
}

} // verus!
