use vstd::prelude::*;

use crate::source::spec_status_success;
use crate::Article;
use crate::ArticleView;
use crate::Author;
use crate::AuthorView;
use crate::Error;
use crate::Post;
use crate::PostView;

verus! {

/// The creator of one fetched platform item, as the structured API lists it.
pub struct FanboxUser {
    pub user_id: String,
    pub name: String,
    pub icon_url: String,
}

#[verifier::ext_equal]
pub ghost struct FanboxUserView {
    pub user_id: Seq<char>,
    pub name: Seq<char>,
    pub icon_url: Seq<char>,
}

impl View for FanboxUser {
    type V = FanboxUserView;

    open spec fn view(&self) -> FanboxUserView {
        FanboxUserView {
            user_id: self.user_id@,
            name: self.name@,
            icon_url: self.icon_url@,
        }
    }
}

/// One item of the platform's listing response. `excerpt` is the only body
/// text the listing endpoint exposes. Timestamps are seconds since the Unix
/// epoch.
pub struct FanboxItem {
    pub id: String,
    pub title: String,
    pub cover_image_url: Option<String>,
    pub published_at: i64,
    pub updated_at: i64,
    pub creator_id: String,
    pub user: FanboxUser,
    pub excerpt: Option<String>,
}

#[verifier::ext_equal]
pub ghost struct FanboxItemView {
    pub id: Seq<char>,
    pub title: Seq<char>,
    pub cover_image_url: Option<Seq<char>>,
    pub published_at: int,
    pub updated_at: int,
    pub creator_id: Seq<char>,
    pub user: FanboxUserView,
    pub excerpt: Option<Seq<char>>,
}

impl View for FanboxItem {
    type V = FanboxItemView;

    open spec fn view(&self) -> FanboxItemView {
        FanboxItemView {
            id: self.id@,
            title: self.title@,
            cover_image_url: self.cover_image_url.deep_view(),
            published_at: self.published_at as int,
            updated_at: self.updated_at as int,
            creator_id: self.creator_id@,
            user: self.user@,
            excerpt: self.excerpt.deep_view(),
        }
    }
}

impl DeepView for FanboxItem {
    type V = FanboxItemView;

    open spec fn deep_view(&self) -> FanboxItemView {
        self.view()
    }
}

/// The deserialized body of the platform's listing response, holding the
/// items in upstream order.
pub struct FanboxResponse {
    pub items: Vec<FanboxItem>,
}

#[verifier::ext_equal]
pub ghost struct FanboxResponseView {
    pub items: Seq<FanboxItemView>,
}

impl View for FanboxResponse {
    type V = FanboxResponseView;

    open spec fn view(&self) -> FanboxResponseView {
        FanboxResponseView { items: self.items.deep_view() }
    }
}

/// The creator's canonical subdomain URL.
pub open spec fn spec_base_url(name: Seq<char>) -> Seq<char> {
    "https://"@ + name + ".fanbox.cc"@
}

/// The canonical URL of one post, synthesized from the creator's base URL
/// and the post's id.
pub open spec fn spec_post_url(name: Seq<char>, post_id: Seq<char>) -> Seq<char> {
    spec_base_url(name) + "/posts/"@ + post_id
}

/// The article title: the first item's author display name (empty without
/// items) suffixed with the fixed platform label.
pub open spec fn spec_article_title(items: Seq<FanboxItemView>) -> Seq<char> {
    (if items.len() == 0 {
        Seq::<char>::empty()
    } else {
        items[0].user.name
    }) + " | FANBOX"@
}

/// The post one listing item maps to. The post's id doubles as its URL, the
/// excerpt fills both summary and content, and the timestamps carry over.
pub open spec fn spec_post_of_item(name: Seq<char>, item: FanboxItemView) -> PostView {
    PostView {
        author: AuthorView {
            id: item.user.user_id,
            name: item.user.name,
            alias: item.creator_id,
            icon_url: item.user.icon_url,
        },
        id: spec_post_url(name, item.id),
        title: item.title,
        image_url: item.cover_image_url,
        published_at: item.published_at,
        updated_at: item.updated_at,
        summary: item.excerpt,
        content: item.excerpt,
        url: spec_post_url(name, item.id),
    }
}

/// The article a whole listing response maps to, preserving item order.
pub open spec fn spec_fanbox_article(name: Seq<char>, resp: FanboxResponseView) -> ArticleView {
    ArticleView {
        id: name,
        url: spec_base_url(name),
        title: spec_article_title(resp.items),
        posts: resp.items.map_values(|item: FanboxItemView| spec_post_of_item(name, item)),
    }
}

/// The JSON-API source. It fetches a creator's listing from the structured
/// endpoint; the response mapping below is its whole logic, the outbound
/// call stands with the caller that owns the HTTP client.
pub struct Fanbox;

impl Fanbox {
    /// Maps a deserialized listing response 1:1 into an article.
    pub fn article_from_response(name: &str, resp: &FanboxResponse) -> (a: Article)
        ensures
            a@ == spec_fanbox_article(name@, resp@),
    {
        let mut base = "https://".to_owned();
        base.append(name);
        base.append(".fanbox.cc");
        let mut title = if resp.items.len() == 0 {
            String::new()
        } else {
            resp.items[0].user.name.clone()
        };
        title.append(" | FANBOX");
        let mut posts: Vec<Post> = Vec::new();
        let mut i: usize = 0;
        while i < resp.items.len()
            invariant
                i <= resp.items.len(),
                base@ == spec_base_url(name@),
                resp@.items.len() == resp.items.len(),
                posts@.len() == i,
                forall|j: int|
                    0 <= j < i ==> #[trigger] posts@[j]@ == spec_post_of_item(
                        name@,
                        resp@.items[j],
                    ),
            decreases resp.items.len() - i,
        {
            let item = &resp.items[i];
            let mut url = base.clone();
            url.append("/posts/");
            url.append(item.id.as_str());
            let post = Post {
                author: Author {
                    id: item.user.user_id.clone(),
                    name: item.user.name.clone(),
                    alias: item.creator_id.clone(),
                    icon_url: item.user.icon_url.clone(),
                },
                id: url.clone(),
                title: item.title.clone(),
                image_url: match &item.cover_image_url {
                    Some(u) => Some(u.clone()),
                    None => None,
                },
                published_at: item.published_at,
                updated_at: item.updated_at,
                summary: match &item.excerpt {
                    Some(e) => Some(e.clone()),
                    None => None,
                },
                content: match &item.excerpt {
                    Some(e) => Some(e.clone()),
                    None => None,
                },
                url,
            };
            proof {
                assert(post@ =~= spec_post_of_item(name@, resp@.items[i as int]));
            }
            posts.push(post);
            i = i + 1;
        }
        let article = Article { id: name.to_owned(), url: base, title, posts };
        proof {
            assert(article@.posts =~= spec_fanbox_article(name@, resp@).posts);
            assert(article@ =~= spec_fanbox_article(name@, resp@));
        }
        article
    }

    /// Decides what one upstream exchange yields, given the response status
    /// and the deserialized body where deserializing succeeded.
    ///
    /// Status 404 is the platform's affirmative "no such creator"; any other
    /// non-success status, and a body that would not deserialize into the
    /// expected shape (`None` here), are transport failures carrying the
    /// caller's error value; a success status with a deserialized body maps
    /// to the article.
    pub fn handle_response<T>(
        name: &str,
        status: u16,
        body: Option<FanboxResponse>,
        transport: T,
    ) -> (r: Result<Article, Error<T>>)
        ensures
            status == 404 ==> (r matches Err(e) && e matches Error::NotFound),
            status != 404 && !spec_status_success(status as int) ==> (r matches Err(e) && (
            e matches Error::Misc(t) && t == transport)),
            status != 404 && spec_status_success(status as int) && body is None ==> (r matches Err(
                e,
            ) && (e matches Error::Misc(t) && t == transport)),
            status != 404 && spec_status_success(status as int) && body is Some ==> (
            r matches Ok(a) && a@ == spec_fanbox_article(name@, body->0@)),
    {
        if status == 404 {
            return Err(Error::NotFound);
        }
        if !(200 <= status && status <= 299) {
            return Err(Error::Misc(transport));
        }
        match body {
            None => Err(Error::Misc(transport)),
            Some(resp) => Ok(Self::article_from_response(name, &resp)),
        }
    }
}

} // verus!
