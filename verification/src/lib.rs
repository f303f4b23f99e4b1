use vstd::prelude::*;

mod dom;
pub mod renderer;
pub mod source;
pub mod state;
pub mod text;
pub mod time;

verus! {

/// The creator behind a set of posts on a subscription platform.
///
/// `id` is the platform-assigned identifier; `alias` is the human-facing
/// handle used in canonical URLs.
pub struct Author {
    pub id: String,
    pub name: String,
    pub alias: String,
    pub icon_url: String,
}

/// Mathematical image of an [`Author`]: every text field as a `Seq<char>`.
#[verifier::ext_equal]
pub ghost struct AuthorView {
    pub id: Seq<char>,
    pub name: Seq<char>,
    pub alias: Seq<char>,
    pub icon_url: Seq<char>,
}

impl View for Author {
    type V = AuthorView;

    open spec fn view(&self) -> AuthorView {
        AuthorView {
            id: self.id@,
            name: self.name@,
            alias: self.alias@,
            icon_url: self.icon_url@,
        }
    }
}

impl DeepView for Author {
    type V = AuthorView;

    open spec fn deep_view(&self) -> AuthorView {
        self.view()
    }
}

/// One published update. Timestamps are seconds since the Unix epoch;
/// `updated_at` equals `published_at` when the platform reports no separate
/// update time. `image_url`, `summary` and `content` are optional because not
/// every platform exposes them.
pub struct Post {
    pub author: Author,
    pub id: String,
    pub title: String,
    pub image_url: Option<String>,
    pub published_at: i64,
    pub updated_at: i64,
    pub summary: Option<String>,
    pub content: Option<String>,
    pub url: String,
}

/// Mathematical image of a [`Post`].
#[verifier::ext_equal]
pub ghost struct PostView {
    pub author: AuthorView,
    pub id: Seq<char>,
    pub title: Seq<char>,
    pub image_url: Option<Seq<char>>,
    pub published_at: int,
    pub updated_at: int,
    pub summary: Option<Seq<char>>,
    pub content: Option<Seq<char>>,
    pub url: Seq<char>,
}

impl View for Post {
    type V = PostView;

    open spec fn view(&self) -> PostView {
        PostView {
            author: self.author@,
            id: self.id@,
            title: self.title@,
            image_url: self.image_url.deep_view(),
            published_at: self.published_at as int,
            updated_at: self.updated_at as int,
            summary: self.summary.deep_view(),
            content: self.content.deep_view(),
            url: self.url@,
        }
    }
}

impl DeepView for Post {
    type V = PostView;

    open spec fn deep_view(&self) -> PostView {
        self.view()
    }
}

/// One fetched page of a creator's feed: the posts in the order the upstream
/// source returned them (typically newest first).
pub struct Article {
    pub id: String,
    pub url: String,
    pub title: String,
    pub posts: Vec<Post>,
}

/// Mathematical image of an [`Article`].
#[verifier::ext_equal]
pub ghost struct ArticleView {
    pub id: Seq<char>,
    pub url: Seq<char>,
    pub title: Seq<char>,
    pub posts: Seq<PostView>,
}

impl View for Article {
    type V = ArticleView;

    open spec fn view(&self) -> ArticleView {
        ArticleView {
            id: self.id@,
            url: self.url@,
            title: self.title@,
            posts: self.posts.deep_view(),
        }
    }
}

impl DeepView for Article {
    type V = ArticleView;

    open spec fn deep_view(&self) -> ArticleView {
        self.view()
    }
}

/// Field names of [`Article`], used only to locate parse failures.
#[derive(Debug, Clone, Copy, PartialEq, Eq, Structural)]
pub enum ArticleFieldName {
    Id,
    Url,
    Title,
    Posts,
}

/// Field names of [`Post`], used only to locate parse failures.
#[derive(Debug, Clone, Copy, PartialEq, Eq, Structural)]
pub enum PostFieldName {
    Author,
    Id,
    Title,
    ImageUrl,
    PublishedAt,
    UpdatedAt,
    Summary,
    Content,
    Url,
}

/// Field names of [`Author`], used only to locate parse failures.
#[derive(Debug, Clone, Copy, PartialEq, Eq, Structural)]
pub enum AuthorFieldName {
    Id,
    Name,
    Alias,
    IconUrl,
}

/// Locates a parse failure down to one field of one entity. Carried by
/// [`Error::ParseError`]; never used to transport data.
#[derive(Debug, Clone, Copy, PartialEq, Eq, Structural)]
pub enum Field {
    Article(ArticleFieldName),
    Post(PostFieldName),
    Author(AuthorFieldName),
}

impl Field {
    /// The dotted `entity.field` path of this locator, as shown to operators.
    pub open spec fn path_spec(&self) -> Seq<char> {
        match *self {
            Field::Article(ArticleFieldName::Id) => "article.id"@,
            Field::Article(ArticleFieldName::Url) => "article.url"@,
            Field::Article(ArticleFieldName::Title) => "article.title"@,
            Field::Article(ArticleFieldName::Posts) => "article.posts"@,
            Field::Post(PostFieldName::Author) => "post.author"@,
            Field::Post(PostFieldName::Id) => "post.id"@,
            Field::Post(PostFieldName::Title) => "post.title"@,
            Field::Post(PostFieldName::ImageUrl) => "post.image_url"@,
            Field::Post(PostFieldName::PublishedAt) => "post.published_at"@,
            Field::Post(PostFieldName::UpdatedAt) => "post.updated_at"@,
            Field::Post(PostFieldName::Summary) => "post.summary"@,
            Field::Post(PostFieldName::Content) => "post.content"@,
            Field::Post(PostFieldName::Url) => "post.url"@,
            Field::Author(AuthorFieldName::Id) => "author.id"@,
            Field::Author(AuthorFieldName::Name) => "author.name"@,
            Field::Author(AuthorFieldName::Alias) => "author.alias"@,
            Field::Author(AuthorFieldName::IconUrl) => "author.icon_url"@,
        }
    }

    /// The dotted `entity.field` path of this locator.
    pub fn path(&self) -> (r: &'static str)
        ensures
            r@ == self.path_spec(),
    {
        match *self {
            Field::Article(ArticleFieldName::Id) => "article.id",
            Field::Article(ArticleFieldName::Url) => "article.url",
            Field::Article(ArticleFieldName::Title) => "article.title",
            Field::Article(ArticleFieldName::Posts) => "article.posts",
            Field::Post(PostFieldName::Author) => "post.author",
            Field::Post(PostFieldName::Id) => "post.id",
            Field::Post(PostFieldName::Title) => "post.title",
            Field::Post(PostFieldName::ImageUrl) => "post.image_url",
            Field::Post(PostFieldName::PublishedAt) => "post.published_at",
            Field::Post(PostFieldName::UpdatedAt) => "post.updated_at",
            Field::Post(PostFieldName::Summary) => "post.summary",
            Field::Post(PostFieldName::Content) => "post.content",
            Field::Post(PostFieldName::Url) => "post.url",
            Field::Author(AuthorFieldName::Id) => "author.id",
            Field::Author(AuthorFieldName::Name) => "author.name",
            Field::Author(AuthorFieldName::Alias) => "author.alias",
            Field::Author(AuthorFieldName::IconUrl) => "author.icon_url",
        }
    }
}

/// Why a fetch produced no article.
///
/// `NotFound`: the platform affirmatively reports that the identifier does
/// not exist. `ParseError`: the response arrived but did not match the
/// expected shape at the named field. `Misc`: transport failure, carrying the
/// caller's underlying error value.
#[derive(Debug)]
pub enum Error<T> {
    NotFound,
    ParseError(Field),
    Misc(T),
}

/// Port the HTTP layer listens on when the environment names none.
pub fn default_port() -> (r: u16)
    ensures
        r == 3000,
{
    3000
}

} // verus!
