use vstd::prelude::*;

use crate::dom::first_match_text;
use crate::dom::first_match_text_in;
use crate::dom::match_count;
use crate::dom::match_count_in;
use crate::dom::nth_block_first_attr;
use crate::dom::nth_block_first_attr_in;
use crate::dom::nth_block_first_text;
use crate::dom::nth_block_first_text_in;
use crate::dom::nth_block_nested_text;
use crate::dom::nth_block_nested_text_in;
use crate::source::spec_status_success;
use crate::text::str_eq;
use crate::time::parse_jst_date_time;
use crate::time::spec_is_date_text;
use crate::time::spec_jst_instant;
use crate::Article;
use crate::ArticleView;
use crate::Author;
use crate::AuthorFieldName;
use crate::AuthorView;
use crate::Error;
use crate::Field;
use crate::Post;
use crate::PostFieldName;
use crate::PostView;

verus! {

/// The date markup of one post block: the text of the date element itself,
/// and the text of its first inner span where one exists (the page nests a
/// span when it additionally marks the post as recently updated).
pub struct DateMarkup {
    pub span_text: Option<String>,
    pub own_text: String,
}

#[verifier::ext_equal]
pub ghost struct DateMarkupView {
    pub span_text: Option<Seq<char>>,
    pub own_text: Seq<char>,
}

impl View for DateMarkup {
    type V = DateMarkupView;

    open spec fn view(&self) -> DateMarkupView {
        DateMarkupView { span_text: self.span_text.deep_view(), own_text: self.own_text@ }
    }
}

/// What the structural queries find in one post container: each field is
/// absent when the queried element or attribute is absent.
pub struct PostBlock {
    pub anchor_href: Option<String>,
    pub title: Option<String>,
    pub date: Option<DateMarkup>,
    pub image_src: Option<String>,
    pub summary: Option<String>,
}

#[verifier::ext_equal]
pub ghost struct PostBlockView {
    pub anchor_href: Option<Seq<char>>,
    pub title: Option<Seq<char>>,
    pub date: Option<DateMarkupView>,
    pub image_src: Option<Seq<char>>,
    pub summary: Option<Seq<char>>,
}

impl View for PostBlock {
    type V = PostBlockView;

    open spec fn view(&self) -> PostBlockView {
        PostBlockView {
            anchor_href: self.anchor_href.deep_view(),
            title: self.title.deep_view(),
            date: match self.date {
                Some(d) => Some(d@),
                None => None,
            },
            image_src: self.image_src.deep_view(),
            summary: self.summary.deep_view(),
        }
    }
}

impl DeepView for PostBlock {
    type V = PostBlockView;

    open spec fn deep_view(&self) -> PostBlockView {
        self.view()
    }
}

/// What the structural queries find in the whole listing page: the author
/// header's text, and one block per post container, in page order.
pub struct PageData {
    pub author_name: Option<String>,
    pub blocks: Vec<PostBlock>,
}

#[verifier::ext_equal]
pub ghost struct PageDataView {
    pub author_name: Option<Seq<char>>,
    pub blocks: Seq<PostBlockView>,
}

impl View for PageData {
    type V = PageDataView;

    open spec fn view(&self) -> PageDataView {
        PageDataView { author_name: self.author_name.deep_view(), blocks: self.blocks.deep_view() }
    }
}

/// The platform's origin, prefixed to the relative paths the page links.
pub open spec fn spec_origin() -> Seq<char> {
    "https://fantia.jp"@
}

/// What the structural queries find in the `i`-th post container of the
/// markup: the first anchor's link target, the title and excerpt texts, the
/// date element's own text with its first inner span's text, and the first
/// image's source — each absent exactly when the page lacks it.
pub open spec fn spec_block_of(html: Seq<char>, i: int) -> PostBlockView {
    PostBlockView {
        anchor_href: nth_block_first_attr(html, ".post-inner"@, "a"@, i, "href"@),
        title: nth_block_first_text(html, ".post-inner"@, ".post-title"@, i),
        date: match nth_block_first_text(html, ".post-inner"@, ".post-date"@, i) {
            None => None,
            Some(own) => Some(
                DateMarkupView {
                    span_text: nth_block_nested_text(
                        html,
                        ".post-inner"@,
                        ".post-date"@,
                        "span"@,
                        i,
                    ),
                    own_text: own,
                },
            ),
        },
        image_src: nth_block_first_attr(html, ".post-inner"@, "img"@, i, "src"@),
        summary: nth_block_first_text(html, ".post-inner"@, ".post-text"@, i),
    }
}

/// What the structural queries find in the whole markup: the author
/// header's text and one block per post container, in page order.
pub open spec fn page_data_of(html: Seq<char>) -> PageDataView {
    PageDataView {
        author_name: first_match_text(html, ".fanclub-summary h1 a"@),
        blocks: Seq::new(match_count(html, ".post-inner"@), |i: int| spec_block_of(html, i)),
    }
}

/// The date text that counts: the first inner span's text wins when
/// present, otherwise the date element's own text.
pub open spec fn spec_date_text(d: DateMarkupView) -> Seq<char> {
    match d.span_text {
        Some(t) => t,
        None => d.own_text,
    }
}

/// The post id a link path carries: the non-empty remainder behind the
/// fixed `/posts/` prefix, or nothing when the path is not of that shape.
pub open spec fn spec_post_id_of_path(path: Seq<char>) -> Option<Seq<char>> {
    if path.len() > 7 && path.subrange(0, 7) == "/posts/"@ {
        Some(path.subrange(7, path.len() as int))
    } else {
        None
    }
}

/// The author the scraped page yields: the creator identifier doubles as
/// id and alias, and the listing page shows no icon.
pub open spec fn spec_fantia_author(id: Seq<char>, name: Seq<char>) -> AuthorView {
    AuthorView { id: id, name: name, alias: id, icon_url: Seq::empty() }
}

/// The post one block yields, or the locator of the first field at which
/// the block does not match the expected shape.
pub open spec fn spec_post_of_block(author: AuthorView, b: PostBlockView) -> Result<
    PostView,
    Field,
> {
    match b.anchor_href {
        None => Err(Field::Post(PostFieldName::Id)),
        Some(path) => match spec_post_id_of_path(path) {
            None => Err(Field::Post(PostFieldName::Id)),
            Some(id) => match b.title {
                None => Err(Field::Post(PostFieldName::Title)),
                Some(title) => match b.date {
                    None => Err(Field::Post(PostFieldName::PublishedAt)),
                    Some(d) => if !spec_is_date_text(spec_date_text(d)) {
                        Err(Field::Post(PostFieldName::PublishedAt))
                    } else {
                        Ok(
                            PostView {
                                author: author,
                                id: id,
                                title: title,
                                image_url: b.image_src,
                                published_at: spec_jst_instant(spec_date_text(d)),
                                updated_at: spec_jst_instant(spec_date_text(d)),
                                summary: b.summary,
                                content: None,
                                url: spec_origin() + path,
                            },
                        )
                    },
                },
            },
        },
    }
}

/// The posts a run of blocks yields, in page order, or the error of the
/// first block that does not parse: one bad block fails the whole page.
pub open spec fn spec_parse_blocks(author: AuthorView, blocks: Seq<PostBlockView>) -> Result<
    Seq<PostView>,
    Field,
>
    decreases blocks.len(),
{
    if blocks.len() == 0 {
        Ok(Seq::empty())
    } else {
        match spec_post_of_block(author, blocks[0]) {
            Err(f) => Err(f),
            Ok(p) => match spec_parse_blocks(author, blocks.drop_first()) {
                Err(f) => Err(f),
                Ok(rest) => Ok(seq![p] + rest),
            },
        }
    }
}

/// The article a scraped page yields, or the locator of the first field
/// that does not match: the author header first, then each block in order.
pub open spec fn spec_parse_page(id: Seq<char>, page: PageDataView) -> Result<ArticleView, Field> {
    match page.author_name {
        None => Err(Field::Author(AuthorFieldName::Name)),
        Some(name) => match spec_parse_blocks(spec_fantia_author(id, name), page.blocks) {
            Err(f) => Err(f),
            Ok(posts) => Ok(
                ArticleView {
                    id: id,
                    url: spec_origin() + "/fanclubs/"@ + name,
                    title: name + " | ファンティア[Fantia]"@,
                    posts: posts,
                },
            ),
        },
    }
}

/// Parsing a run of blocks extended by one more block first parses the run,
/// then the new block.
proof fn lemma_parse_blocks_snoc(author: AuthorView, blocks: Seq<PostBlockView>, b: PostBlockView)
    ensures
        spec_parse_blocks(author, blocks.push(b)) == (match spec_parse_blocks(author, blocks) {
            Err(f) => Err::<Seq<PostView>, Field>(f),
            Ok(ps) => match spec_post_of_block(author, b) {
                Err(f) => Err::<Seq<PostView>, Field>(f),
                Ok(p) => Ok::<Seq<PostView>, Field>(ps.push(p)),
            },
        }),
    decreases blocks.len(),
{
    let whole = blocks.push(b);
    if blocks.len() == 0 {
        reveal_with_fuel(spec_parse_blocks, 3);
        assert(whole[0] == b);
        assert(whole.drop_first() =~= Seq::<PostBlockView>::empty());
        assert(spec_parse_blocks(author, whole.drop_first()) == Ok::<Seq<PostView>, Field>(
            Seq::<PostView>::empty(),
        ));
        match spec_post_of_block(author, b) {
            Err(f) => {},
            Ok(p) => {
                assert(seq![p] + Seq::<PostView>::empty() =~= Seq::<PostView>::empty().push(p));
            },
        }
    } else {
        assert(whole[0] == blocks[0]);
        assert(whole.drop_first() =~= blocks.drop_first().push(b));
        lemma_parse_blocks_snoc(author, blocks.drop_first(), b);
        match spec_post_of_block(author, blocks[0]) {
            Err(f) => {},
            Ok(p) => {
                match spec_parse_blocks(author, blocks.drop_first()) {
                    Err(f) => {},
                    Ok(rest) => {
                        match spec_post_of_block(author, b) {
                            Err(f) => {},
                            Ok(pb) => {
                                assert(seq![p] + rest.push(pb) =~= (seq![p] + rest).push(pb));
                            },
                        }
                    },
                }
            },
        }
    }
}

/// A run of blocks whose prefix already fails parses to that same failure.
proof fn lemma_parse_blocks_prefix_error(
    author: AuthorView,
    blocks: Seq<PostBlockView>,
    k: int,
    f: Field,
)
    requires
        0 <= k <= blocks.len(),
        spec_parse_blocks(author, blocks.subrange(0, k)) == Err::<Seq<PostView>, Field>(f),
    ensures
        spec_parse_blocks(author, blocks) == Err::<Seq<PostView>, Field>(f),
    decreases blocks.len(),
{
    let prefix = blocks.subrange(0, k);
    assert(k > 0);
    assert(prefix[0] == blocks[0]);
    match spec_post_of_block(author, blocks[0]) {
        Err(g) => {
            assert(g == f);
        },
        Ok(p) => {
            assert(prefix.drop_first() =~= blocks.drop_first().subrange(0, k - 1));
            lemma_parse_blocks_prefix_error(author, blocks.drop_first(), k - 1, f);
        },
    }
}

/// A run of blocks whose first failure sits at position `i` parses to that
/// block's failure.
proof fn lemma_parse_blocks_first_error(
    author: AuthorView,
    blocks: Seq<PostBlockView>,
    i: int,
    f: Field,
)
    requires
        0 <= i < blocks.len(),
        forall|j: int| 0 <= j < i ==> #[trigger] spec_post_of_block(author, blocks[j]) is Ok,
        spec_post_of_block(author, blocks[i]) == Err::<PostView, Field>(f),
    ensures
        spec_parse_blocks(author, blocks) == Err::<Seq<PostView>, Field>(f),
    decreases i,
{
    if i > 0 {
        assert(spec_post_of_block(author, blocks[0]) is Ok);
        assert forall|j: int| 0 <= j < i - 1 implies #[trigger] spec_post_of_block(
            author,
            blocks.drop_first()[j],
        ) is Ok by {
            assert(blocks.drop_first()[j] == blocks[j + 1]);
        }
        assert(blocks.drop_first()[i - 1] == blocks[i]);
        lemma_parse_blocks_first_error(author, blocks.drop_first(), i - 1, f);
    }
}

/// Law: the date text that counts is decided by the nesting alone — when
/// the markup nests a span its text wins, whatever other text the date
/// element carries; plain markup stands on its own text. Two markups
/// showing the same text name the same instant.
pub proof fn lemma_date_markup_agree(t: Seq<char>, own: Seq<char>)
    ensures
        spec_date_text(DateMarkupView { span_text: None, own_text: t }) == t,
        spec_date_text(DateMarkupView { span_text: Some(t), own_text: own }) == t,
{
}

/// Law: with the author header present and every earlier block parsing, a
/// block missing its anchor href fails the whole page locating the post
/// id; one whose anchor carries a post path but whose title element is
/// absent fails locating the post title; one complete up to a date text
/// that does not parse fails locating the published instant.
pub proof fn lemma_first_bad_block_locates_field(id: Seq<char>, page: PageDataView, i: int)
    requires
        page.author_name is Some,
        0 <= i < page.blocks.len(),
        forall|j: int|
            0 <= j < i ==> #[trigger] spec_post_of_block(
                spec_fantia_author(id, page.author_name->0),
                page.blocks[j],
            ) is Ok,
    ensures
        page.blocks[i].anchor_href is None ==> spec_parse_page(id, page) == Err::<
            ArticleView,
            Field,
        >(Field::Post(PostFieldName::Id)),
        (page.blocks[i].anchor_href matches Some(p) && spec_post_id_of_path(p) is Some
            && page.blocks[i].title is None) ==> spec_parse_page(id, page) == Err::<
            ArticleView,
            Field,
        >(Field::Post(PostFieldName::Title)),
        (page.blocks[i].anchor_href matches Some(p) && spec_post_id_of_path(p) is Some
            && page.blocks[i].title is Some && page.blocks[i].date is Some && !spec_is_date_text(
            spec_date_text(page.blocks[i].date->0),
        )) ==> spec_parse_page(id, page) == Err::<ArticleView, Field>(
            Field::Post(PostFieldName::PublishedAt),
        ),
{
    let author = spec_fantia_author(id, page.author_name->0);
    let b = page.blocks[i];
    if b.anchor_href is None {
        lemma_parse_blocks_first_error(author, page.blocks, i, Field::Post(PostFieldName::Id));
    } else {
        let p = b.anchor_href->0;
        if spec_post_id_of_path(p) is Some {
            if b.title is None {
                lemma_parse_blocks_first_error(
                    author,
                    page.blocks,
                    i,
                    Field::Post(PostFieldName::Title),
                );
            } else {
                if b.date is Some && !spec_is_date_text(spec_date_text(b.date->0)) {
                    lemma_parse_blocks_first_error(
                        author,
                        page.blocks,
                        i,
                        Field::Post(PostFieldName::PublishedAt),
                    );
                }
            }
        }
    }
}

/// Parses the extracted page data of a creator's listing into an article.
/// Strict and fail-closed: the contract pins the result to the page
/// mapping, so one unparsable post fails the whole page with the locator
/// of the first field that did not match.
pub fn parse_page(id: &str, page: &PageData) -> (r: Result<Article, Field>)
    ensures
        (match r {
            Ok(a) => spec_parse_page(id@, page@) == Ok::<ArticleView, Field>(a@),
            Err(f) => spec_parse_page(id@, page@) == Err::<ArticleView, Field>(f),
        }),
{
    let name = match &page.author_name {
        None => {
            return Err(Field::Author(AuthorFieldName::Name));
        },
        Some(n) => n,
    };
    let ghost author_view = spec_fantia_author(id@, name@);
    let mut posts: Vec<Post> = Vec::new();
    proof {
        assert(page@.blocks.subrange(0, 0) =~= Seq::<PostBlockView>::empty());
        assert(posts.deep_view() =~= Seq::<PostView>::empty());
    }
    let mut i: usize = 0;
    while i < page.blocks.len()
        invariant
            i <= page.blocks.len(),
            page@.blocks.len() == page.blocks.len(),
            page@.author_name == Some(name@),
            author_view == spec_fantia_author(id@, name@),
            spec_parse_blocks(author_view, page@.blocks.subrange(0, i as int)) == Ok::<
                Seq<PostView>,
                Field,
            >(posts.deep_view()),
        decreases page.blocks.len() - i,
    {
        let block = &page.blocks[i];
        proof {
            assert(page@.blocks.subrange(0, i as int + 1) =~= page@.blocks.subrange(
                0,
                i as int,
            ).push(block@));
            lemma_parse_blocks_snoc(author_view, page@.blocks.subrange(0, i as int), block@);
        }
        let path = match &block.anchor_href {
            None => {
                proof {
                    lemma_parse_blocks_prefix_error(
                        author_view,
                        page@.blocks,
                        i as int + 1,
                        Field::Post(PostFieldName::Id),
                    );
                }
                return Err(Field::Post(PostFieldName::Id));
            },
            Some(p) => p,
        };
        let post_id = match post_id_of_path(path.as_str()) {
            None => {
                proof {
                    lemma_parse_blocks_prefix_error(
                        author_view,
                        page@.blocks,
                        i as int + 1,
                        Field::Post(PostFieldName::Id),
                    );
                }
                return Err(Field::Post(PostFieldName::Id));
            },
            Some(s) => s,
        };
        let title = match &block.title {
            None => {
                proof {
                    lemma_parse_blocks_prefix_error(
                        author_view,
                        page@.blocks,
                        i as int + 1,
                        Field::Post(PostFieldName::Title),
                    );
                }
                return Err(Field::Post(PostFieldName::Title));
            },
            Some(t) => t,
        };
        let date = match &block.date {
            None => {
                proof {
                    lemma_parse_blocks_prefix_error(
                        author_view,
                        page@.blocks,
                        i as int + 1,
                        Field::Post(PostFieldName::PublishedAt),
                    );
                }
                return Err(Field::Post(PostFieldName::PublishedAt));
            },
            Some(d) => d,
        };
        let date_text = match &date.span_text {
            Some(t) => t.as_str(),
            None => date.own_text.as_str(),
        };
        proof {
            assert(date_text@ == spec_date_text(date@));
        }
        let published_at = match parse_jst_date_time(date_text) {
            None => {
                proof {
                    lemma_parse_blocks_prefix_error(
                        author_view,
                        page@.blocks,
                        i as int + 1,
                        Field::Post(PostFieldName::PublishedAt),
                    );
                }
                return Err(Field::Post(PostFieldName::PublishedAt));
            },
            Some(t) => t,
        };
        let mut url = "https://fantia.jp".to_owned();
        url.append(path.as_str());
        let post = Post {
            author: Author {
                id: id.to_owned(),
                name: name.clone(),
                alias: id.to_owned(),
                icon_url: String::new(),
            },
            id: post_id,
            title: title.clone(),
            image_url: match &block.image_src {
                Some(u) => Some(u.clone()),
                None => None,
            },
            published_at,
            updated_at: published_at,
            summary: match &block.summary {
                Some(s) => Some(s.clone()),
                None => None,
            },
            content: None,
            url,
        };
        proof {
            assert(spec_post_of_block(author_view, block@) == Ok::<PostView, Field>(post@)) by {
                assert(post@ =~= spec_post_of_block(author_view, block@)->Ok_0);
            }
        }
        let ghost prev = posts.deep_view();
        posts.push(post);
        proof {
            assert(posts.deep_view() =~= prev.push(post@));
        }
        i = i + 1;
    }
    proof {
        assert(page@.blocks.subrange(0, page@.blocks.len() as int) =~= page@.blocks);
    }
    let mut url = "https://fantia.jp".to_owned();
    url.append("/fanclubs/");
    url.append(name.as_str());
    let mut title = name.clone();
    title.append(" | ファンティア[Fantia]");
    let article = Article { id: id.to_owned(), url, title, posts };
    proof {
        assert(article@ =~= spec_parse_page(id@, page@)->Ok_0);
    }
    Ok(article)
}

/// Reads the post id out of a link path of the shape `/posts/<id>`.
fn post_id_of_path(path: &str) -> (r: Option<String>)
    ensures
        r is Some <==> spec_post_id_of_path(path@) is Some,
        r is Some ==> Some(r->0@) == spec_post_id_of_path(path@),
{
    let n = path.unicode_len();
    if n <= 7 {
        return None;
    }
    let prefix = path.substring_char(0, 7);
    if str_eq(prefix, "/posts/") {
        Some(path.substring_char(7, n).to_owned())
    } else {
        None
    }
}

/// The HTML-scraping source. It fetches a creator's public posts-listing
/// page, newest first; the structural extraction and the parsing below are
/// its whole logic, the outbound call stands with the caller that owns the
/// HTTP client.
pub struct Fantia;

impl Fantia {
    /// Parses a fetched listing page: the result is exactly the page
    /// mapping of what the structural queries find in the markup.
    pub fn parse_html(name: &str, html: &str) -> (r: Result<Article, Field>)
        ensures
            (match r {
                Ok(a) => spec_parse_page(name@, page_data_of(html@)) == Ok::<ArticleView, Field>(
                    a@,
                ),
                Err(f) => spec_parse_page(name@, page_data_of(html@)) == Err::<ArticleView, Field>(
                    f,
                ),
            }),
    {
        let page = extract_page(html);
        parse_page(name, &page)
    }

    /// Decides what one upstream exchange yields, given the response status
    /// and the page body where it decoded as text.
    ///
    /// Status 404 is the platform's affirmative "no such creator"; any
    /// other non-success status, and a body that is not valid text (`None`
    /// here), are transport failures carrying the caller's error value; a
    /// success status with a body is parsed, strictly and fail-closed.
    pub fn handle_response<T>(name: &str, status: u16, body: Option<&str>, transport: T) -> (r:
        Result<Article, Error<T>>)
        ensures
            status == 404 ==> (r matches Err(e) && e matches Error::NotFound),
            status != 404 && !spec_status_success(status as int) ==> (r matches Err(e) && (
            e matches Error::Misc(t) && t == transport)),
            status != 404 && spec_status_success(status as int) && body is None ==> (r matches Err(
                e,
            ) && (e matches Error::Misc(t) && t == transport)),
            status != 404 && spec_status_success(status as int) && body is Some ==> (match r {
                Ok(a) => spec_parse_page(name@, page_data_of(body->0@)) == Ok::<
                    ArticleView,
                    Field,
                >(a@),
                Err(Error::ParseError(f)) => spec_parse_page(name@, page_data_of(body->0@))
                    == Err::<ArticleView, Field>(f),
                Err(Error::NotFound) => false,
                Err(Error::Misc(_)) => false,
            }),
    {
        if status == 404 {
            return Err(Error::NotFound);
        }
        if !(200 <= status && status <= 299) {
            return Err(Error::Misc(transport));
        }
        match body {
            None => Err(Error::Misc(transport)),
            Some(html) => match Self::parse_html(name, html) {
                Ok(a) => Ok(a),
                Err(f) => Err(Error::ParseError(f)),
            },
        }
    }
}

/// Runs the structural queries over the markup: the author header's text
/// and the per-post blocks, exactly as the page shows them. Each query
/// reads the document afresh from the markup text, so the result is pinned
/// to the markup alone.
fn extract_page(html: &str) -> (page: PageData)
    ensures
        page@ == page_data_of(html@),
{
    let author_name = first_match_text_in(html, ".fanclub-summary h1 a");
    let n = match_count_in(html, ".post-inner");
    let mut blocks: Vec<PostBlock> = Vec::new();
    let mut i: usize = 0;
    while i < n
        invariant
            i <= n,
            n as nat == match_count(html@, ".post-inner"@),
            blocks@.len() == i,
            forall|j: int| 0 <= j < i ==> #[trigger] blocks@[j]@ == spec_block_of(html@, j),
        decreases n - i,
    {
        let anchor_href = nth_block_first_attr_in(html, ".post-inner", "a", i, "href");
        let title = nth_block_first_text_in(html, ".post-inner", ".post-title", i);
        let date = match nth_block_first_text_in(html, ".post-inner", ".post-date", i) {
            None => None,
            Some(own) => Some(
                DateMarkup {
                    span_text: nth_block_nested_text_in(html, ".post-inner", ".post-date", "span", i),
                    own_text: own,
                },
            ),
        };
        let image_src = nth_block_first_attr_in(html, ".post-inner", "img", i, "src");
        let summary = nth_block_first_text_in(html, ".post-inner", ".post-text", i);
        let block = PostBlock { anchor_href, title, date, image_src, summary };
        proof {
            assert(block@ =~= spec_block_of(html@, i as int));
        }
        blocks.push(block);
        i = i + 1;
    }
    let page = PageData { author_name, blocks };
    proof {
        assert(page@.blocks =~= page_data_of(html@).blocks);
        assert(page@ =~= page_data_of(html@));
    }
    page
}

} // verus!
