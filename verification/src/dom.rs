use vstd::prelude::*;

verus! {

/// The fixed selector expressions the scraping source queries with. Each is
/// a well-formed CSS selector group, so `scraper::Selector::parse` accepts
/// it; the wrappers below admit no other selector text.
pub open spec fn known_selector(s: Seq<char>) -> bool {
    ||| s == ".fanclub-summary h1 a"@
    ||| s == ".post-inner"@
    ||| s == ".post-title"@
    ||| s == ".post-date"@
    ||| s == ".post-text"@
    ||| s == "img"@
    ||| s == "a"@
    ||| s == "span"@
}

/// The concatenated text of the first element of `html` matching `sel`, or
/// nothing when no element matches. The markup and the selector decide the
/// result alone.
pub uninterp spec fn first_match_text(html: Seq<char>, sel: Seq<char>) -> Option<Seq<char>>;

/// How many elements of `html` match `sel`.
pub uninterp spec fn match_count(html: Seq<char>, sel: Seq<char>) -> nat;

/// The concatenated text of the first `inner_sel` match inside the `i`-th
/// `block_sel` match of `html`; nothing when either is absent.
pub uninterp spec fn nth_block_first_text(
    html: Seq<char>,
    block_sel: Seq<char>,
    inner_sel: Seq<char>,
    i: int,
) -> Option<Seq<char>>;

/// The value of attribute `attr` on the first `inner_sel` match inside the
/// `i`-th `block_sel` match of `html`; nothing when block or element is
/// absent or the element lacks the attribute.
pub uninterp spec fn nth_block_first_attr(
    html: Seq<char>,
    block_sel: Seq<char>,
    inner_sel: Seq<char>,
    i: int,
    attr: Seq<char>,
) -> Option<Seq<char>>;

/// The concatenated text of the first `deep_sel` match inside the first
/// `inner_sel` match inside the `i`-th `block_sel` match of `html`; nothing
/// when any of the three is absent.
pub uninterp spec fn nth_block_nested_text(
    html: Seq<char>,
    block_sel: Seq<char>,
    inner_sel: Seq<char>,
    deep_sel: Seq<char>,
    i: int,
) -> Option<Seq<char>>;

/// Relies on scraper::Selector::parse (succeeds on every selector admitted
/// by `known_selector`), scraper::Html::parse_document (never fails hard),
/// scraper::Html::select (matches in tree order) and
/// scraper::ElementRef::text (descendant text in tree order). Parsing and
/// selection are deterministic in the document and selector text, so the
/// result carries the name `first_match_text`.
#[verifier::external_body]
pub(crate) fn first_match_text_in(html: &str, sel: &str) -> (r: Option<String>)
    requires
        known_selector(sel@),
    ensures
        r.deep_view() == first_match_text(html@, sel@),
{
    let selector = scraper::Selector::parse(sel).unwrap();
    let doc = scraper::Html::parse_document(html);
    doc.select(&selector).next().map(|e| e.text().collect())
}

/// Relies on scraper::Selector::parse, scraper::Html::parse_document and
/// scraper::Html::select, deterministic in the document and selector text:
/// the number of matching elements carries the name `match_count`.
#[verifier::external_body]
pub(crate) fn match_count_in(html: &str, sel: &str) -> (r: usize)
    requires
        known_selector(sel@),
    ensures
        r as nat == match_count(html@, sel@),
{
    let selector = scraper::Selector::parse(sel).unwrap();
    let doc = scraper::Html::parse_document(html);
    doc.select(&selector).count()
}

/// Relies on scraper::Selector::parse, scraper::Html::parse_document,
/// scraper::Html::select, scraper::ElementRef::select (descendants only)
/// and scraper::ElementRef::text, deterministic in the document and
/// selector text: the result carries the name `nth_block_first_text`.
#[verifier::external_body]
pub(crate) fn nth_block_first_text_in(html: &str, block_sel: &str, inner_sel: &str, i: usize) -> (r:
    Option<String>)
    requires
        known_selector(block_sel@),
        known_selector(inner_sel@),
    ensures
        r.deep_view() == nth_block_first_text(html@, block_sel@, inner_sel@, i as int),
{
    let sel_block = scraper::Selector::parse(block_sel).unwrap();
    let sel_inner = scraper::Selector::parse(inner_sel).unwrap();
    let doc = scraper::Html::parse_document(html);
    doc.select(&sel_block).nth(i).and_then(|b| b.select(&sel_inner).next()).map(
        |e| e.text().collect(),
    )
}

/// Relies on scraper::Selector::parse, scraper::Html::parse_document,
/// scraper::Html::select, scraper::ElementRef::select and
/// scraper::ElementRef::attr, deterministic in the document, selector and
/// attribute text: the result carries the name `nth_block_first_attr`.
#[verifier::external_body]
pub(crate) fn nth_block_first_attr_in(
    html: &str,
    block_sel: &str,
    inner_sel: &str,
    i: usize,
    attr: &str,
) -> (r: Option<String>)
    requires
        known_selector(block_sel@),
        known_selector(inner_sel@),
    ensures
        r.deep_view() == nth_block_first_attr(html@, block_sel@, inner_sel@, i as int, attr@),
{
    let sel_block = scraper::Selector::parse(block_sel).unwrap();
    let sel_inner = scraper::Selector::parse(inner_sel).unwrap();
    let doc = scraper::Html::parse_document(html);
    doc.select(&sel_block).nth(i).and_then(|b| b.select(&sel_inner).next()).and_then(
        |e| e.attr(attr),
    ).map(str::to_owned)
}

/// Relies on scraper::Selector::parse, scraper::Html::parse_document,
/// scraper::Html::select, scraper::ElementRef::select and
/// scraper::ElementRef::text, deterministic in the document and selector
/// text: the result carries the name `nth_block_nested_text`.
#[verifier::external_body]
pub(crate) fn nth_block_nested_text_in(
    html: &str,
    block_sel: &str,
    inner_sel: &str,
    deep_sel: &str,
    i: usize,
) -> (r: Option<String>)
    requires
        known_selector(block_sel@),
        known_selector(inner_sel@),
        known_selector(deep_sel@),
    ensures
        r.deep_view() == nth_block_nested_text(html@, block_sel@, inner_sel@, deep_sel@, i as int),
{
    let sel_block = scraper::Selector::parse(block_sel).unwrap();
    let sel_inner = scraper::Selector::parse(inner_sel).unwrap();
    let sel_deep = scraper::Selector::parse(deep_sel).unwrap();
    let doc = scraper::Html::parse_document(html);
    doc.select(&sel_block).nth(i).and_then(|b| b.select(&sel_inner).next()).and_then(
        |d| d.select(&sel_deep).next(),
    ).map(|e| e.text().collect())
}

} // verus!
