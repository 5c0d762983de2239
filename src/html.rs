use vstd::prelude::*;

verus! {

/// The text that HTML-entity decoding makes of `s`.
pub uninterp spec fn decoded_of(s: Seq<char>) -> Seq<char>;

/// The text that trimming surrounding whitespace makes of `s`.
pub uninterp spec fn trimmed_of(s: Seq<char>) -> Seq<char>;

/// The text that lowercasing makes of `s`.
pub uninterp spec fn lowered_of(s: Seq<char>) -> Seq<char>;

/// The outer HTML of each element of document `html` that CSS selector
/// `sel` matches, in document order.
pub uninterp spec fn matches_of(html: Seq<char>, sel: Seq<char>) -> Seq<Seq<char>>;

/// The inner HTML of each element of document `html` that `sel` matches,
/// in document order.
pub uninterp spec fn inner_matches_of(html: Seq<char>, sel: Seq<char>) -> Seq<Seq<char>>;

/// The inner HTML of the first element of `html` that `sel` matches.
pub uninterp spec fn first_inner_of(html: Seq<char>, sel: Seq<char>) -> Option<Seq<char>>;

/// The value of attribute `attr` on the first element of `html` that `sel`
/// matches; `None` when nothing matches or the attribute is absent.
pub uninterp spec fn first_attr_of(html: Seq<char>, sel: Seq<char>, attr: Seq<char>) -> Option<
    Seq<char>,
>;

/// Relies on html_escape::decode_html_entities: the decoded text depends on
/// the input alone.
#[verifier::external_body]
pub(crate) fn decode_entities(s: &str) -> (r: String)
    ensures
        r@ == decoded_of(s@),
{
    html_escape::decode_html_entities(s).into_owned()
}

/// Relies on str::trim: the trimmed text depends on the input alone.
#[verifier::external_body]
pub(crate) fn trim_text(s: &str) -> (r: String)
    ensures
        r@ == trimmed_of(s@),
{
    s.trim().to_string()
}

/// Relies on str::to_lowercase: the result depends on the input alone.
#[verifier::external_body]
pub(crate) fn lowercase_text(s: &str) -> (r: String)
    ensures
        r@ == lowered_of(s@),
{
    s.to_lowercase()
}

/// Relies on scraper's Html::parse_document, Selector::parse,
/// Html::select and ElementRef::html: the matches of a selector in a
/// document depend on the two texts alone. A selector that does not parse
/// matches nothing.
#[verifier::external_body]
pub(crate) fn select_all(html: &str, sel: &str) -> (r: Vec<String>)
    ensures
        r@.map_values(|s: String| s@) == matches_of(html@, sel@),
{
    let doc = scraper::Html::parse_document(html);
    match scraper::Selector::parse(sel) {
        Ok(selector) => doc.select(&selector).map(|e| e.html()).collect(),
        Err(_) => Vec::new(),
    }
}

/// Relies on scraper's Html::parse_document, Selector::parse,
/// Html::select and ElementRef::inner_html, over every match. A selector
/// that does not parse matches nothing.
#[verifier::external_body]
pub(crate) fn select_all_inner(html: &str, sel: &str) -> (r: Vec<String>)
    ensures
        r@.map_values(|s: String| s@) == inner_matches_of(html@, sel@),
{
    let doc = scraper::Html::parse_document(html);
    match scraper::Selector::parse(sel) {
        Ok(selector) => doc.select(&selector).map(|e| e.inner_html()).collect(),
        Err(_) => Vec::new(),
    }
}

/// Relies on scraper's Html::parse_document, Selector::parse,
/// Html::select and ElementRef::inner_html, for the first match only.
#[verifier::external_body]
pub(crate) fn select_first_inner(html: &str, sel: &str) -> (r: Option<String>)
    ensures
        r matches Some(s) ==> first_inner_of(html@, sel@) == Some(s@),
        r is None ==> first_inner_of(html@, sel@) is None,
{
    let doc = scraper::Html::parse_document(html);
    let selector = scraper::Selector::parse(sel).ok()?;
    doc.select(&selector).next().map(|e| e.inner_html())
}

/// Relies on scraper's Html::parse_document, Selector::parse,
/// Html::select and ElementRef::attr, for the first match only.
#[verifier::external_body]
pub(crate) fn select_first_attr(html: &str, sel: &str, attr: &str) -> (r: Option<String>)
    ensures
        r matches Some(s) ==> first_attr_of(html@, sel@, attr@) == Some(s@),
        r is None ==> first_attr_of(html@, sel@, attr@) is None,
{
    let doc = scraper::Html::parse_document(html);
    let selector = scraper::Selector::parse(sel).ok()?;
    doc.select(&selector).next()?.attr(attr).map(|a| a.to_string())
}

} // verus!
