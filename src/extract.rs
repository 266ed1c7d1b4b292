use vstd::prelude::*;

verus! {

/// The text of the first `<title>` element of an HTML page, as the `select`
/// crate reads the page.
pub uninterp spec fn html_title_of(body: Seq<char>) -> Option<Seq<char>>;

/// The `content` attribute of the first element with `name="description"`
/// of an HTML page, as the `select` crate reads the page.
pub uninterp spec fn html_description_of(body: Seq<char>) -> Option<Seq<char>>;

/// The view of an optional owned string.
pub open spec fn opt_view(s: Option<String>) -> Option<Seq<char>> {
    match s {
        Some(t) => Some(t@),
        None => None,
    }
}

/// Relies on `select::document::Document::from`, `find(Name("title"))` and
/// `Node::text`: the result depends on the page text alone.
#[verifier::external_body]
fn first_title(body: &str) -> (r: Option<String>)
    ensures
        opt_view(r) == html_title_of(body@),
{
    let document = select::document::Document::from(body);
    let found = document.find(select::predicate::Name("title")).next();
    found.map(|node| node.text())
}

/// Relies on `select::document::Document::from`,
/// `find(Attr("name", "description"))` and `Node::attr("content")`: the
/// result depends on the page text alone.
#[verifier::external_body]
fn first_description(body: &str) -> (r: Option<String>)
    ensures
        opt_view(r) == html_description_of(body@),
{
    let document = select::document::Document::from(body);
    let found = document.find(select::predicate::Attr("name", "description")).next();
    found.and_then(|node| node.attr("content")).map(|c| c.to_string())
}

/// Looks up the title and the meta description of an HTML page. Either may
/// be absent; no page is refused.
pub fn extract_title_and_content(body: &str) -> (r: (Option<String>, Option<String>))
    ensures
        opt_view(r.0) == html_title_of(body@),
        opt_view(r.1) == html_description_of(body@),
{
    (first_title(body), first_description(body))
}

} // verus!
