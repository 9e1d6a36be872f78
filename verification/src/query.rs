//! Document query layer: ordered, trimmed text and attribute extraction by
//! declarative selector over a fetched results page.
//!
//! The page is held as its raw text and parsed on demand; what a selector
//! matches is a pure function of that text, named here by the uninterpreted
//! functions [`page_texts`] and [`page_attrs`]. Everything downstream assumes
//! that raw-list position encodes depth-first, top-to-bottom document order,
//! which is the order the underlying tree walk produces. Whitespace-only and
//! empty matches are filtered out by the verified cleaning pass before a list
//! is handed on.

use vstd::prelude::*;

verus! {

/// The text nodes that a selector matches on a page, in depth-first document
/// order, exactly as they stand in the markup (untrimmed).
pub uninterp spec fn page_texts(page: Seq<char>, selector: Seq<char>) -> Seq<Seq<char>>;

/// The value of one attribute on each element a selector matches on a page,
/// in depth-first document order; `None` where the element lacks the
/// attribute.
pub uninterp spec fn page_attrs(
    page: Seq<char>,
    selector: Seq<char>,
    attr: Seq<char>,
) -> Seq<Option<Seq<char>>>;

/// A string with its leading and trailing whitespace removed.
pub uninterp spec fn trim_of(s: Seq<char>) -> Seq<char>;

/// Relies on `scraper::Html::parse_document`, `scraper::Selector::parse`,
/// `scraper::Html::select` and `scraper::ElementRef::text`: parsing a fixed
/// text and walking the resulting element tree is deterministic, and both the
/// matched elements and each element's text nodes come in depth-first
/// document order, so the strings collected are a function of the page text
/// and the selector alone. A selector that does not parse matches nothing.
#[verifier::external_body]
fn query_texts(page: &str, selector: &str) -> (r: Vec<String>)
    ensures
        r.deep_view() == page_texts(page@, selector@),
{
    let sel = match scraper::Selector::parse(selector) {
        Ok(sel) => sel,
        Err(_) => return Vec::new(),
    };
    let html = scraper::Html::parse_document(page);
    let mut out = Vec::new();
    for el in html.select(&sel) {
        for t in el.text() {
            out.push(t.to_string());
        }
    }
    out
}

/// Relies on `scraper::Html::parse_document`, `scraper::Selector::parse`,
/// `scraper::Html::select` and `scraper::ElementRef::attr`: the elements a
/// selector matches on a fixed page text, and each one's attribute values,
/// are a function of the page text, the selector and the attribute name
/// alone, in depth-first document order. A selector that does not parse
/// matches nothing.
#[verifier::external_body]
fn query_attrs(page: &str, selector: &str, attr: &str) -> (r: Vec<Option<String>>)
    ensures
        r.deep_view() == page_attrs(page@, selector@, attr@),
{
    let sel = match scraper::Selector::parse(selector) {
        Ok(sel) => sel,
        Err(_) => return Vec::new(),
    };
    let html = scraper::Html::parse_document(page);
    let mut out = Vec::new();
    for el in html.select(&sel) {
        out.push(el.attr(attr).map(|a| a.to_string()));
    }
    out
}

/// Relies on `str::trim`: the result depends on the characters alone, and an
/// empty string stays empty.
#[verifier::external_body]
fn trim_str(s: &str) -> (r: String)
    ensures
        r@ == trim_of(s@),
        s@.len() == 0 ==> r@ == s@,
{
    s.trim().to_string()
}

/// Each string trimmed, with those that were empty or whitespace-only
/// dropped; the order of the survivors is kept.
pub open spec fn spec_clean(s: Seq<Seq<char>>) -> Seq<Seq<char>>
    decreases s.len(),
{
    if s.len() == 0 {
        Seq::empty()
    } else {
        let rest = spec_clean(s.drop_last());
        let t = trim_of(s.last());
        if t.len() > 0 {
            rest + seq![t]
        } else {
            rest
        }
    }
}

/// The present values of an optional-string list, in order.
pub open spec fn spec_present(s: Seq<Option<Seq<char>>>) -> Seq<Seq<char>>
    decreases s.len(),
{
    if s.len() == 0 {
        Seq::empty()
    } else {
        let rest = spec_present(s.drop_last());
        match s.last() {
            Some(t) => rest + seq![t],
            None => rest,
        }
    }
}

/// Trims every entry and drops the entries that end up empty.
fn clean(v: &Vec<String>) -> (r: Vec<String>)
    ensures
        r.deep_view() == spec_clean(v.deep_view()),
{
    let mut out: Vec<String> = Vec::new();
    let n = v.len();
    for i in 0..n
        invariant
            n == v.len(),
            out.deep_view() =~= spec_clean(v.deep_view().take(i as int)),
    {
        let t = trim_str(v[i].as_str());
        proof {
            assert(v.deep_view().take(i + 1).drop_last() =~= v.deep_view().take(i as int));
            assert(v.deep_view().take(i + 1).last() == v.deep_view()[i as int]);
        }
        if !t.as_str().is_empty() {
            out.push(t);
        }
    }
    proof {
        assert(v.deep_view().take(n as int) =~= v.deep_view());
    }
    out
}

/// Keeps the present values of an optional-string list, in order.
fn present(v: &Vec<Option<String>>) -> (r: Vec<String>)
    ensures
        r.deep_view() == spec_present(v.deep_view()),
{
    let mut out: Vec<String> = Vec::new();
    let n = v.len();
    for i in 0..n
        invariant
            n == v.len(),
            out.deep_view() =~= spec_present(v.deep_view().take(i as int)),
    {
        proof {
            assert(v.deep_view().take(i + 1).drop_last() =~= v.deep_view().take(i as int));
            assert(v.deep_view().take(i + 1).last() == v.deep_view()[i as int]);
        }
        match &v[i] {
            Some(s) => out.push(s.clone()),
            None => {},
        }
    }
    proof {
        assert(v.deep_view().take(n as int) =~= v.deep_view());
    }
    out
}

/// Each string trimmed, all of them kept — also those that end up empty.
pub open spec fn spec_trim_all(s: Seq<Seq<char>>) -> Seq<Seq<char>>
    decreases s.len(),
{
    if s.len() == 0 {
        Seq::empty()
    } else {
        spec_trim_all(s.drop_last()) + seq![trim_of(s.last())]
    }
}

/// Trims every entry, keeping all of them.
fn trim_all(v: &Vec<String>) -> (r: Vec<String>)
    ensures
        r.deep_view() == spec_trim_all(v.deep_view()),
{
    let mut out: Vec<String> = Vec::new();
    let n = v.len();
    for i in 0..n
        invariant
            n == v.len(),
            out.deep_view() =~= spec_trim_all(v.deep_view().take(i as int)),
    {
        let t = trim_str(v[i].as_str());
        proof {
            assert(v.deep_view().take(i + 1).drop_last() =~= v.deep_view().take(i as int));
            assert(v.deep_view().take(i + 1).last() == v.deep_view()[i as int]);
        }
        out.push(t);
    }
    proof {
        assert(v.deep_view().take(n as int) =~= v.deep_view());
    }
    out
}

/// What [`Document::query_text`] returns: the matched text nodes, trimmed,
/// with empty and whitespace-only matches dropped.
pub open spec fn spec_query_text(page: Seq<char>, selector: Seq<char>) -> Seq<Seq<char>> {
    spec_clean(page_texts(page, selector))
}

/// What [`Document::query_attr`] returns: the present attribute values,
/// trimmed, with empty and whitespace-only values dropped.
pub open spec fn spec_query_attr(
    page: Seq<char>,
    selector: Seq<char>,
    attr: Seq<char>,
) -> Seq<Seq<char>> {
    spec_clean(spec_present(page_attrs(page, selector, attr)))
}

/// What [`Document::query_attr_present`] returns: the present attribute
/// values, trimmed, all of them kept — also those that end up empty.
pub open spec fn spec_query_attr_present(
    page: Seq<char>,
    selector: Seq<char>,
    attr: Seq<char>,
) -> Seq<Seq<char>> {
    spec_trim_all(spec_present(page_attrs(page, selector, attr)))
}

/// A fetched results page. It wraps the raw page text; queries parse it on
/// demand, so a document's behaviour is a function of that text alone.
pub struct Document {
    text: String,
}

impl View for Document {
    type V = Seq<char>;

    closed spec fn view(&self) -> Seq<char> {
        self.text@
    }
}

impl Document {
    /// Wraps fetched page text as a queryable document.
    pub fn from_text(text: String) -> (d: Document)
        ensures
            d@ == text@,
    {
        Document { text }
    }

    /// The text matched by `selector`, in document order, trimmed, with
    /// empty and whitespace-only matches dropped. Zero matches give an empty
    /// list, never a failure.
    pub fn query_text(&self, selector: &str) -> (r: Vec<String>)
        ensures
            r.deep_view() == spec_query_text(self@, selector@),
    {
        clean(&query_texts(self.text.as_str(), selector))
    }

    /// The values of `attr` on the elements matched by `selector`, in
    /// document order, for the elements that carry it, trimmed, with empty
    /// and whitespace-only values dropped. Zero matches give an empty list,
    /// never a failure.
    pub fn query_attr(&self, selector: &str, attr: &str) -> (r: Vec<String>)
        ensures
            r.deep_view() == spec_query_attr(self@, selector@, attr@),
    {
        clean(&present(&query_attrs(self.text.as_str(), selector, attr)))
    }

    /// Like [`Document::query_attr`], but keeps values that are empty after
    /// trimming, so that positions still line up with the elements that
    /// carry the attribute.
    pub fn query_attr_present(&self, selector: &str, attr: &str) -> (r: Vec<String>)
        ensures
            r.deep_view() == spec_query_attr_present(self@, selector@, attr@),
    {
        trim_all(&present(&query_attrs(self.text.as_str(), selector, attr)))
    }
}

} // verus!
