//! Scope selection: the source files that a contest's description lists as
//! in scope, leaving out libraries and interfaces.
use vstd::prelude::*;
use crate::text::{contains_part, ends_with_part, has_part, has_suffix, texts_of};

verus! {

/// Each table row of a description.
pub const ROW_SELECTOR: &'static str = "tr";

/// The links inside a row's cells.
pub const LINK_SELECTOR: &'static str = "td a";

/// Whether `rows` and `links` are both accepted by `scraper::Selector::parse`.
pub uninterp spec fn selectors_parse(rows: Seq<char>, links: Seq<char>) -> bool;

/// For each element that `scraper::Html::select` finds for the row selector
/// in the fragment read by `scraper::Html::parse_fragment`, in the order in
/// which it yields them: the texts of every element inside that row that the
/// link selector finds, in the order in which `ElementRef::select` yields them.
pub uninterp spec fn row_link_texts(html: Seq<char>, rows: Seq<char>, links: Seq<char>) -> Seq<Seq<Seq<char>>>;

/// The character sequences of each row of strings.
pub open spec fn row_texts_of(v: Seq<Vec<String>>) -> Seq<Seq<Seq<char>>> {
    v.map_values(|row: Vec<String>| texts_of(row@))
}

/// The character sequences of a list of optional strings.
pub open spec fn opt_texts_of(v: Seq<Option<String>>) -> Seq<Option<Seq<char>>> {
    v.map_values(|o: Option<String>| match o {
        Some(s) => Some(s@),
        None => None,
    })
}

/// Only the first link of a row names the row's file; a row without links
/// names none.
pub open spec fn first_links_of(rows: Seq<Seq<Seq<char>>>) -> Seq<Option<Seq<char>>> {
    rows.map_values(|row: Seq<Seq<char>>| if row.len() > 0 { Some(row[0]) } else { None })
}

/// A linked path counts as in scope when it names a Solidity source and
/// mentions neither a library nor an interface anywhere in its text.
pub open spec fn is_scope_path(s: Seq<char>) -> bool {
    &&& has_suffix(s, ".sol"@)
    &&& !has_part(s, "lib"@)
    &&& !has_part(s, "interfaces"@)
    &&& !has_part(s, "libraries"@)
}

/// The in-scope paths among the rows' first links, in row order, repeats
/// kept.
pub open spec fn scope_paths_of(rows: Seq<Option<Seq<char>>>) -> Seq<Seq<char>>
    decreases rows.len(),
{
    if rows.len() == 0 {
        Seq::empty()
    } else {
        let before = scope_paths_of(rows.drop_last());
        match rows.last() {
            Some(t) => if is_scope_path(t) { before.push(t) } else { before },
            None => before,
        }
    }
}

/// Relies on `scraper::Selector::parse` for both selectors, then on
/// `scraper::Html::parse_fragment`, `Html::select`, `ElementRef::select` and
/// `ElementRef::text` for the link texts of each row.
#[verifier::external_body]
fn link_texts_of_each_row(html: &str, rows: &str, links: &str) -> (r: Option<Vec<Vec<String>>>)
    ensures
        r.is_some() == selectors_parse(rows@, links@),
        r.is_some() ==> row_texts_of(r->Some_0@) == row_link_texts(html@, rows@, links@),
{
    match (scraper::Selector::parse(rows), scraper::Selector::parse(links)) {
        (Ok(row_sel), Ok(link_sel)) => {
            let doc = scraper::Html::parse_fragment(html);
            Some(doc.select(&row_sel).map(|row| row.select(&link_sel).map(|a| a.text().collect::<String>()).collect()).collect())
        },
        _ => None,
    }
}

/// The first link text of each row, or `None` for a row without links.
pub fn first_links(rows: &Vec<Vec<String>>) -> (r: Vec<Option<String>>)
    ensures
        opt_texts_of(r@) == first_links_of(row_texts_of(rows@)),
{
    let mut out: Vec<Option<String>> = Vec::new();
    let mut i: usize = 0;
    while i < rows.len()
        invariant
            i <= rows@.len(),
            out@.len() == i,
            forall|j: int| 0 <= j < i ==> opt_texts_of(out@)[j] == first_links_of(row_texts_of(rows@))[j],
        decreases rows@.len() - i,
    {
        let ghost before = out@;
        let row = &rows[i];
        if row.len() > 0 {
            out.push(Some(row[0].clone()));
        } else {
            out.push(None);
        }
        let ghost want = first_links_of(row_texts_of(rows@));
        assert(row_texts_of(rows@)[i as int] == texts_of(rows@[i as int]@));
        assert(opt_texts_of(out@)[i as int] == want[i as int]);
        assert forall|j: int| 0 <= j < i + 1 implies opt_texts_of(out@)[j] == want[j] by {
            if j < i {
                assert(out@[j] == before[j]);
                assert(opt_texts_of(before)[j] == want[j]);
                assert(opt_texts_of(out@)[j] == opt_texts_of(before)[j]);
            }
        }
        i += 1;
    }
    assert(opt_texts_of(out@) =~= first_links_of(row_texts_of(rows@)));
    out
}

/// Whether a linked path is in scope.
pub fn is_scope_link(link: &str) -> (r: bool)
    ensures
        r == is_scope_path(link@),
{
    proof {
        reveal_strlit(".sol");
    }
    ends_with_part(link, ".sol") && !contains_part(link, "lib") && !contains_part(link, "interfaces")
        && !contains_part(link, "libraries")
}

/// Keeps the in-scope paths among the rows' first links, in order.
pub fn select_scope_links(rows: &Vec<Option<String>>) -> (r: Vec<String>)
    ensures
        texts_of(r@) == scope_paths_of(opt_texts_of(rows@)),
{
    let mut out: Vec<String> = Vec::new();
    let mut i: usize = 0;
    while i < rows.len()
        invariant
            i <= rows@.len(),
            texts_of(out@) == scope_paths_of(opt_texts_of(rows@).subrange(0, i as int)),
        decreases rows@.len() - i,
    {
        let ghost all = opt_texts_of(rows@);
        assert(all.subrange(0, i + 1).drop_last() =~= all.subrange(0, i as int));
        match &rows[i] {
            Some(link) => {
                if is_scope_link(link.as_str()) {
                    out.push(link.clone());
                }
            },
            None => {},
        }
        assert(texts_of(out@) =~= scope_paths_of(all.subrange(0, i + 1)));
        i += 1;
    }
    assert(opt_texts_of(rows@).subrange(0, rows@.len() as int) =~= opt_texts_of(rows@));
    out
}

/// The in-scope source paths that a rendered contest description lists, taken
/// from the first link of each table row, in row order; `None` only where the selectors are refused.
pub fn scope_contracts(readme_html: &str) -> (r: Option<Vec<String>>)
    ensures
        r.is_some() == selectors_parse(ROW_SELECTOR@, LINK_SELECTOR@),
        r.is_some() ==> texts_of(r->Some_0@) == scope_paths_of(
            first_links_of(row_link_texts(readme_html@, ROW_SELECTOR@, LINK_SELECTOR@)),
        ),
{
    match link_texts_of_each_row(readme_html, ROW_SELECTOR, LINK_SELECTOR) {
        Some(rows) => Some(select_scope_links(&first_links(&rows))),
        None => None,
    }
}

} // verus!
