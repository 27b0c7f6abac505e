//! Finding the results pages of the tournaments on a listing page.

use crate::dom::{all_named, attr_values, with_text, Page};
use crate::text::texts;
use select::document::Document;
use vstd::prelude::*;

verus! {

/// The address made of `origin` and a path on it.
pub open spec fn on_origin(origin: Seq<char>) -> spec_fn(Seq<char>) -> Seq<char> {
    |path: Seq<char>| origin + path
}

/// The anchors of the page whose text reads `Results`.
pub open spec fn result_anchors(doc: Document) -> Seq<usize> {
    with_text(doc, all_named(doc, "a"@), "Results"@)
}

/// The addresses of the results pages that the listing links to: the targets
/// of its result anchors, each put on `origin`.
pub open spec fn tournament_links(doc: Document, origin: Seq<char>) -> Seq<Seq<char>> {
    attr_values(doc, result_anchors(doc), "href"@).map_values(on_origin(origin))
}

/// The anchors of the page whose text reads `Results`, in document order.
pub fn find_result_anchors(listing: &Page) -> (res: Vec<usize>)
    ensures
        res@ == result_anchors(listing@),
{
    let anchors = listing.elements_named("a");
    listing.with_text(&anchors, "Results")
}

/// The addresses of the tournaments' results pages that `listing` links to,
/// in document order: for each anchor whose text reads `Results` and that
/// has a target, `origin` followed by the target.
pub fn find_tournament_links(listing: &Page, origin: &str) -> (res: Vec<String>)
    ensures
        texts(res@) == tournament_links(listing@, origin@),
{
    let anchors = find_result_anchors(listing);
    let targets = listing.attr_values(&anchors, "href");
    let mut out: Vec<String> = Vec::new();
    let mut i: usize = 0;
    while i < targets.len()
        invariant
            i <= targets.len(),
            texts(out@) == texts(targets@).take(i as int).map_values(on_origin(origin@)),
        decreases targets.len() - i,
    {
        let mut link = origin.to_owned();
        link.append(targets[i].as_str());
        let ghost before = out@;
        out.push(link);
        proof {
            assert(texts(out@) =~= texts(before).push(origin@ + targets@[i as int]@));
            assert(texts(targets@).take(i + 1).map_values(on_origin(origin@)) =~= texts(
                targets@,
            ).take(i as int).map_values(on_origin(origin@)).push(origin@ + targets@[i as int]@));
        }
        i += 1;
    }
    proof {
        assert(texts(targets@).take(i as int) =~= texts(targets@));
    }
    out
}

} // verus!
