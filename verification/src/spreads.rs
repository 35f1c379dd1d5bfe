//! Which of the requested pages may be marked as spreads: only a page with a
//! numeric neighbor in the same request is renamed; the others draw a warning.

use vstd::prelude::*;
use crate::names::{
    page_image_name, spread_image_name, page_file_name, spread_file_name, pair_views,
};

verus! {

/// Page x has a numeric neighbor in s: x + 1 or x - 1 occurs in s.
/// Neighbors outside the u8 range do not exist.
pub open spec fn has_neighbor(s: Seq<u8>, x: u8) -> bool {
    (x < 255 && s.contains((x + 1) as u8)) || (x > 0 && s.contains((x - 1) as u8))
}

/// Whether a page number occurs in the list.
fn contains_page(s: &Vec<u8>, x: u8) -> (b: bool)
    ensures
        b == s@.contains(x),
{
    let mut i: usize = 0;
    while i < s.len()
        invariant
            0 <= i <= s@.len(),
            forall|j: int| 0 <= j < i ==> s@[j] != x,
        decreases s@.len() - i,
    {
        if s[i] == x {
            return true;
        }
        i = i + 1;
    }
    false
}

/// Whether page x has a numeric neighbor among the requested pages.
pub fn page_has_neighbor(pages: &Vec<u8>, x: u8) -> (b: bool)
    ensures
        b == has_neighbor(pages@, x),
{
    if x < 255 && contains_page(pages, x + 1) {
        true
    } else {
        x > 0 && contains_page(pages, x - 1)
    }
}

/// Splits the requested pages into those kept (a neighbor is present) and
/// those rejected (no neighbor; a warning is due), both in request order.
pub fn partition_spreads(pages: &Vec<u8>) -> (r: (Vec<u8>, Vec<u8>))
    ensures
        r.0@ == pages@.filter(|x: u8| has_neighbor(pages@, x)),
        r.1@ == pages@.filter(|x: u8| !has_neighbor(pages@, x)),
{
    let mut kept: Vec<u8> = Vec::new();
    let mut rejected: Vec<u8> = Vec::new();
    let mut i: usize = 0;
    while i < pages.len()
        invariant
            0 <= i <= pages@.len(),
            kept@ == pages@.take(i as int).filter(|x: u8| has_neighbor(pages@, x)),
            rejected@ == pages@.take(i as int).filter(|x: u8| !has_neighbor(pages@, x)),
        decreases pages@.len() - i,
    {
        let x = pages[i];
        if page_has_neighbor(pages, x) {
            kept.push(x);
        } else {
            rejected.push(x);
        }
        proof {
            assert(pages@.take(i + 1) =~= pages@.take(i as int).push(x));
            pages@.take(i as int).lemma_filter_push(x, |x: u8| has_neighbor(pages@, x));
            pages@.take(i as int).lemma_filter_push(x, |x: u8| !has_neighbor(pages@, x));
        }
        i = i + 1;
    }
    proof {
        assert(pages@.take(pages@.len() as int) =~= pages@);
    }
    (kept, rejected)
}

/// The renames that mark pages as spreads, in order: "<n>.png" to "<n>s.png"
/// for each page n of the list.
pub open spec fn spread_pairs(pages: Seq<u8>) -> Seq<(Seq<char>, Seq<char>)> {
    pages.map_values(|n: u8| (page_image_name(n as nat), spread_image_name(n as nat)))
}

/// Computes the (from, to) renames that mark the given pages as spreads.
pub fn spread_renames(pages: &Vec<u8>) -> (r: Vec<(String, String)>)
    ensures
        pair_views(r@) == spread_pairs(pages@),
{
    let mut out: Vec<(String, String)> = Vec::new();
    let mut i: usize = 0;
    while i < pages.len()
        invariant
            0 <= i <= pages@.len(),
            pair_views(out@) == spread_pairs(pages@.take(i as int)),
        decreases pages@.len() - i,
    {
        let n = pages[i];
        let from = page_file_name(n);
        let to = spread_file_name(n);
        let ghost prev = out@;
        let ghost pr = (from, to);
        out.push((from, to));
        proof {
            assert(pages@.take(i + 1) =~= pages@.take(i as int).push(n));
            prev.lemma_push_map_commute(|p: (String, String)| (p.0@, p.1@), pr);
            pages@.take(i as int).lemma_push_map_commute(
                |n: u8| (page_image_name(n as nat), spread_image_name(n as nat)),
                n,
            );
            assert(pair_views(out@) =~~= spread_pairs(pages@.take(i + 1)));
        }
        i = i + 1;
    }
    proof {
        assert(pages@.take(pages@.len() as int) =~= pages@);
    }
    out
}

} // verus!
