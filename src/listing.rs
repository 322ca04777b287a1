use vstd::prelude::*;
use crate::text::{contains, str_contains};

verus! {

/// Seconds for which a saved list of a user's records is shown without asking again.
pub const CACHE_TIMEOUT: i64 = 2 * 60 * 60;

/// A list saved at `timestamp` (seconds since the Unix epoch) is still fresh at `now`.
pub fn cache_is_fresh(now: i64, timestamp: i64) -> (r: bool)
    ensures
        r == (now - timestamp < CACHE_TIMEOUT),
{
    (now as i128) - (timestamp as i128) < (CACHE_TIMEOUT as i128)
}

/// What `str::to_lowercase` makes of a text.
pub uninterp spec fn lower_of(s: Seq<char>) -> Seq<char>;

/// Relies on `str::to_lowercase`: the result depends on the characters alone, and the
/// empty text stays empty.
#[verifier::external_body]
fn lowercase(s: &str) -> (r: String)
    ensures
        r@ == lower_of(s@),
        s@.len() == 0 ==> r@.len() == 0,
{
    s.to_lowercase()
}

/// Whether the lowercased title contains the lowercased query; both are given
/// lowercased already.
pub fn folded_title_matches(query_folded: &str, title_folded: &str) -> (r: bool)
    ensures
        r == contains(title_folded@, query_folded@),
{
    str_contains(title_folded, query_folded)
}

/// Whether a record titled `title` is kept by the search `query`: the lowercased title
/// contains the lowercased query. An empty query keeps every title.
pub fn title_matches(query: &str, title: &str) -> (r: bool)
    ensures
        r == contains(lower_of(title@), lower_of(query@)),
{
    let q = lowercase(query);
    let t = lowercase(title);
    folded_title_matches(q.as_str(), t.as_str())
}

/// The positions of the titles that the search `query` keeps, in order.
pub fn filter_titles(query: &str, titles: &Vec<String>) -> (r: Vec<usize>)
    ensures
        forall|a: int, b: int| 0 <= a < b < r.len() ==> r[a] < r[b],
        forall|a: int|
            0 <= a < r.len() ==> r[a] < titles.len() && contains(
                lower_of(titles@[r[a] as int]@),
                lower_of(query@),
            ),
        forall|k: int|
            0 <= k < titles.len() && contains(lower_of(titles@[k]@), lower_of(query@)) ==> r@.contains(
                k as usize,
            ),
{
    let q = lowercase(query);
    let mut out: Vec<usize> = Vec::new();
    let mut k: usize = 0;
    while k < titles.len()
        invariant
            q@ == lower_of(query@),
            k <= titles.len(),
            forall|a: int, b: int| 0 <= a < b < out.len() ==> out[a] < out[b],
            forall|a: int|
                0 <= a < out.len() ==> out[a] < k && contains(
                    lower_of(titles@[out[a] as int]@),
                    lower_of(query@),
                ),
            forall|j: int|
                0 <= j < k && contains(lower_of(titles@[j]@), lower_of(query@)) ==> out@.contains(
                    j as usize,
                ),
        decreases titles.len() - k,
    {
        let t = lowercase(titles[k].as_str());
        if folded_title_matches(q.as_str(), t.as_str()) {
            let ghost before = out@;
            out.push(k);
            assert forall|j: int|
                0 <= j < k + 1 && contains(lower_of(titles@[j]@), lower_of(query@)) implies out@.contains(
                j as usize,
            ) by {
                if j < k {
                    let w = choose|w: int| 0 <= w < before.len() && before[w] == j as usize;
                    assert(out@[w] == j as usize);
                } else {
                    assert(out@[out.len() - 1] == k);
                }
            }
        }
        k = k + 1;
    }
    out
}

} // verus!
