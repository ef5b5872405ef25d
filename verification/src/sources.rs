//! The configured source list: an ordered list of distinct source URLs.
//! The surrounding layer owns the persisted file; this module decodes its
//! JSON text into the list and keeps additions distinct.

use vstd::prelude::*;

verus! {

/// Whether `ss` holds the URL `url`.
pub open spec fn contains_url(ss: Seq<Seq<char>>, url: Seq<char>) -> bool {
    exists|i: int| 0 <= i < ss.len() && ss[i] == url
}

/// Whether the URLs in `ss` are pairwise distinct.
pub open spec fn sources_distinct(ss: Seq<Seq<char>>) -> bool {
    forall|i: int, j: int| 0 <= i < j < ss.len() ==> ss[i] != ss[j]
}

/// What parsing source-list text yields: the URL list its JSON array
/// holds, or nothing when the text is not such a document.
pub uninterp spec fn source_list_of(s: Seq<char>) -> Option<Seq<Seq<char>>>;

/// Relies on serde_json::from_str for `Vec<String>`: parses a JSON array
/// of strings, failing on any other document; the result depends on the
/// text alone.
#[verifier::external_body]
fn parse_source_list(s: &str) -> (r: Option<Vec<String>>)
    ensures
        match r {
            Some(v) => source_list_of(s@) == Some(v.deep_view()),
            None => source_list_of(s@) is None,
        },
{
    serde_json::from_str::<Vec<String>>(s).ok()
}

/// Decodes persisted source-list text into the configured URL list. Text
/// that does not parse as a JSON array of strings yields the empty list —
/// an absent or unreadable list means no sources are configured, which is
/// not an error.
pub fn decode_sources(s: &str) -> (r: Vec<String>)
    ensures
        match source_list_of(s@) {
            Some(ss) => r.deep_view() == ss,
            None => r.deep_view() == Seq::<Seq<char>>::empty(),
        },
{
    match parse_source_list(s) {
        Some(v) => v,
        None => {
            let empty: Vec<String> = Vec::new();
            proof {
                assert(empty.deep_view() =~= Seq::<Seq<char>>::empty());
            }
            empty
        },
    }
}

/// Adds a source URL to the configured list, keeping its entries
/// distinct: a URL already present leaves the list unchanged, any other
/// is appended at the end.
pub fn add_source(sources: &mut Vec<String>, url: String)
    ensures
        contains_url(old(sources).deep_view(), url@) ==> final(sources)@ == old(sources)@,
        !contains_url(old(sources).deep_view(), url@) ==> final(sources)@ == old(
            sources,
        )@.push(url),
        sources_distinct(old(sources).deep_view()) ==> sources_distinct(
            final(sources).deep_view(),
        ),
{
    let n = sources.len();
    let mut i: usize = 0;
    while i < n
        invariant
            n == sources.len(),
            0 <= i <= n,
            *sources == *old(sources),
            forall|j: int| 0 <= j < i ==> sources.deep_view()[j] != url@,
        decreases n - i,
    {
        if sources[i] == url {
            proof {
                assert(old(sources).deep_view()[i as int] == url@);
                assert(contains_url(old(sources).deep_view(), url@));
            }
            return ;
        }
        i += 1;
    }
    let ghost before = sources.deep_view();
    sources.push(url);
    proof {
        assert(sources.deep_view() =~= before.push(url@));
        if sources_distinct(before) {
            assert forall|a: int, b: int|
                0 <= a < b < sources.deep_view().len() implies sources.deep_view()[a]
                != sources.deep_view()[b] by {
                if b == before.len() as int {
                    assert(sources.deep_view()[a] == before[a]);
                }
            }
        }
    }
}

} // verus!
