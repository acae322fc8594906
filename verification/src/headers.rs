//! Extra HTTP headers: the JSON object of `GROK_MODEL_EXTRA_HEADERS`, and the
//! insertion-ordered map that carries them into the model override.

use vstd::prelude::*;
use indexmap::IndexMap;

verus! {

/// A sequence of name/value pairs read as a map; a later pair wins.
pub open spec fn pairs_map(s: Seq<(Seq<char>, Seq<char>)>) -> Map<Seq<char>, Seq<char>>
    decreases s.len(),
{
    if s.len() == 0 {
        Map::empty()
    } else {
        pairs_map(s.drop_last()).insert(s.last().0, s.last().1)
    }
}

/// No name occurs twice among the pairs.
pub open spec fn keys_distinct(s: Seq<(Seq<char>, Seq<char>)>) -> bool {
    forall|i: int, j: int| 0 <= i < j < s.len() ==> s[i].0 != s[j].0
}

/// What `serde_json::from_str::<HashMap<String, String>>` makes of `text`:
/// the map of a JSON object whose values are all strings, or `None`.
pub uninterp spec fn json_string_map(text: Seq<char>) -> Option<Map<Seq<char>, Seq<char>>>;

/// `serde_json::from_str::<HashMap<String, String>>(text)`, its map handed out
/// as pairs. The contract states the map the pairs form and that no name is
/// repeated; the order of the pairs is that in which the `HashMap` is walked,
/// which each process seeds anew, so no clause states it.
#[verifier::external_body]
fn parse_json_string_map(text: &str) -> (r: Option<Vec<(String, String)>>)
    ensures
        r is Some <==> json_string_map(text@) is Some,
        r matches Some(pairs) ==> keys_distinct(pairs.deep_view()) && pairs_map(pairs.deep_view())
            == json_string_map(text@).unwrap(),
{
    match serde_json::from_str::<std::collections::HashMap<String, String>>(text) {
        Ok(m) => Some(m.into_iter().collect()),
        Err(_) => None,
    }
}

/// Pairs form the empty map exactly when there are none.
pub proof fn lemma_pairs_map_empty(s: Seq<(Seq<char>, Seq<char>)>)
    ensures
        (pairs_map(s) == Map::<Seq<char>, Seq<char>>::empty()) <==> s.len() == 0,
{
    if s.len() > 0 {
        assert(pairs_map(s).contains_key(s.last().0));
    }
}

/// Keeps a parsed header list only when it holds at least one header.
pub fn nonempty_headers(parsed: Option<Vec<(String, String)>>) -> (r: Option<Vec<(String, String)>>)
    ensures
        r == (match parsed {
            Some(p) => if p.len() == 0 {
                None
            } else {
                Some(p)
            },
            None => None,
        }),
{
    match parsed {
        Some(p) => {
            if p.len() == 0 {
                None
            } else {
                Some(p)
            }
        },
        None => None,
    }
}

/// The headers of a JSON object of strings: `None` when `text` is no such
/// object or the object is empty.
pub fn parse_extra_headers(text: &str) -> (r: Option<Vec<(String, String)>>)
    ensures
        match json_string_map(text@) {
            Some(m) => if m == Map::<Seq<char>, Seq<char>>::empty() {
                r is None
            } else {
                r matches Some(p) && keys_distinct(p.deep_view()) && pairs_map(p.deep_view()) == m
            },
            None => r is None,
        },
{
    let parsed = parse_json_string_map(text);
    proof {
        if parsed is Some {
            lemma_pairs_map_empty(parsed.unwrap().deep_view());
        }
    }
    nonempty_headers(parsed)
}

/// `indexmap::IndexMap`, an insertion-ordered hash map, held opaque: what it
/// holds is read through `header_entries`.
#[verifier::external_type_specification]
#[verifier::external_body]
#[verifier::reject_recursive_types(K)]
#[verifier::reject_recursive_types(V)]
#[verifier::reject_recursive_types(S)]
pub struct ExIndexMap<K, V, S>(IndexMap<K, V, S>);

/// The entries of an `IndexMap<String, String>`, in their order.
pub uninterp spec fn header_entries(m: IndexMap<String, String>) -> Seq<(Seq<char>, Seq<char>)>;

/// `IndexMap::insert` on entries: an existing name keeps its place and takes
/// the new value; a new name goes last.
pub open spec fn entries_insert(
    s: Seq<(Seq<char>, Seq<char>)>,
    k: Seq<char>,
    v: Seq<char>,
) -> Seq<(Seq<char>, Seq<char>)> {
    if exists|i: int| 0 <= i < s.len() && s[i].0 == k {
        let i = choose|i: int| 0 <= i < s.len() && s[i].0 == k;
        s.update(i, (k, v))
    } else {
        s.push((k, v))
    }
}

/// The entries that inserting `s` pair by pair, in order, into an empty map gives.
pub open spec fn entries_insert_all(s: Seq<(Seq<char>, Seq<char>)>) -> Seq<(Seq<char>, Seq<char>)>
    decreases s.len(),
{
    if s.len() == 0 {
        Seq::empty()
    } else {
        entries_insert(entries_insert_all(s.drop_last()), s.last().0, s.last().1)
    }
}

/// `IndexMap::new`: a map with no entries.
#[verifier::external_body]
fn index_map_new() -> (m: IndexMap<String, String>)
    ensures
        header_entries(m) == Seq::<(Seq<char>, Seq<char>)>::empty(),
{
    IndexMap::new()
}

/// `IndexMap::insert`: as its documentation states, an equal key keeps its
/// place and takes the new value; otherwise the pair is appended.
#[verifier::external_body]
fn index_map_insert(m: &mut IndexMap<String, String>, key: String, value: String)
    ensures
        header_entries(*final(m)) == entries_insert(header_entries(*old(m)), key@, value@),
{
    m.insert(key, value);
}

/// With distinct names, inserting the pairs one by one keeps them all, in order.
pub proof fn lemma_insert_all_distinct(s: Seq<(Seq<char>, Seq<char>)>)
    requires
        keys_distinct(s),
    ensures
        entries_insert_all(s) == s,
    decreases s.len(),
{
    if s.len() > 0 {
        let p = s.drop_last();
        assert(keys_distinct(p));
        lemma_insert_all_distinct(p);
        assert(!(exists|i: int| 0 <= i < p.len() && p[i].0 == s.last().0));
        assert(p.push(s.last()) =~= s);
    }
}

/// With distinct names, inserting the pairs one by one keeps them all, in
/// order (stated as an implication, for any pairs).
pub proof fn lemma_insert_all_distinct_if(s: Seq<(Seq<char>, Seq<char>)>)
    ensures
        keys_distinct(s) ==> entries_insert_all(s) == s,
{
    if keys_distinct(s) {
        lemma_insert_all_distinct(s);
    }
}

/// An empty header map.
pub fn empty_header_map() -> (m: IndexMap<String, String>)
    ensures
        header_entries(m) == Seq::<(Seq<char>, Seq<char>)>::empty(),
{
    index_map_new()
}

/// Collects the pairs, in order, into an insertion-ordered map.
pub fn header_map_from_pairs(pairs: &Vec<(String, String)>) -> (m: IndexMap<String, String>)
    ensures
        header_entries(m) == entries_insert_all(pairs.deep_view()),
        keys_distinct(pairs.deep_view()) ==> header_entries(m) == pairs.deep_view(),
{
    let mut m = index_map_new();
    let n = pairs.len();
    let mut i: usize = 0;
    assert(pairs.deep_view().take(0) =~= Seq::<(Seq<char>, Seq<char>)>::empty());
    while i < n
        invariant
            n == pairs.len(),
            i <= n,
            header_entries(m) == entries_insert_all(pairs.deep_view().take(i as int)),
        decreases n - i,
    {
        let k = pairs[i].0.clone();
        let v = pairs[i].1.clone();
        assert(pairs.deep_view().take(i + 1).drop_last() =~= pairs.deep_view().take(i as int));
        assert(pairs.deep_view()[i as int] == (k@, v@));
        index_map_insert(&mut m, k, v);
        i = i + 1;
    }
    assert(pairs.deep_view().take(n as int) =~= pairs.deep_view());
    proof {
        if keys_distinct(pairs.deep_view()) {
            lemma_insert_all_distinct(pairs.deep_view());
        }
    }
    m
}

} // verus!
