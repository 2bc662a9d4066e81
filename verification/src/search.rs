//! Search suggestions: building the suggestion service's request address
//! and reducing its reply to at most five suggestions. The network call
//! itself happens outside; everything decided before and after it is
//! here.

use vstd::prelude::*;
use vstd::string::StrSliceExecFns;
use vstd::string::StringExecFns;
use crate::encoding::{encode_component, url_encoded};

verus! {

/// A Unicode whitespace character, as `char::is_whitespace` counts them.
pub open spec fn is_space_char(c: char) -> bool {
    let u = c as u32;
    u == 0x09 || u == 0x0A || u == 0x0B || u == 0x0C || u == 0x0D || u == 0x20 || u == 0x85 || u
        == 0xA0 || u == 0x1680 || (0x2000 <= u <= 0x200A) || u == 0x2028 || u == 0x2029 || u
        == 0x202F || u == 0x205F || u == 0x3000
}

/// A query of nothing but whitespace asks for nothing.
pub open spec fn is_blank(q: Seq<char>) -> bool {
    forall|i: int| 0 <= i < q.len() ==> is_space_char(q[i])
}

fn char_is_space(c: char) -> (r: bool)
    ensures
        r == is_space_char(c),
{
    let u = c as u32;
    u == 0x09 || u == 0x0A || u == 0x0B || u == 0x0C || u == 0x0D || u == 0x20 || u == 0x85 || u
        == 0xA0 || u == 0x1680 || (0x2000 <= u && u <= 0x200A) || u == 0x2028 || u == 0x2029 || u
        == 0x202F || u == 0x205F || u == 0x3000
}

/// Whether the query consists entirely of whitespace.
pub fn query_is_blank(q: &str) -> (r: bool)
    ensures
        r == is_blank(q@),
{
    let n = q.unicode_len();
    let mut i: usize = 0;
    while i < n
        invariant
            i <= n,
            n == q@.len(),
            forall|j: int| 0 <= j < i ==> is_space_char(q@[j]),
        decreases n - i,
    {
        if !char_is_space(q.get_char(i)) {
            return false;
        }
        i += 1;
    }
    true
}

pub open spec fn suggest_url_spec(q: Seq<char>) -> Seq<char> {
    "https://suggestqueries.google.com/complete/search?client=firefox&q="@ + url_encoded(q)
}

/// The request address for the suggestion service, or `None` for a blank
/// query, which never goes to the network and yields no suggestions.
pub fn suggest_query_url(query: &str) -> (r: Option<String>)
    ensures
        r is None <==> is_blank(query@),
        r matches Some(u) ==> u@ == suggest_url_spec(query@),
{
    if query_is_blank(query) {
        None
    } else {
        let mut s = String::from_str(
            "https://suggestqueries.google.com/complete/search?client=firefox&q=",
        );
        let encoded = encode_component(query);
        s.append(encoded.as_str());
        Some(s)
    }
}

/// The suggestion entries read from the service's reply text: the reply
/// parses as `[query, [entry, ...], ...]`, and each entry is a string or
/// not. `None` names a reply that is not JSON at all; a parsed reply
/// without such an entry array has no entries.
pub uninterp spec fn suggest_candidates(text: Seq<char>) -> Option<Seq<Option<Seq<char>>>>;

/// Relies on serde_json::from_str and serde_json::Value's get, as_array
/// and as_str: the parse result depends on the reply text alone.
#[verifier::external_body]
fn parse_suggest_candidates(text: &str) -> (r: Result<Vec<Option<String>>, String>)
    ensures
        r is Ok <==> suggest_candidates(text@) is Some,
        r matches Ok(v) ==> suggest_candidates(text@) == Some(v.deep_view()),
{
    let value: serde_json::Value = match serde_json::from_str(text) {
        Ok(v) => v,
        Err(e) => return Err(e.to_string()),
    };
    let entries = match value.get(1).and_then(|v| v.as_array()) {
        Some(entries) => entries,
        None => return Ok(Vec::new()),
    };
    Ok(entries.iter().map(|v| v.as_str().map(|s| s.to_string())).collect())
}

/// The first `cap` present entries of `items`, in order.
pub open spec fn picked_spec(items: Seq<Option<Seq<char>>>, cap: nat) -> Seq<Seq<char>>
    decreases items.len(),
{
    if items.len() == 0 || cap == 0 {
        Seq::empty()
    } else {
        match items[0] {
            Option::None => picked_spec(items.drop_first(), cap),
            Option::Some(s) => seq![s] + picked_spec(items.drop_first(), (cap - 1) as nat),
        }
    }
}

/// Keeps the first `cap` present entries, in order.
pub fn pick_suggestions(items: &Vec<Option<String>>, cap: usize) -> (r: Vec<String>)
    ensures
        r.deep_view() == picked_spec(items.deep_view(), cap as nat),
{
    let mut out: Vec<String> = Vec::new();
    let mut i: usize = 0;
    proof {
        assert(items.deep_view().skip(0) =~= items.deep_view());
        assert(out.deep_view() =~= Seq::<Seq<char>>::empty());
        assert(Seq::<Seq<char>>::empty() + picked_spec(items.deep_view(), cap as nat)
            =~= picked_spec(items.deep_view(), cap as nat));
    }
    while i < items.len() && out.len() < cap
        invariant
            i <= items@.len(),
            out@.len() <= cap,
            picked_spec(items.deep_view(), cap as nat) == out.deep_view() + picked_spec(
                items.deep_view().skip(i as int),
                (cap - out@.len()) as nat,
            ),
        decreases items@.len() - i,
    {
        proof {
            let dv = items.deep_view();
            assert(dv.len() == items@.len());
            assert(dv.skip(i as int)[0] == dv[i as int]);
            assert(dv.skip(i as int).drop_first() =~= dv.skip(i as int + 1));
        }
        let ghost pre_out = out.deep_view();
        let ghost pre_cap = (cap - out@.len()) as nat;
        match &items[i] {
            Some(s) => {
                let ghost sv = s@;
                out.push(s.clone());
                proof {
                    assert(out.deep_view() =~= pre_out.push(sv));
                    let rest = picked_spec(
                        items.deep_view().skip(i as int + 1),
                        (pre_cap - 1) as nat,
                    );
                    assert(pre_out + (seq![sv] + rest) =~= pre_out.push(sv) + rest);
                }
            },
            None => {},
        }
        i += 1;
    }
    proof {
        let dv = items.deep_view();
        if i == dv.len() {
            assert(dv.skip(i as int) =~= Seq::<Option<Seq<char>>>::empty());
        }
        assert(picked_spec(dv.skip(i as int), (cap - out@.len()) as nat) =~= Seq::<Seq<
            char,
        >>::empty());
        assert(out.deep_view() + Seq::<Seq<char>>::empty() =~= out.deep_view());
    }
    out
}

/// The suggestions owed for one reply text: the first five present
/// entries. A reply that is not JSON is an error; any parsed reply
/// yields the entries it carries.
pub fn suggestions_from_response(text: &str) -> (r: Result<Vec<String>, String>)
    ensures
        r is Ok <==> suggest_candidates(text@) is Some,
        r matches Ok(v) ==> (suggest_candidates(text@) matches Some(c) && v.deep_view()
            == picked_spec(c, 5)),
{
    match parse_suggest_candidates(text) {
        Ok(items) => Ok(pick_suggestions(&items, 5)),
        Err(e) => Err(e),
    }
}

} // verus!
