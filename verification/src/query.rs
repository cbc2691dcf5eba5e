//! Query strings: the `key=value` pairs of a request's query, and how each
//! kind of parameter contributes to them.
use vstd::prelude::*;

use crate::text::push_char;
use crate::text::push_str;
use crate::text::string_of;

verus! {

/// One `key=value` pair of a query string.
pub type QueryPair = (String, String);

/// The characters of a query pair.
pub open spec fn pair_view(p: QueryPair) -> (Seq<char>, Seq<char>) {
    (p.0@, p.1@)
}

/// The characters of a list of query pairs.
pub open spec fn pairs_view(pairs: Seq<QueryPair>) -> Seq<(Seq<char>, Seq<char>)> {
    pairs.map_values(|p: QueryPair| pair_view(p))
}

/// `key=value`.
pub open spec fn spec_pair_text(p: (Seq<char>, Seq<char>)) -> Seq<char> {
    p.0 + seq!['='] + p.1
}

/// The pairs as `k1=v1&k2=v2&...`.
pub open spec fn spec_join_pairs(pairs: Seq<(Seq<char>, Seq<char>)>) -> Seq<char>
    decreases pairs.len(),
{
    if pairs.len() == 0 {
        Seq::empty()
    } else if pairs.len() == 1 {
        spec_pair_text(pairs[0])
    } else {
        spec_join_pairs(pairs.drop_last()) + seq!['&'] + spec_pair_text(pairs.last())
    }
}

/// A whole query string: `?` then the joined pairs.
pub open spec fn spec_query_string(pairs: Seq<(Seq<char>, Seq<char>)>) -> Seq<char> {
    seq!['?'] + spec_join_pairs(pairs)
}

/// A set of query parameters that renders itself as a query string.
pub trait QueryString {
    /// The pairs that `as_query_kv` returns. Types that do not state them
    /// leave them unspecified.
    closed spec fn spec_kv_pairs(&self) -> Seq<(Seq<char>, Seq<char>)> {
        arbitrary()
    }

    fn as_query_kv(&self) -> (res: Vec<QueryPair>)
        ensures
            pairs_view(res@) == self.spec_kv_pairs(),
    ;

    fn as_query(&self) -> (res: String)
        ensures
            res@ == spec_query_string(self.spec_kv_pairs()),
    {
        let pairs = self.as_query_kv();
        let mut joined = String::new();
        let n = pairs.len();
        let ghost view = pairs_view(pairs@);
        let mut i: usize = 0;
        while i < n
            invariant
                n == pairs@.len(),
                view == pairs_view(pairs@),
                0 <= i <= n,
                joined@ == spec_join_pairs(view.take(i as int)),
            decreases n - i,
        {
            let ghost before = joined@;
            if i != 0 {
                push_char(&mut joined, '&');
            }
            push_str(&mut joined, pairs[i].0.as_str());
            push_char(&mut joined, '=');
            push_str(&mut joined, pairs[i].1.as_str());
            assert(view.take(i + 1).drop_last() =~= view.take(i as int));
            assert(view.take(i + 1).last() == view[i as int]);
            if i == 0 {
                assert(joined@ =~= spec_pair_text(view[0]));
            } else {
                assert(joined@ =~= before + seq!['&'] + spec_pair_text(view[i as int]));
            }
            i = i + 1;
        }
        assert(view.take(n as int) =~= view);
        let mut res = String::new();
        push_char(&mut res, '?');
        push_str(&mut res, joined.as_str());
        assert(res@ =~= spec_query_string(view));
        res
    }
}

/// A value that contributes pairs under a given key to a query string.
pub trait QueryParameter {
    /// The pairs that `as_query_kv` returns for `key`. Types that do not
    /// state them leave them unspecified.
    closed spec fn spec_param_pairs(&self, key: Seq<char>) -> Seq<(Seq<char>, Seq<char>)> {
        arbitrary()
    }

    fn as_query_kv(&self, key: &str) -> (res: Vec<QueryPair>)
        ensures
            pairs_view(res@) == self.spec_param_pairs(key@),
    ;
}

/// `(key, value)`, as a one-element list.
pub fn single_pair(key: &str, value: String) -> (res: Vec<QueryPair>)
    ensures
        pairs_view(res@) == seq![(key@, value@)],
{
    let mut v: Vec<QueryPair> = Vec::new();
    v.push((string_of(key), value));
    assert(pairs_view(v@) =~= seq![(key@, value@)]);
    v
}

impl<T: QueryString> QueryString for Option<T> {
    open spec fn spec_kv_pairs(&self) -> Seq<(Seq<char>, Seq<char>)> {
        match self {
            Some(thing) => thing.spec_kv_pairs(),
            None => Seq::empty(),
        }
    }

    fn as_query_kv(&self) -> (res: Vec<QueryPair>) {
        match self {
            Some(thing) => thing.as_query_kv(),
            None => {
                let v: Vec<QueryPair> = Vec::new();
                assert(pairs_view(v@) =~= Seq::empty());
                v
            },
        }
    }
}

impl<T: QueryParameter> QueryParameter for Option<T> {
    /// An absent value still names its key, with an empty value.
    open spec fn spec_param_pairs(&self, key: Seq<char>) -> Seq<(Seq<char>, Seq<char>)> {
        match self {
            Some(thing) => thing.spec_param_pairs(key),
            None => seq![(key, Seq::empty())],
        }
    }

    fn as_query_kv(&self, key: &str) -> (res: Vec<QueryPair>) {
        match self {
            Some(thing) => thing.as_query_kv(key),
            None => single_pair(key, String::new()),
        }
    }
}

/// The pairs of each item in turn.
pub open spec fn spec_items_pairs<T: QueryParameter>(items: Seq<T>, key: Seq<char>) -> Seq<
    (Seq<char>, Seq<char>),
>
    decreases items.len(),
{
    if items.len() == 0 {
        Seq::empty()
    } else {
        spec_items_pairs(items.drop_last(), key) + items.last().spec_param_pairs(key)
    }
}

/// The characters of joined lists of pairs are the joined characters of
/// each list.
pub proof fn lemma_pairs_view_concat(a: Seq<QueryPair>, b: Seq<QueryPair>)
    ensures
        pairs_view(a + b) == pairs_view(a) + pairs_view(b),
{
    assert(pairs_view(a + b) =~= pairs_view(a) + pairs_view(b));
}

impl<T: QueryParameter> QueryParameter for Vec<T> {
    /// Every item contributes its pairs under the same key, in order.
    open spec fn spec_param_pairs(&self, key: Seq<char>) -> Seq<(Seq<char>, Seq<char>)> {
        spec_items_pairs(self@, key)
    }

    fn as_query_kv(&self, key: &str) -> (res: Vec<QueryPair>) {
        let mut query_pairs: Vec<QueryPair> = Vec::new();
        let n = self.len();
        let mut i: usize = 0;
        assert(pairs_view(query_pairs@) =~= spec_items_pairs(self@.take(0), key@));
        while i < n
            invariant
                n == self@.len(),
                0 <= i <= n,
                pairs_view(query_pairs@) == spec_items_pairs(self@.take(i as int), key@),
            decreases n - i,
        {
            let mut item_pairs = self[i].as_query_kv(key);
            proof {
                lemma_pairs_view_concat(query_pairs@, item_pairs@);
                assert(self@.take(i + 1).drop_last() =~= self@.take(i as int));
            }
            query_pairs.append(&mut item_pairs);
            i = i + 1;
        }
        assert(self@.take(n as int) =~= self@);
        query_pairs
    }
}

/// The pairs of a list of parameters put after another list are the pairs
/// of the first list followed by those of the second: a query built from
/// parts is the parts' queries in turn.
pub proof fn lemma_items_pairs_concat<T: QueryParameter>(a: Seq<T>, b: Seq<T>, key: Seq<char>)
    ensures
        spec_items_pairs(a + b, key) == spec_items_pairs(a, key) + spec_items_pairs(b, key),
    decreases b.len(),
{
    if b.len() == 0 {
        assert(a + b =~= a);
        assert(spec_items_pairs(a, key) + spec_items_pairs(b, key) =~= spec_items_pairs(a, key));
    } else {
        lemma_items_pairs_concat(a, b.drop_last(), key);
        assert((a + b).drop_last() =~= a + b.drop_last());
        assert((a + b).last() == b.last());
        assert(spec_items_pairs(a + b, key) =~= spec_items_pairs(a, key) + spec_items_pairs(b, key));
    }
}

} // verus!
