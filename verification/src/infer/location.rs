//! Where an operation's parameter goes: its `in`, such as `path` or `query`.
use vstd::prelude::*;

use crate::text::str_eq;
use crate::yaml::YamlNode;

verus! {

/// Whether a parameter is kept by a choice of location: every parameter
/// when no location is given, else those whose `in` is that text.
pub open spec fn spec_kept(param: YamlNode, place: Option<Seq<char>>) -> bool {
    match place {
        None => true,
        Some(p) => param.spec_str_at("in"@) == Some(p),
    }
}

/// The parameters kept by a choice of location, in order.
pub open spec fn spec_select(params: Seq<YamlNode>, place: Option<Seq<char>>) -> Seq<YamlNode>
    decreases params.len(),
{
    if params.len() == 0 {
        Seq::empty()
    } else {
        let rest = spec_select(params.drop_last(), place);
        if spec_kept(params.last(), place) {
            rest.push(params.last())
        } else {
            rest
        }
    }
}

/// With no location given, every parameter is kept.
pub proof fn lemma_select_all(params: Seq<YamlNode>)
    ensures
        spec_select(params, None) == params,
    decreases params.len(),
{
    if params.len() > 0 {
        lemma_select_all(params.drop_last());
        assert(params.drop_last().push(params.last()) =~= params);
    }
}

/// One more parameter looked at: the selection grows by it or not at all.
pub proof fn lemma_select_step(params: Seq<YamlNode>, place: Option<Seq<char>>, i: int)
    requires
        0 <= i < params.len(),
    ensures
        spec_select(params.take(i + 1), place) == if spec_kept(params[i], place) {
            spec_select(params.take(i), place).push(params[i])
        } else {
            spec_select(params.take(i), place)
        },
{
    assert(params.take(i + 1).drop_last() =~= params.take(i));
    assert(params.take(i + 1).last() == params[i]);
}

/// Whether `param` is kept by the location `place`.
pub fn kept(param: &YamlNode, place: Option<&str>) -> (b: bool)
    ensures
        b == spec_kept(*param, spec_place(place)),
{
    match place {
        None => true,
        Some(p) => match param.str_at("in") {
            Some(at) => str_eq(at, p),
            None => false,
        },
    }
}

/// The view of an optional location.
pub open spec fn spec_place(place: Option<&str>) -> Option<Seq<char>> {
    match place {
        Some(p) => Some(p@),
        None => None,
    }
}


/// Whether any parameter is kept by the location `place`.
pub fn any_kept(params: &Vec<YamlNode>, place: Option<&str>) -> (b: bool)
    ensures
        b == (spec_select(params@, spec_place(place)).len() > 0),
{
    let ghost pl = spec_place(place);
    let n = params.len();
    let mut i: usize = 0;
    assert(params@.take(0) =~= Seq::<YamlNode>::empty());
    while i < n
        invariant
            n == params@.len(),
            0 <= i <= n,
            pl == spec_place(place),
            spec_select(params@.take(i as int), pl).len() == 0,
        decreases n - i,
    {
        proof {
            lemma_select_step(params@, pl, i as int);
        }
        if kept(&params[i], place) {
            proof {
                lemma_select_prefix_len(params@, pl, i as int + 1);
            }
            return true;
        }
        i = i + 1;
    }
    assert(params@.take(n as int) =~= params@);
    false
}

/// The selection of a prefix is no longer than the whole selection.
pub proof fn lemma_select_prefix_len(params: Seq<YamlNode>, place: Option<Seq<char>>, k: int)
    requires
        0 <= k <= params.len(),
    ensures
        spec_select(params.take(k), place).len() <= spec_select(params, place).len(),
    decreases params.len() - k,
{
    if k < params.len() {
        lemma_select_prefix_len(params.drop_last(), place, k);
        assert(params.drop_last().take(k) =~= params.take(k));
    } else {
        assert(params.take(k) =~= params);
    }
}

} // verus!
