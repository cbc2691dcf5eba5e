//! The value types that API parameters may have, and how each of them is
//! written into a query string.
use vstd::prelude::*;

use crate::query::QueryPair;
use crate::query::QueryParameter;
use crate::query::single_pair;
use crate::query::pairs_view;
use crate::text::i64_to_decimal;
use crate::text::spec_int_decimal;

verus! {

/// A parameter the schema requires.
pub type Required<T> = T;

/// A parameter the schema leaves optional.
pub type Optional<T> = Option<T>;

/// The types that can stand as parameters of an API.
pub(crate) trait TapiocaDatatype: QueryParameter {}

impl TapiocaDatatype for bool {}

impl QueryParameter for bool {
    /// A set flag is its bare key; a cleared flag is left out.
    open spec fn spec_param_pairs(&self, key: Seq<char>) -> Seq<(Seq<char>, Seq<char>)> {
        if *self {
            seq![(key, Seq::empty())]
        } else {
            Seq::empty()
        }
    }

    fn as_query_kv(&self, key: &str) -> (res: Vec<QueryPair>) {
        if *self {
            single_pair(key, String::new())
        } else {
            let v: Vec<QueryPair> = Vec::new();
            assert(pairs_view(v@) =~= Seq::empty());
            v
        }
    }
}

impl TapiocaDatatype for i32 {}

impl QueryParameter for i32 {
    /// The key with the value's decimal numeral.
    open spec fn spec_param_pairs(&self, key: Seq<char>) -> Seq<(Seq<char>, Seq<char>)> {
        seq![(key, spec_int_decimal(*self as int))]
    }

    fn as_query_kv(&self, key: &str) -> (res: Vec<QueryPair>) {
        single_pair(key, i64_to_decimal(*self as i64))
    }
}

impl TapiocaDatatype for i64 {}

impl QueryParameter for i64 {
    /// The key with the value's decimal numeral.
    open spec fn spec_param_pairs(&self, key: Seq<char>) -> Seq<(Seq<char>, Seq<char>)> {
        seq![(key, spec_int_decimal(*self as int))]
    }

    fn as_query_kv(&self, key: &str) -> (res: Vec<QueryPair>) {
        single_pair(key, i64_to_decimal(*self))
    }
}

impl TapiocaDatatype for String {}

impl QueryParameter for String {
    /// The key with the string itself as its value.
    open spec fn spec_param_pairs(&self, key: Seq<char>) -> Seq<(Seq<char>, Seq<char>)> {
        seq![(key, self@)]
    }

    fn as_query_kv(&self, key: &str) -> (res: Vec<QueryPair>) {
        single_pair(key, self.clone())
    }
}

} // verus!
