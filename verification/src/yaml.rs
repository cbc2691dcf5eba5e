//! A YAML document as the schema inference reads it: scalars, sequences
//! and maps whose entries keep their order.
use vstd::prelude::*;

verus! {

/// A YAML node.
pub enum YamlNode {
    Real(String),
    Integer(i64),
    String(String),
    Boolean(bool),
    Array(Vec<YamlNode>),
    /// A map, its entries in document order.
    Hash(Vec<(YamlNode, YamlNode)>),
    Alias(usize),
    Null,
    /// What indexing gives where there is nothing.
    BadValue,
}

/// The entry of a map whose key is the string `key`: the first such entry.
pub open spec fn spec_entry_index(entries: Seq<(YamlNode, YamlNode)>, key: Seq<char>) -> Option<int>
    decreases entries.len(),
{
    if entries.len() == 0 {
        None
    } else {
        match spec_entry_index(entries.drop_last(), key) {
            Some(i) => Some(i),
            None => if entries.last().0 matches YamlNode::String(s) && s@ == key {
                Some(entries.len() - 1)
            } else {
                None
            },
        }
    }
}

pub proof fn lemma_entry_index_bounds(entries: Seq<(YamlNode, YamlNode)>, key: Seq<char>)
    ensures
        spec_entry_index(entries, key) matches Some(i) ==> 0 <= i < entries.len(),
    decreases entries.len(),
{
    if entries.len() > 0 {
        lemma_entry_index_bounds(entries.drop_last(), key);
    }
}

/// The node a found reference points at.
pub open spec fn spec_deref(r: Option<&YamlNode>) -> Option<YamlNode> {
    match r {
        Some(v) => Some(*v),
        None => None,
    }
}

impl YamlNode {
    /// `self[key]`: the value under the string key `key` of a map, if any.
    pub open spec fn spec_get(&self, key: Seq<char>) -> Option<YamlNode> {
        match self {
            YamlNode::Hash(entries) => match spec_entry_index(entries@, key) {
                Some(i) => Some(entries@[i].1),
                None => None,
            },
            _ => None,
        }
    }

    /// `self[i]`: the item `i` of a sequence, if any.
    pub open spec fn spec_item(&self, i: int) -> Option<YamlNode> {
        match self {
            YamlNode::Array(items) => if 0 <= i < items@.len() {
                Some(items@[i])
            } else {
                None
            },
            _ => None,
        }
    }

    /// The text of a string node.
    pub open spec fn spec_as_str(&self) -> Option<Seq<char>> {
        match self {
            YamlNode::String(s) => Some(s@),
            _ => None,
        }
    }

    /// The number of an integer node.
    pub open spec fn spec_as_i64(&self) -> Option<i64> {
        match self {
            YamlNode::Integer(i) => Some(*i),
            _ => None,
        }
    }

    /// The value of a boolean node.
    pub open spec fn spec_as_bool(&self) -> Option<bool> {
        match self {
            YamlNode::Boolean(b) => Some(*b),
            _ => None,
        }
    }

    pub open spec fn spec_is_hash(&self) -> bool {
        self is Hash
    }

    /// Whether the node is a string equal to `text`.
    pub open spec fn spec_is_string(&self, text: Seq<char>) -> bool {
        self.spec_as_str() == Some(text)
    }

    /// The text under `key`, if there is a string there.
    pub open spec fn spec_str_at(&self, key: Seq<char>) -> Option<Seq<char>> {
        match self.spec_get(key) {
            Some(v) => v.spec_as_str(),
            None => None,
        }
    }

    /// `self[key]`.
    pub fn get(&self, key: &str) -> (r: Option<&YamlNode>)
        ensures
            spec_deref(r) == self.spec_get(key@),
    {
        match self {
            YamlNode::Hash(entries) => {
                let n = entries.len();
                let mut i: usize = 0;
                while i < n
                    invariant
                        n == entries@.len(),
                        *self == YamlNode::Hash(*entries),
                        0 <= i <= n,
                        spec_entry_index(entries@.take(i as int), key@) is None,
                    decreases n - i,
                {
                    assert(entries@.take(i + 1).drop_last() =~= entries@.take(i as int));
                    match &entries[i].0 {
                        YamlNode::String(s) => {
                            if crate::text::str_eq(s.as_str(), key) {
                                proof {
                                    lemma_entry_index_prefix(entries@, i as int + 1, key@);
                                }
                                return Some(&entries[i].1);
                            }
                        },
                        _ => {},
                    }
                    i = i + 1;
                }
                assert(entries@.take(n as int) =~= entries@);
                None
            },
            _ => None,
        }
    }

    /// `self[i]`.
    pub fn item(&self, i: usize) -> (r: Option<&YamlNode>)
        ensures
            spec_deref(r) == self.spec_item(i as int),
    {
        match self {
            YamlNode::Array(items) => if i < items.len() {
                Some(&items[i])
            } else {
                None
            },
            _ => None,
        }
    }

    pub fn as_str(&self) -> (r: Option<&str>)
        ensures
            match r {
                Some(s) => self.spec_as_str() == Some(s@),
                None => self.spec_as_str() is None,
            },
    {
        match self {
            YamlNode::String(s) => Some(s.as_str()),
            _ => None,
        }
    }

    pub fn as_i64(&self) -> (r: Option<i64>)
        ensures
            r == self.spec_as_i64(),
    {
        match self {
            YamlNode::Integer(i) => Some(*i),
            _ => None,
        }
    }

    pub fn as_bool(&self) -> (r: Option<bool>)
        ensures
            r == self.spec_as_bool(),
    {
        match self {
            YamlNode::Boolean(b) => Some(*b),
            _ => None,
        }
    }

    pub fn as_vec(&self) -> (r: Option<&Vec<YamlNode>>)
        ensures
            match self {
                YamlNode::Array(items) => r == Some(items),
                _ => r is None,
            },
    {
        match self {
            YamlNode::Array(items) => Some(items),
            _ => None,
        }
    }

    pub fn as_hash(&self) -> (r: Option<&Vec<(YamlNode, YamlNode)>>)
        ensures
            match self {
                YamlNode::Hash(entries) => r == Some(entries),
                _ => r is None,
            },
    {
        match self {
            YamlNode::Hash(entries) => Some(entries),
            _ => None,
        }
    }

    /// The text under `key`, if there is a string there.
    pub fn str_at(&self, key: &str) -> (r: Option<&str>)
        ensures
            match r {
                Some(s) => self.spec_str_at(key@) == Some(s@),
                None => self.spec_str_at(key@) is None,
            },
    {
        match self.get(key) {
            Some(v) => v.as_str(),
            None => None,
        }
    }
}

proof fn lemma_entry_index_prefix(entries: Seq<(YamlNode, YamlNode)>, k: int, key: Seq<char>)
    requires
        0 < k <= entries.len(),
        spec_entry_index(entries.take(k - 1), key) is None,
        entries[k - 1].0 matches YamlNode::String(s) && s@ == key,
    ensures
        spec_entry_index(entries, key) == Some(k - 1),
    decreases entries.len() - k,
{
    assert(entries.take(k).drop_last() =~= entries.take(k - 1));
    assert(spec_entry_index(entries.take(k), key) == Some(k - 1));
    lemma_entry_index_extend(entries, k, key);
}

/// Once found in a prefix, an entry stays the one found.
proof fn lemma_entry_index_extend(entries: Seq<(YamlNode, YamlNode)>, k: int, key: Seq<char>)
    requires
        0 <= k <= entries.len(),
        spec_entry_index(entries.take(k), key) is Some,
    ensures
        spec_entry_index(entries, key) == spec_entry_index(entries.take(k), key),
    decreases entries.len() - k,
{
    if k < entries.len() {
        assert(entries.take(k + 1).drop_last() =~= entries.take(k));
        lemma_entry_index_extend(entries, k + 1, key);
    } else {
        assert(entries.take(k) =~= entries);
    }
}

/// A value found under a key is part of the map.
pub proof fn lemma_get_decreases(y: YamlNode, key: Seq<char>)
    ensures
        y.spec_get(key) matches Some(v) ==> decreases_to!(y => v),
{
    if let YamlNode::Hash(entries) = y {
        lemma_entry_index_bounds(entries@, key);
        if let Some(i) = spec_entry_index(entries@, key) {
            assert(decreases_to!(y => entries));
            assert(decreases_to!(entries => entries@));
            assert(decreases_to!(entries@ => entries@[i]));
            assert(decreases_to!(entries@[i] => entries@[i].1));
        }
    }
}

} // verus!
