//! Turning names from a schema into Rust identifiers: the case conversions
//! of the `inflector` crate and of std, and the small rewrites around them.
use vstd::prelude::*;

use crate::text::char_at;
use crate::text::push_char;

verus! {

/// The `snake_case` form that `inflector` gives a text.
pub uninterp spec fn spec_to_snake_case(s: Seq<char>) -> Seq<char>;

/// The `ClassCase` form that `inflector` gives a text.
pub uninterp spec fn spec_to_class_case(s: Seq<char>) -> Seq<char>;

/// The `Title Case` form that `inflector` gives a text.
pub uninterp spec fn spec_to_title_case(s: Seq<char>) -> Seq<char>;

/// The `camelCase` form that `inflector` gives a text.
pub uninterp spec fn spec_to_camel_case(s: Seq<char>) -> Seq<char>;

/// The Unicode upper case of a text (`str::to_uppercase`).
pub uninterp spec fn spec_to_uppercase(s: Seq<char>) -> Seq<char>;

/// The Unicode lower case of a text (`str::to_lowercase`).
pub uninterp spec fn spec_to_lowercase(s: Seq<char>) -> Seq<char>;

/// Whether a character has the Unicode `White_Space` property
/// (`char::is_whitespace`).
pub uninterp spec fn spec_is_whitespace(c: char) -> bool;

/// `inflector::cases::snakecase::to_snake_case`; the contract only names
/// the result.
#[verifier::external_body]
pub(crate) fn to_snake_case(s: &str) -> (res: String)
    ensures
        res@ == spec_to_snake_case(s@),
{
    inflector::cases::snakecase::to_snake_case(s)
}

/// `inflector::cases::classcase::to_class_case`; the contract only names
/// the result.
#[verifier::external_body]
pub(crate) fn to_class_case(s: &str) -> (res: String)
    ensures
        res@ == spec_to_class_case(s@),
{
    inflector::cases::classcase::to_class_case(s)
}

/// `inflector::cases::titlecase::to_title_case`; the contract only names
/// the result.
#[verifier::external_body]
pub(crate) fn to_title_case(s: &str) -> (res: String)
    ensures
        res@ == spec_to_title_case(s@),
{
    inflector::cases::titlecase::to_title_case(s)
}

/// `inflector::cases::camelcase::to_camel_case`; the contract only names
/// the result.
#[verifier::external_body]
pub(crate) fn to_camel_case(s: &str) -> (res: String)
    ensures
        res@ == spec_to_camel_case(s@),
{
    inflector::cases::camelcase::to_camel_case(s)
}

/// `str::to_uppercase`; the contract only names the result.
#[verifier::external_body]
pub(crate) fn to_uppercase(s: &str) -> (res: String)
    ensures
        res@ == spec_to_uppercase(s@),
{
    s.to_uppercase()
}

/// `str::to_lowercase`; the contract only names the result.
#[verifier::external_body]
pub(crate) fn to_lowercase(s: &str) -> (res: String)
    ensures
        res@ == spec_to_lowercase(s@),
{
    s.to_lowercase()
}

/// `char::is_whitespace`; the contract only names the result.
#[verifier::external_body]
pub(crate) fn is_whitespace(c: char) -> (b: bool)
    ensures
        b == spec_is_whitespace(c),
{
    c.is_whitespace()
}

/// Every `from` character replaced by `to` (`str::replace` with characters).
pub open spec fn spec_replace_char(s: Seq<char>, from: char, to: char) -> Seq<char> {
    s.map_values(|c: char| if c == from { to } else { c })
}

/// Every `c` removed (`str::replace` with an empty replacement).
pub open spec fn spec_remove_char(s: Seq<char>, c: char) -> Seq<char>
    decreases s.len(),
{
    if s.len() == 0 {
        s
    } else if s.last() == c {
        spec_remove_char(s.drop_last(), c)
    } else {
        spec_remove_char(s.drop_last(), c).push(s.last())
    }
}

/// The number of leading whitespace characters.
pub open spec fn spec_leading_ws(s: Seq<char>) -> nat
    decreases s.len(),
{
    if s.len() > 0 && spec_is_whitespace(s[0]) {
        1 + spec_leading_ws(s.drop_first())
    } else {
        0
    }
}

/// The number of trailing whitespace characters.
pub open spec fn spec_trailing_ws(s: Seq<char>) -> nat
    decreases s.len(),
{
    if s.len() > 0 && spec_is_whitespace(s.last()) {
        1 + spec_trailing_ws(s.drop_last())
    } else {
        0
    }
}

/// `str::trim`: leading and trailing whitespace removed.
pub open spec fn spec_trim(s: Seq<char>) -> Seq<char> {
    if spec_leading_ws(s) == s.len() {
        Seq::empty()
    } else {
        s.subrange(spec_leading_ws(s) as int, s.len() - spec_trailing_ws(s))
    }
}

pub fn replace_char(s: &str, from: char, to: char) -> (res: String)
    ensures
        res@ == spec_replace_char(s@, from, to),
{
    let n = s.unicode_len();
    let mut res = String::new();
    let mut i: usize = 0;
    while i < n
        invariant
            n == s@.len(),
            0 <= i <= n,
            res@ == spec_replace_char(s@.take(i as int), from, to),
        decreases n - i,
    {
        let c = char_at(s, i);
        if c == from {
            push_char(&mut res, to);
        } else {
            push_char(&mut res, c);
        }
        assert(spec_replace_char(s@.take(i + 1), from, to) =~= spec_replace_char(
            s@.take(i as int),
            from,
            to,
        ).push(if c == from { to } else { c }));
        i = i + 1;
    }
    assert(s@.take(n as int) =~= s@);
    res
}

pub fn remove_char(s: &str, c: char) -> (res: String)
    ensures
        res@ == spec_remove_char(s@, c),
{
    let n = s.unicode_len();
    let mut res = String::new();
    let mut i: usize = 0;
    while i < n
        invariant
            n == s@.len(),
            0 <= i <= n,
            res@ == spec_remove_char(s@.take(i as int), c),
        decreases n - i,
    {
        let x = char_at(s, i);
        proof {
            assert(s@.take(i + 1).drop_last() =~= s@.take(i as int));
        }
        if x != c {
            push_char(&mut res, x);
        }
        i = i + 1;
    }
    assert(s@.take(n as int) =~= s@);
    res
}


/// The characters `from..to` of `s`.
pub fn substring(s: &str, from: usize, to: usize) -> (res: String)
    requires
        from <= to <= s@.len(),
    ensures
        res@ == s@.subrange(from as int, to as int),
{
    let mut res = String::new();
    let mut i: usize = from;
    while i < to
        invariant
            to <= s@.len(),
            from <= i <= to,
            res@ == s@.subrange(from as int, i as int),
        decreases to - i,
    {
        push_char(&mut res, char_at(s, i));
        assert(s@.subrange(from as int, i + 1) =~= s@.subrange(from as int, i as int).push(s@[i as int]));
        i = i + 1;
    }
    res
}

/// `str::trim`.
pub fn trim(s: &str) -> (res: String)
    ensures
        res@ == spec_trim(s@),
{
    let n = s.unicode_len();
    let mut start: usize = 0;
    assert(s@.skip(0) =~= s@);
    while start < n && is_whitespace(char_at(s, start))
        invariant
            n == s@.len(),
            0 <= start <= n,
            spec_leading_ws(s@) == start + spec_leading_ws(s@.skip(start as int)),
        decreases n - start,
    {
        assert(s@.skip(start as int).drop_first() =~= s@.skip(start + 1));
        assert(s@.skip(start as int)[0] == s@[start as int]);
        start = start + 1;
    }
    if start == n {
        assert(s@.skip(n as int).len() == 0);
        return String::new();
    }
    assert(s@.skip(start as int)[0] == s@[start as int]);
    let mut end: usize = n;
    assert(s@.take(n as int) =~= s@);
    while end > start + 1 && is_whitespace(char_at(s, end - 1))
        invariant
            n == s@.len(),
            start < n,
            !spec_is_whitespace(s@[start as int]),
            start + 1 <= end <= n,
            spec_trailing_ws(s@) == (n - end) + spec_trailing_ws(s@.take(end as int)),
        decreases end,
    {
        assert(s@.take(end as int).drop_last() =~= s@.take(end - 1));
        assert(s@.take(end as int).last() == s@[end - 1]);
        end = end - 1;
    }
    assert(s@.take(end as int).last() == s@[end - 1]);
    substring(s, start, end)
}

} // verus!
