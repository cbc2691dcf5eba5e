//! Building strings: decimal numerals and character-by-character assembly.
use vstd::prelude::*;

verus! {

/// The character of a decimal digit.
pub open spec fn spec_digit(d: nat) -> char {
    ((48 + d) as u32) as char
}

/// The decimal numeral of a natural number, without leading zeros.
pub open spec fn spec_nat_decimal(n: nat) -> Seq<char>
    decreases n,
{
    if n < 10 {
        seq![spec_digit(n)]
    } else {
        spec_nat_decimal(n / 10).push(spec_digit(n % 10))
    }
}

/// The decimal numeral of an integer: a minus sign before the numeral of a
/// negative number's magnitude.
pub open spec fn spec_int_decimal(i: int) -> Seq<char> {
    if i < 0 {
        seq!['-'] + spec_nat_decimal((-i) as nat)
    } else {
        spec_nat_decimal(i as nat)
    }
}

/// `String::push`: appends one character.
#[verifier::external_body]
pub(crate) fn push_char(s: &mut String, c: char)
    ensures
        final(s)@ == old(s)@.push(c),
{
    s.push(c)
}

/// A string made of the characters of a `&str`.
pub fn string_of(s: &str) -> (r: String)
    ensures
        r@ == s@,
{
    s.to_owned()
}

/// Appends the characters of `other` to `s`.
pub fn push_str(s: &mut String, other: &str)
    ensures
        final(s)@ == old(s)@ + other@,
{
    s.append(other)
}

fn digit_char(d: u64) -> (c: char)
    requires
        d < 10,
    ensures
        c == spec_digit(d as nat),
{
    let b: u8 = 48u8 + (d as u8);
    let c = b as char;
    assert(c == spec_digit(d as nat)) by {
        assert((b as u32) as char == b as char);
    }
    c
}

/// The decimal numeral of `n`.
pub fn u64_to_decimal(n: u64) -> (s: String)
    ensures
        s@ == spec_nat_decimal(n as nat),
    decreases n,
{
    if n < 10 {
        let mut s = String::new();
        push_char(&mut s, digit_char(n));
        assert(s@ =~= seq![spec_digit(n as nat)]);
        s
    } else {
        let mut s = u64_to_decimal(n / 10);
        push_char(&mut s, digit_char(n % 10));
        s
    }
}

/// The decimal numeral of `i`, with a minus sign when it is negative.
pub fn i64_to_decimal(i: i64) -> (s: String)
    ensures
        s@ == spec_int_decimal(i as int),
{
    if i < 0 {
        let magnitude: u64 = (0i128 - (i as i128)) as u64;
        let digits = u64_to_decimal(magnitude);
        let mut s = String::new();
        push_char(&mut s, '-');
        push_str(&mut s, digits.as_str());
        assert(s@ =~= seq!['-'] + spec_nat_decimal((-i) as nat));
        s
    } else {
        u64_to_decimal(i as u64)
    }
}

} // verus!

verus! {

/// The pieces of `s` between occurrences of `sep`, as `str::split` gives
/// them: one more piece than there are separators.
pub open spec fn spec_split(s: Seq<char>, sep: char) -> Seq<Seq<char>>
    decreases s.len(),
{
    if s.len() == 0 {
        seq![Seq::empty()]
    } else {
        let before = spec_split(s.drop_last(), sep);
        if s.last() == sep {
            before.push(Seq::empty())
        } else {
            before.update(before.len() - 1, before.last().push(s.last()))
        }
    }
}

pub proof fn lemma_split_nonempty(s: Seq<char>, sep: char)
    ensures
        spec_split(s, sep).len() >= 1,
    decreases s.len(),
{
    if s.len() > 0 {
        lemma_split_nonempty(s.drop_last(), sep);
    }
}

/// Appending characters other than the separator extends the last piece.
pub proof fn lemma_split_append_plain(x: Seq<char>, b: Seq<char>, sep: char)
    requires
        !b.contains(sep),
    ensures
        spec_split(x + b, sep) == spec_split(x, sep).update(
            spec_split(x, sep).len() - 1,
            spec_split(x, sep).last() + b,
        ),
    decreases b.len(),
{
    lemma_split_nonempty(x, sep);
    if b.len() == 0 {
        assert(x + b =~= x);
        assert(spec_split(x, sep).last() + b =~= spec_split(x, sep).last());
        assert(spec_split(x, sep).update(spec_split(x, sep).len() - 1, spec_split(x, sep).last())
            =~= spec_split(x, sep));
    } else {
        let b0 = b.drop_last();
        assert(!b0.contains(sep)) by {
            if b0.contains(sep) {
                let k = choose|k: int| 0 <= k < b0.len() && b0[k] == sep;
                assert(b[k] == sep);
            }
        }
        lemma_split_append_plain(x, b0, sep);
        assert((x + b).drop_last() =~= x + b0);
        assert((x + b).last() == b.last());
        assert(b.last() != sep) by {
            assert(b[b.len() - 1] == b.last());
        }
        assert(spec_split(x, sep).last() + b =~= (spec_split(x, sep).last() + b0).push(b.last()));
        assert(spec_split(x + b, sep) =~= spec_split(x, sep).update(
            spec_split(x, sep).len() - 1,
            spec_split(x, sep).last() + b,
        ));
    }
}

/// Two pieces joined by one separator split back into those two pieces.
pub proof fn lemma_split_two(a: Seq<char>, b: Seq<char>, sep: char)
    requires
        !a.contains(sep),
        !b.contains(sep),
    ensures
        spec_split(a + seq![sep] + b, sep) == seq![a, b],
{
    let e: Seq<char> = Seq::empty();
    lemma_split_append_plain(e, a, sep);
    assert(e + a =~= a);
    assert(spec_split(e, sep) =~= seq![e]);
    assert(e + a =~= a);
    assert(spec_split(a, sep) =~= seq![a]);
    let a1 = a + seq![sep];
    assert(a1.drop_last() =~= a);
    assert(spec_split(a1, sep) =~= seq![a, e]);
    lemma_split_append_plain(a1, b, sep);
    assert(e + b =~= b);
    assert(spec_split(a1 + b, sep) =~= seq![a, b]);
}

/// The characters of a string, as a `&str` holds them.
pub fn char_at(s: &str, i: usize) -> (c: char)
    requires
        i < s@.len(),
    ensures
        c == s@[i as int],
{
    s.get_char(i)
}

/// `str::split` on one separator character, every piece copied.
pub fn split_on(s: &str, sep: char) -> (parts: Vec<String>)
    ensures
        parts@.len() == spec_split(s@, sep).len(),
        forall|k: int| 0 <= k < parts@.len() ==> #[trigger] parts@[k]@ == spec_split(s@, sep)[k],
{
    let n = s.unicode_len();
    let mut parts: Vec<String> = Vec::new();
    parts.push(String::new());
    let mut i: usize = 0;
    assert(s@.take(0) =~= Seq::<char>::empty());
    while i < n
        invariant
            n == s@.len(),
            0 <= i <= n,
            parts@.len() == spec_split(s@.take(i as int), sep).len(),
            parts@.len() >= 1,
            forall|k: int|
                0 <= k < parts@.len() ==> #[trigger] parts@[k]@ == spec_split(
                    s@.take(i as int),
                    sep,
                )[k],
        decreases n - i,
    {
        let c = char_at(s, i);
        let ghost prefix = s@.take(i as int);
        assert(s@.take(i + 1).drop_last() =~= prefix);
        assert(s@.take(i + 1).last() == c);
        if c == sep {
            parts.push(String::new());
        } else {
            let last = parts.len() - 1;
            let mut piece = String::new();
            push_str(&mut piece, parts[last].as_str());
            push_char(&mut piece, c);
            parts.set(last, piece);
        }
        i = i + 1;
    }
    assert(s@.take(n as int) =~= s@);
    parts
}

} // verus!

verus! {

/// Whether `s` holds the character `c`.
pub fn contains_char(s: &str, c: char) -> (b: bool)
    ensures
        b == s@.contains(c),
{
    let n = s.unicode_len();
    let mut i: usize = 0;
    while i < n
        invariant
            n == s@.len(),
            0 <= i <= n,
            forall|k: int| 0 <= k < i ==> s@[k] != c,
        decreases n - i,
    {
        if char_at(s, i) == c {
            return true;
        }
        i = i + 1;
    }
    false
}

} // verus!

verus! {

/// Whether two strings hold the same characters.
pub fn str_eq(a: &str, b: &str) -> (r: bool)
    ensures
        r == (a@ == b@),
{
    let n = a.unicode_len();
    let m = b.unicode_len();
    if n != m {
        return false;
    }
    let mut i: usize = 0;
    while i < n
        invariant
            n == a@.len(),
            m == b@.len(),
            n == m,
            0 <= i <= n,
            forall|k: int| 0 <= k < i ==> a@[k] == b@[k],
        decreases n - i,
    {
        if char_at(a, i) != char_at(b, i) {
            return false;
        }
        i = i + 1;
    }
    assert(a@ =~= b@);
    true
}

} // verus!
