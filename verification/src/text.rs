//! Small string operations on `&str`, stated over the character sequence
//! that a string slice views as.
use vstd::prelude::*;
use vstd::utf8::encode_utf8;

verus! {

/// `p` is a prefix of `s`.
pub open spec fn has_prefix(s: Seq<char>, p: Seq<char>) -> bool {
    p.len() <= s.len() && s.subrange(0, p.len() as int) == p
}

/// A string of exactly one byte: one character below 0x80.
pub open spec fn is_single_ascii(s: Seq<char>) -> bool {
    s.len() == 1 && (s[0] as u32) < 128
}

/// ASCII lower-casing of one character; other characters stay as they are.
pub open spec fn ascii_lower(c: char) -> char {
    if 'A' <= c && c <= 'Z' {
        ((c as u32) + 32) as char
    } else {
        c
    }
}

/// ASCII upper-casing of one character; other characters stay as they are.
pub open spec fn ascii_upper(c: char) -> char {
    if 'a' <= c && c <= 'z' {
        ((c as u32) - 32) as char
    } else {
        c
    }
}

/// The pieces of `s` between occurrences of `sep`, in order, as `str::split`
/// yields them: one piece more than there are separators, empty pieces kept.
pub open spec fn split_on(s: Seq<char>, sep: char) -> Seq<Seq<char>>
    decreases s.len(),
{
    if s.len() == 0 {
        seq![Seq::<char>::empty()]
    } else {
        let init = split_on(s.drop_last(), sep);
        if s.last() == sep {
            init.push(Seq::<char>::empty())
        } else {
            init.update(init.len() - 1, init.last().push(s.last()))
        }
    }
}

/// The pieces joined with `sep` between each two neighbours.
pub open spec fn join_with(parts: Seq<Seq<char>>, sep: Seq<char>) -> Seq<char>
    decreases parts.len(),
{
    if parts.len() == 0 {
        Seq::<char>::empty()
    } else if parts.len() == 1 {
        parts[0]
    } else {
        join_with(parts.drop_last(), sep) + sep + parts.last()
    }
}

/// The character sequences of a sequence of string slices.
pub open spec fn str_views(parts: Seq<&str>) -> Seq<Seq<char>> {
    parts.map_values(|p: &str| p@)
}

/// Splitting always yields at least one piece.
pub proof fn lemma_split_on_nonempty(s: Seq<char>, sep: char)
    ensures
        split_on(s, sep).len() >= 1,
    decreases s.len(),
{
    if s.len() > 0 {
        lemma_split_on_nonempty(s.drop_last(), sep);
    }
}

/// The UTF-8 encoding has at least one byte per character.
proof fn lemma_encoding_not_shorter(s: Seq<char>)
    ensures
        encode_utf8(s).len() >= s.len(),
    decreases s.len(),
{
    if s.len() > 0 {
        lemma_encoding_not_shorter(s.drop_first());
    }
}

/// A string is one byte long exactly where it is a single character below 0x80.
pub proof fn lemma_one_byte_iff_single_ascii(s: Seq<char>)
    ensures
        encode_utf8(s).len() == 1 <==> is_single_ascii(s),
{
    lemma_encoding_not_shorter(s);
    if s.len() >= 1 {
        lemma_encoding_not_shorter(s.drop_first());
        if s.len() == 1 {
            assert(s.drop_first().len() == 0);
            assert(encode_utf8(s.drop_first()).len() == 0);
        }
    }
}

/// Character-wise equality of two string slices.
pub fn str_eq(a: &str, b: &str) -> (r: bool)
    ensures
        r == (a@ == b@),
{
    let n = a.unicode_len();
    if n != b.unicode_len() {
        return false;
    }
    let mut i: usize = 0;
    while i < n
        invariant
            n == a@.len(),
            n == b@.len(),
            i <= n,
            forall|j: int| 0 <= j < i ==> a@[j] == b@[j],
        decreases n - i,
    {
        if a.get_char(i) != b.get_char(i) {
            return false;
        }
        i = i + 1;
    }
    assert(a@ =~= b@);
    true
}

/// What follows `prefix` in `s`, where `s` starts with it.
pub fn strip_prefix<'a>(s: &'a str, prefix: &str) -> (r: Option<&'a str>)
    ensures
        r is Some <==> has_prefix(s@, prefix@),
        r matches Some(rest) ==> rest@ == s@.skip(prefix@.len() as int),
{
    let n = s.unicode_len();
    let m = prefix.unicode_len();
    if m > n {
        return None;
    }
    let mut i: usize = 0;
    while i < m
        invariant
            n == s@.len(),
            m == prefix@.len(),
            m <= n,
            i <= m,
            forall|j: int| 0 <= j < i ==> s@[j] == prefix@[j],
        decreases m - i,
    {
        if s.get_char(i) != prefix.get_char(i) {
            assert(s@.subrange(0, m as int)[i as int] != prefix@[i as int]);
            return None;
        }
        i = i + 1;
    }
    assert(s@.subrange(0, m as int) =~= prefix@);
    let rest = s.substring_char(m, n);
    assert(rest@ =~= s@.skip(m as int));
    Some(rest)
}

/// The pieces of `s` between the `'+'` characters in it.
pub fn split_plus<'a>(s: &'a str) -> (r: Vec<&'a str>)
    ensures
        str_views(r@) == split_on(s@, '+'),
{
    let n = s.unicode_len();
    let mut parts: Vec<&'a str> = Vec::new();
    let mut start: usize = 0;
    let mut i: usize = 0;
    assert(s@.take(0) =~= Seq::<char>::empty());
    assert(str_views(parts@) + seq![s@.subrange(0, 0)] =~= split_on(s@.take(0), '+'));
    while i < n
        invariant
            n == s@.len(),
            start <= i <= n,
            str_views(parts@) + seq![s@.subrange(start as int, i as int)] == split_on(
                s@.take(i as int),
                '+',
            ),
        decreases n - i,
    {
        let c = s.get_char(i);
        let ghost prev = split_on(s@.take(i as int), '+');
        proof {
            assert(s@.take(i + 1).drop_last() =~= s@.take(i as int));
            assert(s@.take(i + 1).last() == c);
            lemma_split_on_nonempty(s@.take(i as int), '+');
        }
        if c == '+' {
            let piece = s.substring_char(start, i);
            parts.push(piece);
            start = i + 1;
            proof {
                assert(str_views(parts@) =~= prev);
                assert(s@.subrange(start as int, i + 1) =~= Seq::<char>::empty());
                assert(str_views(parts@) + seq![s@.subrange(start as int, i + 1)] =~= split_on(
                    s@.take(i + 1),
                    '+',
                ));
            }
        } else {
            proof {
                assert(s@.subrange(start as int, i + 1) =~= s@.subrange(start as int, i as int).push(c));
                assert(str_views(parts@) + seq![s@.subrange(start as int, i + 1)] =~= split_on(
                    s@.take(i + 1),
                    '+',
                ));
            }
        }
        i = i + 1;
    }
    let last = s.substring_char(start, n);
    parts.push(last);
    proof {
        assert(s@.take(n as int) =~= s@);
        assert(str_views(parts@) =~= split_on(s@, '+'));
    }
    parts
}

/// `String::push`: the string with one more character at its end.
#[verifier::external_body]
pub(crate) fn push_char(s: &mut String, c: char)
    ensures
        final(s)@ == old(s)@.push(c),
{
    s.push(c);
}

/// ASCII lower-casing of one character.
pub fn lower_ascii_char(c: char) -> (r: char)
    ensures
        r == ascii_lower(c),
{
    if 'A' <= c && c <= 'Z' {
        let b: u8 = (c as u8) + 32;
        let r = b as char;
        r
    } else {
        c
    }
}

/// ASCII upper-casing of one character.
pub fn upper_ascii_char(c: char) -> (r: char)
    ensures
        r == ascii_upper(c),
{
    if 'a' <= c && c <= 'z' {
        let b: u8 = (c as u8) - 32;
        let r = b as char;
        r
    } else {
        c
    }
}

} // verus!
