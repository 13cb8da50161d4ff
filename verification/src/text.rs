//! Character-level text utilities: substring search, splitting points and
//! lexicographic order, shared by the schema parser and the emitters.

use vstd::prelude::*;
use vstd::string::*;

verus! {

/// Index of the first occurrence of `sep` in `s` at or after position `i`,
/// if any. Positions count characters, not bytes.
pub open spec fn find_from(s: Seq<char>, sep: Seq<char>, i: int) -> Option<int>
    recommends
        sep.len() > 0,
        0 <= i,
    decreases s.len() - i when 0 <= i && sep.len() > 0
{
    if i + sep.len() > s.len() {
        None
    } else if s.subrange(i, i + sep.len() as int) == sep {
        Some(i)
    } else {
        find_from(s, sep, i + 1)
    }
}

/// A found occurrence lies within the text.
pub proof fn lemma_find_from_bounds(s: Seq<char>, sep: Seq<char>, i: int)
    requires
        sep.len() > 0,
        0 <= i,
        find_from(s, sep, i) is Some,
    ensures
        i <= find_from(s, sep, i)->Some_0,
        find_from(s, sep, i)->Some_0 + sep.len() <= s.len(),
    decreases s.len() - i,
{
    if i + sep.len() > s.len() {
    } else if s.subrange(i, i + sep.len() as int) == sep {
    } else {
        lemma_find_from_bounds(s, sep, i + 1);
    }
}

/// Nothing is found when the separator's first character never occurs in
/// the searched range.
pub proof fn lemma_find_from_none(s: Seq<char>, sep: Seq<char>, i: int)
    requires
        sep.len() > 0,
        0 <= i,
        forall|k: int| i <= k < s.len() ==> s[k] != sep[0],
    ensures
        find_from(s, sep, i) is None,
    decreases s.len() - i,
{
    if i + sep.len() > s.len() {
    } else {
        assert(s.subrange(i, i + sep.len() as int)[0] == s[i]);
        assert(s.subrange(i, i + sep.len() as int) != sep);
        lemma_find_from_none(s, sep, i + 1);
    }
}

/// The first occurrence is the matching position before which the
/// separator's first character never occurs.
pub proof fn lemma_find_from_first(s: Seq<char>, sep: Seq<char>, i: int, j: int)
    requires
        sep.len() > 0,
        0 <= i <= j,
        j + sep.len() <= s.len(),
        s.subrange(j, j + sep.len() as int) == sep,
        forall|k: int| i <= k < j ==> s[k] != sep[0],
    ensures
        find_from(s, sep, i) == Some(j),
    decreases j - i,
{
    if i == j {
    } else {
        assert(s.subrange(i, i + sep.len() as int)[0] == s[i]);
        assert(s.subrange(i, i + sep.len() as int) != sep);
        lemma_find_from_first(s, sep, i + 1, j);
    }
}

/// The remainder of `s` after the last occurrence of `sep`; all of `s`
/// when `sep` does not occur. This is what taking the final piece of a
/// separator split yields.
pub open spec fn after_last(s: Seq<char>, sep: Seq<char>) -> Seq<char>
    recommends
        sep.len() > 0,
    decreases s.len() when sep.len() > 0
    via after_last_decreases
{
    match find_from(s, sep, 0) {
        None => s,
        Some(i) => after_last(s.subrange(i + sep.len() as int, s.len() as int), sep),
    }
}

#[via_fn]
proof fn after_last_decreases(s: Seq<char>, sep: Seq<char>) {
    if find_from(s, sep, 0) is Some {
        lemma_find_from_bounds(s, sep, 0);
    }
}

/// Exact mirror of `after_last` on `&str` values.
pub fn str_after_last(s: &str, sep: &str) -> (r: String)
    requires
        sep@.len() > 0,
    ensures
        r@ == after_last(s@, sep@),
    decreases s@.len(),
{
    let n = s.unicode_len();
    let m = sep.unicode_len();
    match find_sub(s, sep, 0) {
        Option::None => s.to_owned(),
        Option::Some(i) => {
            let tail = s.substring_char(i + m, n);
            str_after_last(tail, sep)
        },
    }
}

/// Exact mirror of `find_from` on `&str` values.
pub fn find_sub(s: &str, sep: &str, from: usize) -> (r: Option<usize>)
    requires
        sep@.len() > 0,
    ensures
        match r {
            None => find_from(s@, sep@, from as int) is None,
            Some(i) => find_from(s@, sep@, from as int) == Some(i as int) && from <= i
                && i + sep@.len() <= s@.len(),
        },
{
    let n = s.unicode_len();
    let m = sep.unicode_len();
    if m > n {
        assert(find_from(s@, sep@, from as int) is None);
        return None;
    }
    let mut i = from;
    loop
        invariant
            sep@.len() == m > 0,
            s@.len() == n,
            m <= n,
            from <= i,
            find_from(s@, sep@, from as int) == find_from(s@, sep@, i as int),
        decreases n + 1 - i,
    {
        if i > n - m {
            assert(find_from(s@, sep@, i as int) is None);
            return None;
        }
        if match_at(s, sep, i) {
            assert(find_from(s@, sep@, i as int) == Some(i as int));
            return Some(i);
        } else {
            assert(find_from(s@, sep@, i as int) == find_from(s@, sep@, i + 1));
            i += 1;
        }
    }
}

/// Whether `sep` occurs in `s` exactly at position `i`.
fn match_at(s: &str, sep: &str, i: usize) -> (r: bool)
    requires
        i + sep@.len() <= s@.len(),
    ensures
        r == (s@.subrange(i as int, i + sep@.len()) == sep@),
{
    let m = sep.unicode_len();
    let n = s.unicode_len();
    let mut j: usize = 0;
    while j < m
        invariant
            sep@.len() == m,
            s@.len() == n,
            i + m <= n,
            j <= m,
            forall|k: int| 0 <= k < j ==> s@[i + k] == sep@[k],
        decreases m - j,
    {
        if s.get_char(i + j) != sep.get_char(j) {
            assert(s@.subrange(i as int, i + m as int)[j as int] == s@[i + j]);
            assert(s@.subrange(i as int, i + m as int) != sep@);
            return false;
        }
        j += 1;
    }
    assert(s@.subrange(i as int, i + m as int) =~= sep@);
    true
}

/// Whether `sub` occurs anywhere in `s`.
pub open spec fn contains_sub(s: Seq<char>, sub: Seq<char>) -> bool {
    find_from(s, sub, 0) is Some
}

/// Exact mirror of `contains_sub`.
pub fn str_contains(s: &str, sub: &str) -> (r: bool)
    requires
        sub@.len() > 0,
    ensures
        r == contains_sub(s@, sub@),
{
    find_sub(s, sub, 0).is_some()
}

/// String equality through views.
pub fn str_eq(a: &str, b: &str) -> (r: bool)
    ensures
        r == (a@ == b@),
{
    let n = a.unicode_len();
    let m = b.unicode_len();
    if n != m {
        return false;
    }
    let mut i: usize = 0;
    while i < n
        invariant
            a@.len() == n,
            b@.len() == n,
            i <= n,
            forall|k: int| 0 <= k < i ==> a@[k] == b@[k],
        decreases n - i,
    {
        if a.get_char(i) != b.get_char(i) {
            return false;
        }
        i += 1;
    }
    assert(a@ =~= b@);
    true
}

/// Lexicographic order on character sequences by code point. On identifier
/// text this coincides with byte order of the UTF-8 encodings, so uppercase
/// ASCII sorts before lowercase ASCII.
pub open spec fn lex_le(a: Seq<char>, b: Seq<char>) -> bool
    decreases a.len()
{
    if a.len() == 0 {
        true
    } else if b.len() == 0 {
        false
    } else if (a[0] as u32) < (b[0] as u32) {
        true
    } else if (a[0] as u32) > (b[0] as u32) {
        false
    } else {
        lex_le(a.drop_first(), b.drop_first())
    }
}

/// `lex_le` is total: one direction always holds.
pub proof fn lemma_lex_le_total(a: Seq<char>, b: Seq<char>)
    ensures
        lex_le(a, b) || lex_le(b, a),
    decreases a.len(),
{
    if a.len() == 0 || b.len() == 0 {
    } else if (a[0] as u32) == (b[0] as u32) {
        lemma_lex_le_total(a.drop_first(), b.drop_first());
    }
}

/// `lex_le` is reflexive.
pub proof fn lemma_lex_le_refl(a: Seq<char>)
    ensures
        lex_le(a, a),
    decreases a.len(),
{
    if a.len() > 0 {
        lemma_lex_le_refl(a.drop_first());
    }
}

/// `lex_le` is transitive.
pub proof fn lemma_lex_le_trans(a: Seq<char>, b: Seq<char>, c: Seq<char>)
    requires
        lex_le(a, b),
        lex_le(b, c),
    ensures
        lex_le(a, c),
    decreases a.len(),
{
    if a.len() == 0 || b.len() == 0 || c.len() == 0 {
    } else if (a[0] as u32) == (b[0] as u32) && (b[0] as u32) == (c[0] as u32) {
        lemma_lex_le_trans(a.drop_first(), b.drop_first(), c.drop_first());
    }
}

/// Exact mirror of `lex_le` on `&str` values.
pub fn str_le(a: &str, b: &str) -> (r: bool)
    ensures
        r == lex_le(a@, b@),
{
    let n = a.unicode_len();
    let m = b.unicode_len();
    let mut i: usize = 0;
    assert(a@.skip(0) =~= a@);
    assert(b@.skip(0) =~= b@);
    loop
        invariant
            a@.len() == n,
            b@.len() == m,
            i <= n,
            i <= m,
            lex_le(a@, b@) == lex_le(a@.skip(i as int), b@.skip(i as int)),
        decreases n - i,
    {
        if i == n {
            assert(a@.skip(i as int).len() == 0);
            return true;
        }
        if i == m {
            assert(b@.skip(i as int).len() == 0);
            assert(a@.skip(i as int).len() > 0);
            return false;
        }
        let ca = a.get_char(i);
        let cb = b.get_char(i);
        assert(a@.skip(i as int)[0] == a@[i as int]);
        assert(b@.skip(i as int)[0] == b@[i as int]);
        if (ca as u32) < (cb as u32) {
            return true;
        }
        if (ca as u32) > (cb as u32) {
            return false;
        }
        assert(a@.skip(i as int).drop_first() =~= a@.skip(i + 1));
        assert(b@.skip(i as int).drop_first() =~= b@.skip(i + 1));
        i += 1;
    }
}

/// Decimal digits of `n`, most significant first.
pub open spec fn dec_digits(n: nat) -> Seq<char>
    decreases n
{
    if n < 10 {
        seq![digit_char(n)]
    } else {
        dec_digits(n / 10) + seq![digit_char(n % 10)]
    }
}

/// The character for one decimal digit.
pub open spec fn digit_char(d: nat) -> char
    recommends
        d < 10,
{
    ((48 + d) as u8) as char
}

/// View of a list of strings.
pub open spec fn strings_view(s: Seq<String>) -> Seq<Seq<char>> {
    Seq::new(s.len(), |i: int| s[i]@)
}

/// The pieces joined with `sep` between adjacent pieces.
pub open spec fn join_texts(parts: Seq<Seq<char>>, sep: Seq<char>) -> Seq<char>
    decreases parts.len(),
{
    if parts.len() == 0 {
        Seq::empty()
    } else if parts.len() == 1 {
        parts[0]
    } else {
        parts[0] + sep + join_texts(parts.drop_first(), sep)
    }
}

/// Exact mirror of `join_texts` over a vector of strings.
#[verifier::loop_isolation(false)]
pub fn join_strings(parts: &Vec<String>, sep: &str) -> (r: String)
    ensures
        r@ == join_texts(strings_view(parts@), sep@),
{
    let ghost pv = strings_view(parts@);
    let mut out = String::new();
    let mut i: usize = 0;
    while i < parts.len()
        invariant
            i <= parts.len(),
            i == 0 ==> out@ == Seq::<char>::empty(),
            0 < i < parts@.len() ==> join_texts(pv, sep@) == out@ + sep@
                + join_texts(pv.skip(i as int), sep@),
            i == parts@.len() && i > 0 ==> join_texts(pv, sep@) == out@,
        decreases parts.len() - i,
    {
        proof {
            assert(pv.skip(i as int)[0] == pv[i as int]);
            assert(pv.skip(i as int).drop_first() =~= pv.skip(i as int + 1));
        }
        if i > 0 {
            out.append(sep);
        }
        out.append(parts[i].as_str());
        proof {
            if i + 1 < parts@.len() {
                assert(pv.skip(i as int).len() > 1);
            }
        }
        i += 1;
    }
    proof {
        if parts@.len() == 0 {
            assert(join_texts(pv, sep@) == Seq::<char>::empty());
        }
    }
    out
}

/// Appends every block to the scope, in order.
#[verifier::loop_isolation(false)]
pub fn push_all(scope: &mut Vec<String>, blocks: Vec<String>)
    ensures
        strings_view(final(scope)@) == strings_view(old(scope)@) + strings_view(blocks@),
{
    let ghost base = strings_view(old(scope)@);
    let ghost bv = strings_view(blocks@);
    let mut i: usize = 0;
    assert(base + bv.take(0) =~= base);
    while i < blocks.len()
        invariant
            i <= blocks.len(),
            bv == strings_view(blocks@),
            bv.len() == blocks@.len(),
            strings_view(scope@) == base + bv.take(i as int),
        decreases blocks.len() - i,
    {
        let ghost s0 = strings_view(scope@);
        scope.push(blocks[i].clone());
        proof {
            assert(strings_view(scope@) =~= s0 + seq![bv[i as int]]);
            assert(base + bv.take(i as int) + seq![bv[i as int]]
                =~= base + bv.take(i as int + 1));
        }
        i += 1;
    }
    proof {
        assert(bv.take(blocks@.len() as int) =~= bv);
    }
}

/// Relies on std's `String::push`: appends exactly one character.
#[verifier::external_body]
fn push_char(s: &mut String, c: char)
    ensures
        final(s)@ == old(s)@ + seq![c],
{
    s.push(c);
}

/// Exact mirror of `dec_digits`: renders `n` in decimal.
pub fn u64_to_dec(n: u64) -> (r: String)
    ensures
        r@ == dec_digits(n as nat),
    decreases n,
{
    if n < 10 {
        let d: u8 = 48 + (n as u8);
        let mut s = String::new();
        push_char(&mut s, d as char);
        assert(s@ =~= seq![digit_char(n as nat)]);
        s
    } else {
        let mut s = u64_to_dec(n / 10);
        let d: u8 = 48 + ((n % 10) as u8);
        push_char(&mut s, d as char);
        assert(s@ =~= dec_digits((n / 10) as nat) + seq![digit_char((n % 10) as nat)]);
        s
    }
}

} // verus!
