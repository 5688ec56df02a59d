//! Character-level text handling: conversion between strings and character
//! vectors, whitespace trimming, splitting, prefix tests, replacement, joining
//! and decimal rendering, each with its meaning stated over `Seq<char>`.

use vstd::prelude::*;
use vstd::std_specs::iter::IteratorSpec;

verus! {

broadcast use vstd::string::group_string_axioms;

// ---------------------------------------------------------------------------
// Specifications
// ---------------------------------------------------------------------------

/// Unicode `White_Space`, the property that `char::is_whitespace` and
/// `str::trim` go by.
pub open spec fn is_white_space(c: char) -> bool {
    let u: u32 = c as u32;
    ||| 0x9 <= u <= 0xd
    ||| u == 0x20
    ||| u == 0x85
    ||| u == 0xa0
    ||| u == 0x1680
    ||| 0x2000 <= u <= 0x200a
    ||| u == 0x2028
    ||| u == 0x2029
    ||| u == 0x202f
    ||| u == 0x205f
    ||| u == 0x3000
}

/// `s` with its leading whitespace removed.
pub open spec fn trim_start(s: Seq<char>) -> Seq<char>
    decreases s.len(),
{
    if s.len() > 0 && is_white_space(s[0]) {
        trim_start(s.drop_first())
    } else {
        s
    }
}

/// `s` with its trailing whitespace removed.
pub open spec fn trim_end(s: Seq<char>) -> Seq<char>
    decreases s.len(),
{
    if s.len() > 0 && is_white_space(s.last()) {
        trim_end(s.drop_last())
    } else {
        s
    }
}

/// `s` with leading and trailing whitespace removed.
pub open spec fn trim(s: Seq<char>) -> Seq<char> {
    trim_end(trim_start(s))
}

/// The pieces of `s` between occurrences of `sep`, in order, empty pieces
/// included: a text with `k` separators has `k + 1` pieces.
pub open spec fn split(s: Seq<char>, sep: char) -> Seq<Seq<char>>
    decreases s.len(),
{
    if s.len() == 0 {
        seq![Seq::<char>::empty()]
    } else {
        let pieces = split(s.drop_last(), sep);
        if s.last() == sep {
            pieces.push(Seq::<char>::empty())
        } else {
            pieces.update(pieces.len() - 1, pieces.last().push(s.last()))
        }
    }
}

/// `s` begins with `prefix`.
pub open spec fn starts_with(s: Seq<char>, prefix: Seq<char>) -> bool {
    prefix.is_prefix_of(s)
}

/// `pat` occurs in `s` at position `i`.
pub open spec fn occurs_at(s: Seq<char>, pat: Seq<char>, i: int) -> bool {
    0 <= i && i + pat.len() <= s.len() && s.subrange(i, i + pat.len()) == pat
}

/// `pat` occurs somewhere in `s`.
pub open spec fn contains_text(s: Seq<char>, pat: Seq<char>) -> bool {
    exists|i: int| occurs_at(s, pat, i)
}

/// Every occurrence of `pat` in `s` replaced by `rep`, occurrences taken from
/// the left and not overlapping, as `str::replace` does for a non-empty
/// pattern.
pub open spec fn replace_all(s: Seq<char>, pat: Seq<char>, rep: Seq<char>) -> Seq<char>
    decreases s.len(),
{
    if pat.len() == 0 || s.len() < pat.len() {
        s
    } else if s.take(pat.len() as int) == pat {
        rep + replace_all(s.skip(pat.len() as int), pat, rep)
    } else {
        seq![s[0]] + replace_all(s.drop_first(), pat, rep)
    }
}

/// The pieces of `parts` with `sep` between each two neighbours.
pub open spec fn join(parts: Seq<Seq<char>>, sep: Seq<char>) -> Seq<char>
    decreases parts.len(),
{
    if parts.len() == 0 {
        Seq::<char>::empty()
    } else if parts.len() == 1 {
        parts[0]
    } else {
        join(parts.drop_last(), sep) + sep + parts.last()
    }
}

/// The character of the decimal digit `d`.
pub open spec fn digit_char(d: nat) -> char {
    (48 + d) as char
}

/// The decimal digits of `n`, most significant first, without leading zeros.
pub open spec fn decimal_digits(n: nat) -> Seq<char>
    decreases n,
{
    if n < 10 {
        seq![digit_char(n)]
    } else {
        decimal_digits(n / 10).push(digit_char(n % 10))
    }
}

/// `n` written in decimal, with a leading `-` when it is negative.
pub open spec fn decimal(n: int) -> Seq<char> {
    if n < 0 {
        seq!['-'] + decimal_digits((-n) as nat)
    } else {
        decimal_digits(n as nat)
    }
}

/// The first `n` characters of `s`, or all of `s` when it is shorter.
pub open spec fn take_at_most(s: Seq<char>, n: nat) -> Seq<char> {
    if s.len() <= n {
        s
    } else {
        s.take(n as int)
    }
}

/// The texts of a sequence of strings.
pub open spec fn texts(v: Seq<String>) -> Seq<Seq<char>> {
    v.map_values(|s: String| s@)
}

/// The texts of a sequence of character vectors.
pub open spec fn char_texts(v: Seq<Vec<char>>) -> Seq<Seq<char>> {
    v.map_values(|s: Vec<char>| s@)
}

// ---------------------------------------------------------------------------
// Conversions between strings and character vectors
// ---------------------------------------------------------------------------

/// Appends one character to a string (`String::push`).
#[verifier::external_body]
pub fn push_char(s: &mut String, c: char)
    ensures
        final(s)@ == old(s)@.push(c),
{
    s.push(c);
}

/// The characters of `s`, in order.
pub fn chars_of(s: &str) -> (r: Vec<char>)
    ensures
        r@ == s@,
{
    let mut it = s.chars();
    let mut out: Vec<char> = Vec::new();
    loop
        invariant
            out@ + it.remaining() == s@,
            it.obeys_prophetic_iter_laws(),
            it.decrease() is Some,
        decreases it.decrease()->0,
    {
        let ghost before = it.remaining();
        match it.next() {
            Some(c) => {
                out.push(c);
                assert(out@ + it.remaining() == s@) by {
                    assert(before == seq![c] + before.drop_first());
                }
            },
            None => {
                assert(out@ == s@);
                return out;
            },
        }
    }
}

/// The string made of the characters `v[from..to]`.
pub fn string_of(v: &Vec<char>, from: usize, to: usize) -> (r: String)
    requires
        from <= to <= v.len(),
    ensures
        r@ == v@.subrange(from as int, to as int),
{
    let mut out = String::new();
    let mut i: usize = from;
    while i < to
        invariant
            from <= i <= to <= v.len(),
            out@ == v@.subrange(from as int, i as int),
        decreases to - i,
    {
        push_char(&mut out, v[i]);
        i = i + 1;
        assert(out@ == v@.subrange(from as int, i as int));
    }
    out
}

/// The string made of all characters of `v`.
pub fn string_of_all(v: &Vec<char>) -> (r: String)
    ensures
        r@ == v@,
{
    let r = string_of(v, 0, v.len());
    assert(v@.subrange(0, v@.len() as int) == v@);
    r
}

/// Appends the characters of `v` to `out`.
pub fn append_chars(out: &mut String, v: &Vec<char>)
    ensures
        final(out)@ == old(out)@ + v@,
{
    let mut i: usize = 0;
    while i < v.len()
        invariant
            i <= v.len(),
            out@ == old(out)@ + v@.take(i as int),
        decreases v.len() - i,
    {
        push_char(out, v[i]);
        i = i + 1;
        assert(out@ == old(out)@ + v@.take(i as int));
    }
    assert(v@.take(v@.len() as int) == v@);
}

/// Appends the characters of `s` to `out`.
pub fn append_str(out: &mut String, s: &str)
    ensures
        final(out)@ == old(out)@ + s@,
{
    let v = chars_of(s);
    append_chars(out, &v);
}

// ---------------------------------------------------------------------------
// Replacement
// ---------------------------------------------------------------------------

/// Whether `pat` occurs in `s` at position `i`.
pub fn occurs_at_exec(s: &Vec<char>, pat: &Vec<char>, i: usize) -> (r: bool)
    requires
        i <= s.len(),
    ensures
        r == occurs_at(s@, pat@, i as int),
{
    if pat.len() > s.len() - i {
        return false;
    }
    let mut k: usize = 0;
    while k < pat.len()
        invariant
            i + pat.len() <= s.len(),
            k <= pat.len(),
            forall|j: int| 0 <= j < k ==> s@[i + j] == pat@[j],
        decreases pat.len() - k,
    {
        if s[i + k] != pat[k] {
            assert(s@.subrange(i as int, i + pat.len())[k as int] != pat@[k as int]);
            return false;
        }
        k = k + 1;
    }
    assert(s@.subrange(i as int, i + pat.len()) == pat@);
    true
}

proof fn lemma_replace_step(s: Seq<char>, pat: Seq<char>, rep: Seq<char>, i: int)
    requires
        pat.len() > 0,
        0 <= i < s.len(),
    ensures
        s.len() - i >= pat.len() && occurs_at(s, pat, i) ==> replace_all(s.skip(i), pat, rep)
            == rep + replace_all(s.skip(i + pat.len()), pat, rep),
        !(s.len() - i >= pat.len() && occurs_at(s, pat, i)) ==> replace_all(s.skip(i), pat, rep)
            == seq![s[i]] + replace_all(s.skip(i + 1), pat, rep),
{
    let t = s.skip(i);
    assert(t.take(pat.len() as int) == s.subrange(i, i + pat.len()) || t.len() < pat.len());
    assert(t.skip(pat.len() as int) == s.skip(i + pat.len()) || t.len() < pat.len());
    assert(t.drop_first() == s.skip(i + 1));
    if t.len() < pat.len() {
        assert(!occurs_at(s, pat, i));
        let u = t.drop_first();
        assert(u.len() < pat.len());
        assert(replace_all(u, pat, rep) == u);
        assert(seq![t[0]] + u == t);
    }
}

/// Every occurrence of `pat` in `s` replaced by `rep` (`str::replace`).
pub fn replace_all_exec(s: &Vec<char>, pat: &Vec<char>, rep: &Vec<char>) -> (r: Vec<char>)
    requires
        pat.len() > 0,
    ensures
        r@ == replace_all(s@, pat@, rep@),
{
    let mut out: Vec<char> = Vec::new();
    let mut i: usize = 0;
    assert(s@.skip(0) == s@);
    while i < s.len()
        invariant
            pat.len() > 0,
            i <= s.len(),
            replace_all(s@, pat@, rep@) == out@ + replace_all(s@.skip(i as int), pat@, rep@),
        decreases s.len() - i,
    {
        proof {
            lemma_replace_step(s@, pat@, rep@, i as int);
        }
        if occurs_at_exec(s, pat, i) {
            let mut k: usize = 0;
            let ghost before = out@;
            while k < rep.len()
                invariant
                    k <= rep.len(),
                    out@ == before + rep@.take(k as int),
                decreases rep.len() - k,
            {
                out.push(rep[k]);
                k = k + 1;
                assert(out@ == before + rep@.take(k as int));
            }
            assert(rep@.take(rep@.len() as int) == rep@);
            assert(out@ == before + rep@);
            assert(before + (rep@ + replace_all(s@.skip(i + pat@.len()), pat@, rep@)) == out@
                + replace_all(s@.skip(i + pat@.len()), pat@, rep@));
            i = i + pat.len();
        } else {
            let ghost before = out@;
            out.push(s[i]);
            assert(before + (seq![s@[i as int]] + replace_all(s@.skip(i + 1), pat@, rep@)) == out@
                + replace_all(s@.skip(i + 1), pat@, rep@));
            i = i + 1;
        }
    }
    assert(s@.skip(s@.len() as int).len() == 0);
    assert(replace_all(s@.skip(s@.len() as int), pat@, rep@) == Seq::<char>::empty());
    assert(out@ + Seq::<char>::empty() == out@);
    out
}

// ---------------------------------------------------------------------------
// Prefixes and joining
// ---------------------------------------------------------------------------

/// Whether `s` begins with `prefix`.
pub fn starts_with_exec(s: &Vec<char>, prefix: &Vec<char>) -> (r: bool)
    ensures
        r == starts_with(s@, prefix@),
{
    let r = occurs_at_exec(s, prefix, 0);
    assert(r == starts_with(s@, prefix@)) by {
        if prefix@.len() <= s@.len() {
            assert(s@.subrange(0, prefix@.len() as int) =~= s@.subrange(0int, 0int + prefix@.len()));
        }
    }
    r
}

proof fn lemma_join_push(parts: Seq<Seq<char>>, sep: Seq<char>, p: Seq<char>)
    ensures
        join(parts.push(p), sep) == if parts.len() == 0 {
            p
        } else {
            join(parts, sep) + sep + p
        },
{
    assert(parts.push(p).drop_last() == parts);
}

/// The pieces of `parts` with `sep` between each two neighbours
/// (`[T]::join`).
pub fn join_exec(parts: &Vec<Vec<char>>, sep: &Vec<char>) -> (r: Vec<char>)
    ensures
        r@ == join(char_texts(parts@), sep@),
{
    let mut out: Vec<char> = Vec::new();
    let mut i: usize = 0;
    while i < parts.len()
        invariant
            i <= parts.len(),
            out@ == join(char_texts(parts@).take(i as int), sep@),
        decreases parts.len() - i,
    {
        proof {
            lemma_join_push(char_texts(parts@).take(i as int), sep@, parts@[i as int]@);
            assert(char_texts(parts@).take(i as int).push(parts@[i as int]@) == char_texts(
                parts@,
            ).take(i + 1));
        }
        let mut v: Vec<char> = Vec::new();
        if i > 0 {
            v = sep.clone();
        }
        let mut k: usize = 0;
        let ghost before = out@;
        let ghost glue = v@;
        while k < v.len()
            invariant
                k <= v.len(),
                v@ == glue,
                out@ == before + glue.take(k as int),
            decreases v.len() - k,
        {
            out.push(v[k]);
            k = k + 1;
            assert(out@ == before + glue.take(k as int));
        }
        assert(glue.take(glue.len() as int) == glue);
        let ghost mid = out@;
        let piece = &parts[i];
        k = 0;
        while k < piece.len()
            invariant
                k <= piece.len(),
                out@ == mid + piece@.take(k as int),
            decreases piece.len() - k,
        {
            out.push(piece[k]);
            k = k + 1;
            assert(out@ == mid + piece@.take(k as int));
        }
        assert(piece@.take(piece@.len() as int) == piece@);
        i = i + 1;
    }
    assert(char_texts(parts@).take(parts@.len() as int) == char_texts(parts@));
    out
}

// ---------------------------------------------------------------------------
// Comparing, slicing, trimming and splitting character vectors
// ---------------------------------------------------------------------------

/// Whether `a` and `b` hold the same characters.
pub fn same_chars(a: &Vec<char>, b: &Vec<char>) -> (r: bool)
    ensures
        r == (a@ == b@),
{
    if a.len() != b.len() {
        return false;
    }
    let mut i: usize = 0;
    while i < a.len()
        invariant
            a.len() == b.len(),
            i <= a.len(),
            forall|j: int| 0 <= j < i ==> a@[j] == b@[j],
        decreases a.len() - i,
    {
        if a[i] != b[i] {
            return false;
        }
        i = i + 1;
    }
    assert(a@ =~= b@);
    true
}

/// The characters `v[from..to]`.
pub fn slice_chars(v: &Vec<char>, from: usize, to: usize) -> (r: Vec<char>)
    requires
        from <= to <= v.len(),
    ensures
        r@ == v@.subrange(from as int, to as int),
{
    let mut out: Vec<char> = Vec::new();
    let mut i: usize = from;
    while i < to
        invariant
            from <= i <= to <= v.len(),
            out@ == v@.subrange(from as int, i as int),
        decreases to - i,
    {
        out.push(v[i]);
        i = i + 1;
        assert(out@ == v@.subrange(from as int, i as int));
    }
    out
}

/// Whether `c` is whitespace (`char::is_whitespace`).
pub fn is_white_space_exec(c: char) -> (r: bool)
    ensures
        r == is_white_space(c),
{
    let u: u32 = c as u32;
    (0x9 <= u && u <= 0xd) || u == 0x20 || u == 0x85 || u == 0xa0 || u == 0x1680 || (0x2000 <= u
        && u <= 0x200a) || u == 0x2028 || u == 0x2029 || u == 0x202f || u == 0x205f || u == 0x3000
}

/// `v` with leading and trailing whitespace removed (`str::trim`).
pub fn trim_exec(v: &Vec<char>) -> (r: Vec<char>)
    ensures
        r@ == trim(v@),
{
    let n: usize = v.len();
    let mut a: usize = 0;
    assert(v@.skip(0) == v@);
    while a < n && is_white_space_exec(v[a])
        invariant
            n == v.len(),
            a <= n,
            trim_start(v@) == trim_start(v@.skip(a as int)),
        decreases n - a,
    {
        assert(v@.skip(a as int).drop_first() == v@.skip(a + 1));
        a = a + 1;
    }
    assert(trim_start(v@) == v@.skip(a as int));
    let mut b: usize = n;
    assert(v@.skip(a as int) == v@.subrange(a as int, n as int));
    while b > a && is_white_space_exec(v[b - 1])
        invariant
            n == v.len(),
            a <= b <= n,
            trim_end(v@.skip(a as int)) == trim_end(v@.subrange(a as int, b as int)),
        decreases b - a,
    {
        assert(v@.subrange(a as int, b as int).drop_last() == v@.subrange(a as int, b - 1));
        b = b - 1;
    }
    slice_chars(v, a, b)
}

/// The pieces of `v` between occurrences of `sep` (`str::split`).
pub fn split_exec(v: &Vec<char>, sep: char) -> (r: Vec<Vec<char>>)
    ensures
        char_texts(r@) == split(v@, sep),
{
    let mut pieces: Vec<Vec<char>> = Vec::new();
    let mut cur: Vec<char> = Vec::new();
    let mut i: usize = 0;
    assert(v@.take(0) == Seq::<char>::empty());
    assert(char_texts(pieces@).push(cur@) == split(v@.take(0), sep));
    while i < v.len()
        invariant
            i <= v.len(),
            char_texts(pieces@).push(cur@) == split(v@.take(i as int), sep),
        decreases v.len() - i,
    {
        let c = v[i];
        let ghost before = char_texts(pieces@).push(cur@);
        assert(v@.take(i + 1).drop_last() == v@.take(i as int));
        assert(v@.take(i + 1).last() == c);
        if c == sep {
            let done = cur;
            pieces.push(done);
            cur = Vec::new();
            assert(char_texts(pieces@) == before);
        } else {
            cur.push(c);
            assert(char_texts(pieces@).push(cur@) == before.update(
                before.len() - 1,
                before.last().push(c),
            ));
        }
        i = i + 1;
    }
    assert(v@.take(v@.len() as int) == v@);
    pieces.push(cur);
    pieces
}

// ---------------------------------------------------------------------------
// Decimal numbers
// ---------------------------------------------------------------------------

/// The character of the decimal digit `d`.
fn digit_char_exec(d: u64) -> (r: char)
    requires
        d < 10,
    ensures
        r == digit_char(d as nat),
{
    let b: u8 = 48u8 + (d as u8);
    b as char
}

/// The decimal digits of `n`, most significant first.
pub fn decimal_digits_exec(n: u64) -> (r: Vec<char>)
    ensures
        r@ == decimal_digits(n as nat),
{
    let mut out: Vec<char> = Vec::new();
    let mut m: u64 = n;
    while m >= 10
        invariant
            decimal_digits(n as nat) == decimal_digits(m as nat) + out@,
        decreases m,
    {
        let d = digit_char_exec(m % 10);
        let ghost before = out@;
        out.insert(0, d);
        assert(decimal_digits(m as nat) == decimal_digits((m / 10) as nat).push(d));
        assert(decimal_digits((m / 10) as nat).push(d) + before == decimal_digits((m / 10) as nat)
            + out@);
        m = m / 10;
    }
    let d = digit_char_exec(m);
    let ghost before = out@;
    out.insert(0, d);
    assert(seq![d] + before == out@);
    out
}

/// `n` in decimal, with a leading `-` when it is negative (`i64`'s
/// `Display`).
pub fn decimal_exec(n: i64) -> (r: Vec<char>)
    ensures
        r@ == decimal(n as int),
{
    if n < 0 {
        let magnitude: u64 = if n == i64::MIN {
            9223372036854775808u64
        } else {
            (-n) as u64
        };
        let digits = decimal_digits_exec(magnitude);
        let mut out: Vec<char> = Vec::new();
        out.push('-');
        let mut i: usize = 0;
        while i < digits.len()
            invariant
                i <= digits.len(),
                out@ == seq!['-'] + digits@.take(i as int),
            decreases digits.len() - i,
        {
            out.push(digits[i]);
            i = i + 1;
            assert(out@ == seq!['-'] + digits@.take(i as int));
        }
        assert(digits@.take(digits@.len() as int) == digits@);
        out
    } else {
        decimal_digits_exec(n as u64)
    }
}

/// Appends the characters of `more` to `out`.
pub fn push_all(out: &mut Vec<char>, more: &Vec<char>)
    ensures
        final(out)@ == old(out)@ + more@,
{
    let mut i: usize = 0;
    while i < more.len()
        invariant
            i <= more.len(),
            out@ == old(out)@ + more@.take(i as int),
        decreases more.len() - i,
    {
        out.push(more[i]);
        i = i + 1;
        assert(out@ == old(out)@ + more@.take(i as int));
    }
    assert(more@.take(more@.len() as int) == more@);
}

/// A string holding the text `s`.
pub fn owned(s: &str) -> (r: String)
    ensures
        r@ == s@,
{
    let mut out = String::new();
    append_str(&mut out, s);
    out
}

// ---------------------------------------------------------------------------
// Facts about replacement
// ---------------------------------------------------------------------------

/// Replacing a pattern that does not occur changes nothing.
pub proof fn lemma_replace_absent(s: Seq<char>, pat: Seq<char>, rep: Seq<char>)
    requires
        !contains_text(s, pat),
    ensures
        replace_all(s, pat, rep) == s,
    decreases s.len(),
{
    if pat.len() == 0 {
        assert(s.subrange(0, 0) =~= pat);
        assert(occurs_at(s, pat, 0));
    } else if s.len() >= pat.len() {
        if s.take(pat.len() as int) == pat {
            assert(occurs_at(s, pat, 0));
        }
        let rest = s.drop_first();
        assert forall|i: int| !occurs_at(rest, pat, i) by {
            if occurs_at(rest, pat, i) {
                assert(rest.subrange(i, i + pat.len()) == s.subrange(i + 1, i + 1 + pat.len()));
                assert(occurs_at(s, pat, i + 1));
            }
        }
        lemma_replace_absent(rest, pat, rep);
        assert(seq![s[0]] + rest == s);
    }
}

/// A text that begins with the pattern has it replaced first.
pub proof fn lemma_replace_leading(pat: Seq<char>, s: Seq<char>, rep: Seq<char>)
    requires
        pat.len() > 0,
    ensures
        replace_all(pat + s, pat, rep) == rep + replace_all(s, pat, rep),
{
    let t = pat + s;
    assert(t.take(pat.len() as int) == pat);
    assert(t.skip(pat.len() as int) == s);
}

/// A longer replacement never gives a shorter result.
pub proof fn lemma_replace_len_monotone(s: Seq<char>, pat: Seq<char>, a: Seq<char>, b: Seq<char>)
    requires
        a.len() <= b.len(),
    ensures
        replace_all(s, pat, a).len() <= replace_all(s, pat, b).len(),
    decreases s.len(),
{
    if pat.len() == 0 || s.len() < pat.len() {
    } else if s.take(pat.len() as int) == pat {
        lemma_replace_len_monotone(s.skip(pat.len() as int), pat, a, b);
    } else {
        lemma_replace_len_monotone(s.drop_first(), pat, a, b);
    }
}

/// In a text where the pattern occurs, different replacements give
/// different results.
pub proof fn lemma_replace_injective(s: Seq<char>, pat: Seq<char>, a: Seq<char>, b: Seq<char>)
    requires
        pat.len() > 0,
        contains_text(s, pat),
        replace_all(s, pat, a) == replace_all(s, pat, b),
    ensures
        a == b,
    decreases s.len(),
{
    let i = choose|i: int| occurs_at(s, pat, i);
    let n = pat.len() as int;
    if s.take(n) == pat {
        let ra = replace_all(s.skip(n), pat, a);
        let rb = replace_all(s.skip(n), pat, b);
        if a.len() < b.len() {
            lemma_replace_len_monotone(s.skip(n), pat, a, b);
            assert((a + ra).len() < (b + rb).len());
        } else if b.len() < a.len() {
            lemma_replace_len_monotone(s.skip(n), pat, b, a);
            assert((b + rb).len() < (a + ra).len());
        } else {
            assert(a =~= (a + ra).take(a.len() as int));
            assert(b =~= (b + rb).take(b.len() as int));
        }
    } else {
        assert(i != 0);
        let rest = s.drop_first();
        assert(rest.subrange(i - 1, i - 1 + n) =~= s.subrange(i, i + n));
        assert(occurs_at(rest, pat, i - 1));
        let fa = replace_all(rest, pat, a);
        let fb = replace_all(rest, pat, b);
        assert(fa =~= (seq![s[0]] + fa).drop_first());
        assert(fb =~= (seq![s[0]] + fb).drop_first());
        lemma_replace_injective(rest, pat, a, b);
    }
}

} // verus!
