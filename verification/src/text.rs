//! Character-sequence helpers shared by the parsers and renderers.

use vstd::prelude::*;

verus! {

/// Unicode `White_Space` characters, the set that `char::is_whitespace` uses.
pub open spec fn is_ws(c: char) -> bool {
    ||| ('\u{9}' <= c && c <= '\u{d}')
    ||| c == ' '
    ||| c == '\u{85}'
    ||| c == '\u{a0}'
    ||| c == '\u{1680}'
    ||| ('\u{2000}' <= c && c <= '\u{200a}')
    ||| c == '\u{2028}'
    ||| c == '\u{2029}'
    ||| c == '\u{202f}'
    ||| c == '\u{205f}'
    ||| c == '\u{3000}'
}

/// Whether `c` is white space.
pub fn char_is_whitespace(c: char) -> (b: bool)
    ensures
        b == is_ws(c),
{
    ('\u{9}' <= c && c <= '\u{d}') || c == ' ' || c == '\u{85}' || c == '\u{a0}' || c
        == '\u{1680}' || ('\u{2000}' <= c && c <= '\u{200a}') || c == '\u{2028}' || c
        == '\u{2029}' || c == '\u{202f}' || c == '\u{205f}' || c == '\u{3000}'
}

/// The characters of `s`, in order.
pub fn chars_of(s: &str) -> (v: Vec<char>)
    ensures
        v@ == s@,
{
    let mut v: Vec<char> = Vec::new();
    for c in it: s.chars()
        invariant
            it.seq() == s@,
            v@ == it.seq().take(it.index() as int),
    {
        v.push(c);
    }
    v
}

/// Calls `String::push`, which appends `c` to `s`; the contract claims
/// just that of the characters of `s`.
#[verifier::external_body]
pub(crate) fn push_char(s: &mut String, c: char)
    ensures
        final(s)@ == old(s)@.push(c),
{
    s.push(c);
}

/// A `String` holding exactly the characters of `cs`.
pub fn string_of(cs: &[char]) -> (s: String)
    ensures
        s@ == cs@,
{
    let mut s = String::new();
    let mut i: usize = 0;
    while i < cs.len()
        invariant
            i <= cs@.len(),
            s@ == cs@.take(i as int),
        decreases cs@.len() - i,
    {
        push_char(&mut s, cs[i]);
        i = i + 1;
        assert(s@ =~= cs@.take(i as int));
    }
    assert(cs@.take(i as int) =~= cs@);
    s
}


/// The characters `v[from..to]` as a new vector.
pub fn sub_chars(v: &Vec<char>, from: usize, to: usize) -> (r: Vec<char>)
    requires
        from <= to <= v@.len(),
    ensures
        r@ == v@.subrange(from as int, to as int),
{
    let mut r: Vec<char> = Vec::new();
    let mut i: usize = from;
    while i < to
        invariant
            from <= i <= to <= v@.len(),
            r@ == v@.subrange(from as int, i as int),
        decreases to - i,
    {
        r.push(v[i]);
        i = i + 1;
        assert(r@ =~= v@.subrange(from as int, i as int));
    }
    r
}

/// `s` without its leading white space.
pub open spec fn trim_start(s: Seq<char>) -> Seq<char>
    decreases s.len(),
{
    if s.len() > 0 && is_ws(s[0]) {
        trim_start(s.drop_first())
    } else {
        s
    }
}

/// `s` without its trailing white space.
pub open spec fn trim_end(s: Seq<char>) -> Seq<char>
    decreases s.len(),
{
    if s.len() > 0 && is_ws(s.last()) {
        trim_end(s.drop_last())
    } else {
        s
    }
}

/// `s` without leading and trailing white space, as `str::trim` gives it.
pub open spec fn trim(s: Seq<char>) -> Seq<char> {
    trim_end(trim_start(s))
}

/// What `trim_start` leaves does not start with white space.
proof fn lemma_trim_start_head(s: Seq<char>)
    ensures
        trim_start(s).len() == 0 || !is_ws(trim_start(s)[0]),
    decreases s.len(),
{
    if s.len() > 0 && is_ws(s[0]) {
        lemma_trim_start_head(s.drop_first());
    }
}

/// `trim_end` keeps a prefix, which does not end with white space.
proof fn lemma_trim_end_prefix(s: Seq<char>)
    ensures
        trim_end(s).len() <= s.len(),
        trim_end(s) == s.take(trim_end(s).len() as int),
        trim_end(s).len() == 0 || !is_ws(trim_end(s).last()),
    decreases s.len(),
{
    if s.len() > 0 && is_ws(s.last()) {
        lemma_trim_end_prefix(s.drop_last());
        assert(s.drop_last().take(trim_end(s).len() as int) =~= s.take(trim_end(s).len() as int));
    } else {
        assert(s.take(s.len() as int) =~= s);
    }
}

/// Trimming twice is trimming once.
pub proof fn lemma_trim_idempotent(s: Seq<char>)
    ensures
        trim(trim(s)) == trim(s),
{
    let u = trim_start(s);
    let v = trim_end(u);
    lemma_trim_start_head(s);
    lemma_trim_end_prefix(u);
    if v.len() > 0 {
        assert(v[0] == u[0]);
    }
    assert(trim_start(v) == v);
}

/// The bounds `(a, b)` with `s[a..b] == trim(s)`.
pub fn trim_bounds(s: &Vec<char>) -> (r: (usize, usize))
    ensures
        r.0 <= r.1 <= s@.len(),
        s@.subrange(r.0 as int, r.1 as int) == trim(s@),
{
    let n = s.len();
    let mut a: usize = 0;
    assert(s@.subrange(0, n as int) =~= s@);
    while a < n && char_is_whitespace(s[a])
        invariant
            a <= n == s@.len(),
            trim_start(s@) == trim_start(s@.subrange(a as int, n as int)),
        decreases n - a,
    {
        assert(s@.subrange(a as int, n as int).drop_first() =~= s@.subrange(a + 1, n as int));
        a = a + 1;
    }
    let mut b: usize = n;
    while b > a && char_is_whitespace(s[b - 1])
        invariant
            a <= b <= n == s@.len(),
            trim(s@) == trim_end(s@.subrange(a as int, b as int)),
        decreases b - a,
    {
        assert(s@.subrange(a as int, b as int).drop_last() =~= s@.subrange(a as int, b - 1));
        b = b - 1;
    }
    (a, b)
}

/// `trim(s)` as a new vector.
pub fn trim_chars(s: &Vec<char>) -> (r: Vec<char>)
    ensures
        r@ == trim(s@),
{
    let (a, b) = trim_bounds(s);
    sub_chars(s, a, b)
}

/// Whether `p` is a prefix of `s`.
pub open spec fn starts_with(s: Seq<char>, p: Seq<char>) -> bool {
    p.len() <= s.len() && s.take(p.len() as int) == p
}

/// Whether `s` starts with `p`.
pub fn has_prefix(s: &Vec<char>, p: &Vec<char>) -> (b: bool)
    ensures
        b == starts_with(s@, p@),
{
    if p.len() > s.len() {
        return false;
    }
    let mut i: usize = 0;
    while i < p.len()
        invariant
            p@.len() <= s@.len(),
            i <= p@.len(),
            s@.take(i as int) == p@.take(i as int),
        decreases p@.len() - i,
    {
        if s[i] != p[i] {
            assert(s@.take(p@.len() as int)[i as int] != p@[i as int]);
            return false;
        }
        i = i + 1;
        assert(s@.take(i as int) =~= p@.take(i as int));
    }
    assert(p@.take(i as int) =~= p@);
    true
}

/// Whether `sub` occurs in `s` at position `i`.
pub open spec fn occurs_at(s: Seq<char>, sub: Seq<char>, i: int) -> bool {
    0 <= i && i + sub.len() <= s.len() && s.subrange(i, i + sub.len()) == sub
}

/// Whether `sub` occurs somewhere in `s`.
pub open spec fn contains_seq(s: Seq<char>, sub: Seq<char>) -> bool {
    exists|i: int| occurs_at(s, sub, i)
}

/// Whether `sub` occurs in `s`.
pub fn contains_chars(s: &Vec<char>, sub: &Vec<char>) -> (b: bool)
    ensures
        b == contains_seq(s@, sub@),
{
    if sub.len() > s.len() {
        return false;
    }
    let last = s.len() - sub.len();
    let mut i: usize = 0;
    loop
        invariant
            last + sub@.len() == s@.len(),
            s@.len() <= usize::MAX,
            i <= last,
            forall|k: int| 0 <= k < i ==> !occurs_at(s@, sub@, k),
        decreases last - i,
    {
        let mut j: usize = 0;
        let mut same = true;
        while j < sub.len()
            invariant
                last + sub@.len() == s@.len(),
                s@.len() <= usize::MAX,
                i <= last,
                j <= sub@.len(),
                same ==> s@.subrange(i as int, i + j) == sub@.take(j as int),
                !same ==> !occurs_at(s@, sub@, i as int),
            decreases sub@.len() - j,
        {
            if same && s[i + j] != sub[j] {
                assert(s@.subrange(i as int, i + sub@.len())[j as int] != sub@[j as int]);
                same = false;
            }
            j = j + 1;
            if same {
                assert(s@.subrange(i as int, i + j) =~= sub@.take(j as int));
            }
        }
        if same {
            assert(sub@.take(j as int) =~= sub@);
            assert(occurs_at(s@, sub@, i as int));
            return true;
        }
        if i == last {
            assert forall|k: int| !occurs_at(s@, sub@, k) by {
                if 0 <= k && k + sub@.len() <= s@.len() {
                    assert(k <= i);
                }
            }
            return false;
        }
        i = i + 1;
    }
}

/// Number of characters before the first occurrence of `sep` in `s`
/// (all of `s` when `sep` does not occur).
pub open spec fn run_len(s: Seq<char>, sep: char) -> nat
    decreases s.len(),
{
    if s.len() == 0 || s[0] == sep {
        0
    } else {
        1 + run_len(s.drop_first(), sep)
    }
}

pub proof fn lemma_run_len(s: Seq<char>, sep: char)
    ensures
        run_len(s, sep) <= s.len(),
        forall|i: int| 0 <= i < run_len(s, sep) ==> s[i] != sep,
        run_len(s, sep) < s.len() ==> s[run_len(s, sep) as int] == sep,
    decreases s.len(),
{
    if s.len() > 0 && s[0] != sep {
        lemma_run_len(s.drop_first(), sep);
        assert forall|i: int| 0 <= i < run_len(s, sep) implies s[i] != sep by {
            if i > 0 {
                assert(s[i] == s.drop_first()[i - 1]);
            }
        }
    }
}

/// `s` split at every `sep`, as `str::split` with a character does: always at
/// least one piece.
pub open spec fn split_on(s: Seq<char>, sep: char) -> Seq<Seq<char>>
    decreases s.len(),
{
    if run_len(s, sep) >= s.len() {
        seq![s]
    } else {
        seq![s.take(run_len(s, sep) as int)] + split_on(s.skip(run_len(s, sep) + 1int), sep)
    }
}

/// The views of a sequence of character vectors.
pub open spec fn views(v: Seq<Vec<char>>) -> Seq<Seq<char>> {
    v.map_values(|x: Vec<char>| x@)
}

/// Exec form of `split_on`.
pub fn split_chars(s: &Vec<char>, sep: char) -> (r: Vec<Vec<char>>)
    ensures
        views(r@) == split_on(s@, sep),
{
    let n = s.len();
    let mut out: Vec<Vec<char>> = Vec::new();
    let mut i: usize = 0;
    assert(s@.skip(0) =~= s@);
    loop
        invariant
            i <= n == s@.len(),
            split_on(s@, sep) == views(out@) + split_on(s@.skip(i as int), sep),
        decreases n - i,
    {
        let ghost rest = s@.skip(i as int);
        let mut j: usize = i;
        while j < n && s[j] != sep
            invariant
                i <= j <= n == s@.len(),
                rest == s@.skip(i as int),
                run_len(rest, sep) == (j - i) + run_len(s@.skip(j as int), sep),
            decreases n - j,
        {
            assert(s@.skip(j as int).drop_first() =~= s@.skip(j + 1));
            j = j + 1;
        }
        assert(run_len(rest, sep) == j - i);
        assert(rest.take((j - i) as int) =~= s@.subrange(i as int, j as int));
        let piece = sub_chars(s, i, j);
        out.push(piece);
        if j == n {
            assert(split_on(rest, sep) == seq![rest]);
            assert(rest =~= s@.subrange(i as int, j as int));
            assert(views(out@) =~= split_on(s@, sep));
            return out;
        }
        assert(rest.skip((j - i) + 1) =~= s@.skip(j + 1));
        assert(views(out@) =~= views(out@.drop_last()).push(piece@));
        assert(views(out@) + split_on(s@.skip(j + 1), sep) =~= views(out@.drop_last()) + split_on(
            rest,
            sep,
        ));
        i = j + 1;
    }
}

/// Number of leading characters of `s` that are not white space.
pub open spec fn word_len(s: Seq<char>) -> nat
    decreases s.len(),
{
    if s.len() == 0 || is_ws(s[0]) {
        0
    } else {
        1 + word_len(s.drop_first())
    }
}

/// The white-space separated words of `s`, as `str::split_whitespace` yields them.
pub open spec fn words(s: Seq<char>) -> Seq<Seq<char>>
    decreases s.len(),
{
    if s.len() == 0 {
        seq![]
    } else if is_ws(s[0]) {
        words(s.drop_first())
    } else {
        proof {
            lemma_word_len(s);
        }
        seq![s.take(word_len(s) as int)] + words(s.skip(word_len(s) as int))
    }
}

pub proof fn lemma_word_len(s: Seq<char>)
    ensures
        word_len(s) <= s.len(),
    decreases s.len(),
{
    if s.len() > 0 && !is_ws(s[0]) {
        lemma_word_len(s.drop_first());
    }
}

/// Exec form of `words`.
pub fn split_whitespace(s: &Vec<char>) -> (r: Vec<Vec<char>>)
    ensures
        views(r@) == words(s@),
{
    let n = s.len();
    let mut out: Vec<Vec<char>> = Vec::new();
    let mut i: usize = 0;
    assert(s@.skip(0) =~= s@);
    while i < n
        invariant
            i <= n == s@.len(),
            words(s@) == views(out@) + words(s@.skip(i as int)),
        decreases n - i,
    {
        let ghost rest = s@.skip(i as int);
        if char_is_whitespace(s[i]) {
            assert(rest.drop_first() =~= s@.skip(i + 1));
            i = i + 1;
        } else {
            let mut j: usize = i;
            while j < n && !char_is_whitespace(s[j])
                invariant
                    i <= j <= n == s@.len(),
                    rest == s@.skip(i as int),
                    word_len(rest) == (j - i) + word_len(s@.skip(j as int)),
                decreases n - j,
            {
                assert(s@.skip(j as int).drop_first() =~= s@.skip(j + 1));
                j = j + 1;
            }
            assert(word_len(rest) == j - i);
            assert(rest.take((j - i) as int) =~= s@.subrange(i as int, j as int));
            assert(rest.skip((j - i) as int) =~= s@.skip(j as int));
            let piece = sub_chars(s, i, j);
            out.push(piece);
            assert(views(out@) =~= views(out@.drop_last()).push(piece@));
            assert(views(out@) + words(s@.skip(j as int)) =~= views(out@.drop_last()) + words(rest));
            i = j;
        }
    }
    assert(words(s@.skip(i as int)) =~= Seq::<Seq<char>>::empty());
    assert(views(out@) + Seq::<Seq<char>>::empty() =~= views(out@));
    out
}

/// `l` without one trailing carriage return.
pub open spec fn strip_cr(l: Seq<char>) -> Seq<char> {
    if l.len() > 0 && l.last() == '\r' {
        l.drop_last()
    } else {
        l
    }
}

/// The lines of `s`, as `str::lines` yields them: split at `\n`, a `\r`
/// before the `\n` dropped, and no empty line after a final `\n`.
pub open spec fn lines(s: Seq<char>) -> Seq<Seq<char>>
    decreases s.len(),
{
    if s.len() == 0 {
        seq![]
    } else if run_len(s, '\n') >= s.len() {
        seq![s]
    } else {
        seq![strip_cr(s.take(run_len(s, '\n') as int))] + lines(s.skip(run_len(s, '\n') + 1int))
    }
}

/// Exec form of `lines`.
pub fn split_lines(s: &Vec<char>) -> (r: Vec<Vec<char>>)
    ensures
        views(r@) == lines(s@),
{
    let n = s.len();
    let mut out: Vec<Vec<char>> = Vec::new();
    let mut i: usize = 0;
    assert(s@.skip(0) =~= s@);
    while i < n
        invariant
            i <= n == s@.len(),
            lines(s@) == views(out@) + lines(s@.skip(i as int)),
        decreases n - i,
    {
        let ghost rest = s@.skip(i as int);
        let mut j: usize = i;
        while j < n && s[j] != '\n'
            invariant
                i <= j <= n == s@.len(),
                rest == s@.skip(i as int),
                run_len(rest, '\n') == (j - i) + run_len(s@.skip(j as int), '\n'),
            decreases n - j,
        {
            assert(s@.skip(j as int).drop_first() =~= s@.skip(j + 1));
            j = j + 1;
        }
        assert(run_len(rest, '\n') == j - i);
        if j == n {
            assert(rest =~= s@.subrange(i as int, j as int));
            let piece = sub_chars(s, i, j);
            out.push(piece);
            assert(views(out@) =~= views(out@.drop_last()).push(piece@));
            assert(views(out@) =~= lines(s@));
            return out;
        }
        let mut e = j;
        if e > i && s[e - 1] == '\r' {
            e = e - 1;
        }
        assert(strip_cr(rest.take((j - i) as int)) =~= s@.subrange(i as int, e as int));
        let piece = sub_chars(s, i, e);
        out.push(piece);
        assert(rest.skip((j - i) + 1) =~= s@.skip(j + 1));
        assert(views(out@) =~= views(out@.drop_last()).push(piece@));
        assert(views(out@) + lines(s@.skip(j + 1)) =~= views(out@.drop_last()) + lines(rest));
        i = j + 1;
    }
    assert(lines(s@.skip(i as int)) =~= Seq::<Seq<char>>::empty());
    assert(views(out@) + Seq::<Seq<char>>::empty() =~= views(out@));
    out
}

/// Appends the characters of `v` to `s`.
pub fn push_chars(s: &mut String, v: &Vec<char>)
    ensures
        final(s)@ == old(s)@ + v@,
{
    let mut i: usize = 0;
    while i < v.len()
        invariant
            i <= v@.len(),
            s@ == old(s)@ + v@.take(i as int),
        decreases v@.len() - i,
    {
        push_char(s, v[i]);
        i = i + 1;
        assert(s@ =~= old(s)@ + v@.take(i as int));
    }
    assert(v@.take(i as int) =~= v@);
}

/// Number of bytes of the UTF-8 encoding of `c`.
pub open spec fn char_width(c: char) -> nat {
    if (c as u32) < 0x80 {
        1
    } else if (c as u32) < 0x800 {
        2
    } else if (c as u32) < 0x10000 {
        3
    } else {
        4
    }
}

/// Number of bytes of the UTF-8 encoding of `s` (what `str::len` returns).
pub open spec fn utf8_len(s: Seq<char>) -> nat
    decreases s.len(),
{
    if s.len() == 0 {
        0
    } else {
        char_width(s[0]) + utf8_len(s.drop_first())
    }
}

pub proof fn lemma_utf8_len_is_encoding_len(s: Seq<char>)
    ensures
        utf8_len(s) == vstd::utf8::encode_utf8(s).len(),
    decreases s.len(),
{
    if s.len() > 0 {
        lemma_utf8_len_is_encoding_len(s.drop_first());
        let c = s[0];
        vstd::utf8::char_is_scalar(c);
    }
}

pub proof fn lemma_utf8_len_concat(a: Seq<char>, b: Seq<char>)
    ensures
        utf8_len(a + b) == utf8_len(a) + utf8_len(b),
    decreases a.len(),
{
    if a.len() > 0 {
        assert((a + b).drop_first() =~= a.drop_first() + b);
        lemma_utf8_len_concat(a.drop_first(), b);
    } else {
        assert(a + b =~= b);
    }
}

pub proof fn lemma_utf8_len_take_step(s: Seq<char>, k: int)
    requires
        0 <= k < s.len(),
    ensures
        utf8_len(s.take(k + 1)) == utf8_len(s.take(k)) + char_width(s[k]),
{
    assert(s.take(k + 1) =~= s.take(k) + seq![s[k]]);
    lemma_utf8_len_concat(s.take(k), seq![s[k]]);
    assert(seq![s[k]].drop_first() =~= Seq::<char>::empty());
    assert(utf8_len(Seq::<char>::empty()) == 0);
    assert(utf8_len(seq![s[k]]) == char_width(s[k]) + utf8_len(seq![s[k]].drop_first()));
}

/// Width in bytes of the UTF-8 encoding of `c`.
pub fn char_width_of(c: char) -> (w: usize)
    ensures
        w == char_width(c),
{
    let u = c as u32;
    if u < 0x80 {
        1
    } else if u < 0x800 {
        2
    } else if u < 0x10000 {
        3
    } else {
        4
    }
}

/// Length of the longest prefix of `s` whose encoding fits in `max` bytes.
pub open spec fn fit_len(s: Seq<char>, max: nat) -> nat
    decreases s.len(),
{
    if s.len() == 0 || utf8_len(s) <= max {
        s.len()
    } else {
        fit_len(s.drop_last(), max)
    }
}

/// `s` cut down to at most `max` bytes at a character boundary, with a note
/// appended when anything was cut.
pub open spec fn truncated(s: Seq<char>, max: nat) -> Seq<char> {
    if utf8_len(s) <= max {
        s
    } else {
        s.take(fit_len(s, max) as int) + "\n\n... truncated ...\n"@
    }
}

proof fn lemma_fit_len(s: Seq<char>, max: nat, k: int)
    requires
        0 <= k < s.len(),
        utf8_len(s.take(k)) <= max,
        utf8_len(s.take(k + 1)) > max,
    ensures
        fit_len(s, max) == k,
    decreases s.len(),
{
    assert(s =~= s.take(k + 1) + s.skip(k + 1));
    lemma_utf8_len_concat(s.take(k + 1), s.skip(k + 1));
    let d = s.drop_last();
    assert(utf8_len(s) > max);
    assert(fit_len(s, max) == fit_len(d, max));
    if k == s.len() - 1 {
        assert(d =~= s.take(k));
    } else {
        assert(d.take(k) =~= s.take(k));
        assert(d.take(k + 1) =~= s.take(k + 1));
        lemma_fit_len(d, max, k);
    }
}

/// Truncation keeps text that fits whole; otherwise it keeps the longest
/// prefix whose encoding fits in `max` bytes.
pub proof fn lemma_truncation_keeps_longest_fit(s: Seq<char>, max: nat)
    ensures
        utf8_len(s) <= max ==> truncated(s, max) == s,
        fit_len(s, max) <= s.len(),
        utf8_len(s.take(fit_len(s, max) as int)) <= max,
        fit_len(s, max) < s.len() ==> utf8_len(s.take(fit_len(s, max) + 1int)) > max,
    decreases s.len(),
{
    if s.len() == 0 || utf8_len(s) <= max {
        assert(s.take(s.len() as int) =~= s);
    } else {
        let d = s.drop_last();
        lemma_truncation_keeps_longest_fit(d, max);
        let f = fit_len(d, max);
        assert(s.take(f as int) =~= d.take(f as int));
        if f < d.len() {
            assert(s.take(f + 1int) =~= d.take(f + 1int));
        } else {
            assert(s.take(f + 1int) =~= s);
        }
    }
}

/// Cuts `text` down to `max_bytes` bytes at a character boundary and marks
/// the cut; text that fits is returned unchanged.
pub fn truncate_text(text: String, max_bytes: usize) -> (r: String)
    ensures
        r@ == truncated(text@, max_bytes as nat),
{
    let cs = chars_of(text.as_str());
    let mut k: usize = 0;
    let mut used: usize = 0;
    assert(cs@.take(0) =~= Seq::<char>::empty());
    while k < cs.len() && char_width_of(cs[k]) <= max_bytes - used
        invariant
            k <= cs@.len(),
            cs@ == text@,
            used == utf8_len(cs@.take(k as int)),
            used <= max_bytes,
        decreases cs@.len() - k,
    {
        proof {
            lemma_utf8_len_take_step(cs@, k as int);
        }
        used = used + char_width_of(cs[k]);
        k = k + 1;
    }
    if k == cs.len() {
        assert(cs@.take(k as int) =~= cs@);
        return text;
    }
    proof {
        lemma_utf8_len_take_step(cs@, k as int);
        assert(cs@ =~= cs@.take(k + 1) + cs@.skip(k + 1));
        lemma_utf8_len_concat(cs@.take(k + 1), cs@.skip(k + 1));
        lemma_fit_len(cs@, max_bytes as nat, k as int);
    }
    let kept = sub_chars(&cs, 0, k);
    let mut r = String::new();
    push_chars(&mut r, &kept);
    r.append("\n\n... truncated ...\n");
    r
}

/// The character for digit `d`.
pub open spec fn digit_char(d: nat) -> char {
    ((48 + d) as u32) as char
}

/// The decimal representation of `n`, as `{}` formats an unsigned integer.
pub open spec fn decimal(n: nat) -> Seq<char>
    decreases n,
{
    if n < 10 {
        seq![digit_char(n)]
    } else {
        decimal(n / 10).push(digit_char(n % 10))
    }
}

/// The decimal representation of `n`.
pub fn decimal_chars(n: usize) -> (r: Vec<char>)
    ensures
        r@ == decimal(n as nat),
    decreases n,
{
    let d = (n % 10) as u8;
    let c = (48u8 + d) as char;
    if n < 10 {
        vec![c]
    } else {
        let mut v = decimal_chars(n / 10);
        v.push(c);
        v
    }
}

/// Whether the characters of `v` are exactly those of `s`.
pub fn eq_str(v: &Vec<char>, s: &str) -> (b: bool)
    ensures
        b == (v@ == s@),
{
    let w = chars_of(s);
    if v.len() != w.len() {
        return false;
    }
    let mut i: usize = 0;
    while i < v.len()
        invariant
            v@.len() == w@.len(),
            w@ == s@,
            i <= v@.len(),
            v@.take(i as int) == w@.take(i as int),
        decreases v@.len() - i,
    {
        if v[i] != w[i] {
            assert(v@[i as int] != w@[i as int]);
            return false;
        }
        i = i + 1;
        assert(v@.take(i as int) =~= w@.take(i as int));
    }
    assert(v@ =~= v@.take(i as int));
    assert(w@ =~= w@.take(i as int));
    true
}

/// A `String` holding the characters of `v`.
pub fn string_from_chars(v: &Vec<char>) -> (s: String)
    ensures
        s@ == v@,
{
    let mut s = String::new();
    push_chars(&mut s, v);
    s
}

/// Each line of `ls` after `prefix` and followed by a newline.
pub open spec fn each_line(ls: Seq<Seq<char>>, prefix: Seq<char>) -> Seq<char>
    decreases ls.len(),
{
    if ls.len() == 0 {
        Seq::empty()
    } else {
        each_line(ls.drop_last(), prefix) + prefix + ls.last() + "\n"@
    }
}

/// Appends `ls[from..]`, each line after `prefix` and followed by a newline.
pub fn push_each_line(s: &mut String, ls: &Vec<Vec<char>>, from: usize, prefix: &str)
    requires
        from <= ls@.len(),
    ensures
        final(s)@ == old(s)@ + each_line(views(ls@).skip(from as int), prefix@),
{
    let mut j: usize = from;
    assert(views(ls@).skip(from as int).take(0) =~= Seq::<Seq<char>>::empty());
    while j < ls.len()
        invariant
            from <= j <= ls@.len(),
            s@ == old(s)@ + each_line(views(ls@).skip(from as int).take(j - from), prefix@),
        decreases ls@.len() - j,
    {
        s.append(prefix);
        push_chars(s, &ls[j]);
        s.append("\n");
        proof {
            let t = views(ls@).skip(from as int).take(j - from + 1);
            assert(t.drop_last() =~= views(ls@).skip(from as int).take(j - from));
            assert(t.last() == ls@[j as int]@);
        }
        j = j + 1;
    }
    assert(views(ls@).skip(from as int).take(j - from) =~= views(ls@).skip(from as int));
}

/// Whether `c` occurs in `s`.
pub open spec fn has_char(s: Seq<char>, c: char) -> bool {
    exists|i: int| 0 <= i < s.len() && s[i] == c
}

/// Whether `c` occurs in `v`.
pub fn contains_char(v: &Vec<char>, c: char) -> (b: bool)
    ensures
        b == has_char(v@, c),
{
    let mut i: usize = 0;
    while i < v.len()
        invariant
            i <= v@.len(),
            forall|k: int| 0 <= k < i ==> v@[k] != c,
        decreases v@.len() - i,
    {
        if v[i] == c {
            return true;
        }
        i = i + 1;
    }
    false
}

/// `s` without surrounding white space.
pub fn trimmed(s: &str) -> (r: String)
    ensures
        r@ == trim(s@),
{
    string_from_chars(&trim_chars(&chars_of(s)))
}

/// `n` spaces.
pub open spec fn spaces(n: nat) -> Seq<char> {
    Seq::new(n, |i: int| ' ')
}

/// `s` padded with spaces to `width` characters (`{:<width}`).
pub open spec fn pad_right(s: Seq<char>, width: nat) -> Seq<char> {
    if s.len() >= width {
        s
    } else {
        s + spaces((width - s.len()) as nat)
    }
}

/// Appends `t` padded with spaces to `width` characters.
pub fn push_padded(s: &mut String, t: &str, width: usize)
    ensures
        final(s)@ == old(s)@ + pad_right(t@, width as nat),
{
    let n = chars_of(t).len();
    s.append(t);
    if n < width {
        let mut i: usize = n;
        let ghost base = s@;
        while i < width
            invariant
                n <= i <= width,
                s@ == base + spaces((i - n) as nat),
            decreases width - i,
        {
            push_char(s, ' ');
            i = i + 1;
            assert(s@ =~= base + spaces((i - n) as nat));
        }
        assert(s@ =~= old(s)@ + pad_right(t@, width as nat));
    } else {
        assert(s@ =~= old(s)@ + pad_right(t@, width as nat));
    }
}

/// Appends the decimal representation of `n`.
pub fn push_decimal(s: &mut String, n: usize)
    ensures
        final(s)@ == old(s)@ + decimal(n as nat),
{
    push_chars(s, &decimal_chars(n));
}

} // verus!
