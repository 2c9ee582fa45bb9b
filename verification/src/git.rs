//! Git working-tree status: the change kinds, the entries of
//! `git status --porcelain=v1 -z`, and the texts of the Git preview pane.

use vstd::prelude::*;

use crate::path_order::{text_order, Order};
use crate::text::{
    char_width, char_width_of, chars_of, push_char, push_chars, split_lines, string_from_chars,
    sub_chars, trim, trim_chars, truncate_text, truncated, lines, utf8_len, views,
};

verus! {

/// How Git sees a path.
#[derive(Clone, Copy, Debug, PartialEq, Eq, Structural)]
pub enum ChangeKind {
    Unchanged,
    Changed,
    Untracked,
    Deleted,
}

impl ChangeKind {
    pub open spec fn label_spec(self) -> &'static str {
        match self {
            ChangeKind::Unchanged => "clean",
            ChangeKind::Changed => "changed",
            ChangeKind::Untracked => "new",
            ChangeKind::Deleted => "deleted",
        }
    }

    pub open spec fn short_spec(self) -> &'static str {
        match self {
            ChangeKind::Unchanged => " ",
            ChangeKind::Changed => "M",
            ChangeKind::Untracked => "?",
            ChangeKind::Deleted => "D",
        }
    }

    /// The word shown for the kind.
    pub fn label(self) -> (s: &'static str)
        ensures
            s@ == self.label_spec()@,
    {
        match self {
            ChangeKind::Unchanged => "clean",
            ChangeKind::Changed => "changed",
            ChangeKind::Untracked => "new",
            ChangeKind::Deleted => "deleted",
        }
    }

    /// The one-letter marker shown for the kind.
    pub fn short(self) -> (s: &'static str)
        ensures
            s@ == self.short_spec()@,
    {
        match self {
            ChangeKind::Unchanged => " ",
            ChangeKind::Changed => "M",
            ChangeKind::Untracked => "?",
            ChangeKind::Deleted => "D",
        }
    }
}

/// A file that can be deployed, with its Git state.
#[derive(Debug)]
pub struct Candidate {
    pub path: String,
    pub kind: ChangeKind,
    pub status: String,
}

/// The mathematical value of a `Candidate`.
pub struct CandidateView {
    pub path: Seq<char>,
    pub kind: ChangeKind,
    pub status: Seq<char>,
}

impl View for Candidate {
    type V = CandidateView;

    open spec fn view(&self) -> CandidateView {
        CandidateView { path: self.path@, kind: self.kind, status: self.status@ }
    }
}

/// The views of a sequence of candidates.
pub open spec fn candidate_views(v: Seq<Candidate>) -> Seq<CandidateView> {
    v.map_values(|c: Candidate| c@)
}

impl Candidate {
    /// A copy of the candidate.
    pub fn duplicate(&self) -> (c: Candidate)
        ensures
            c@ == self@,
    {
        Candidate { path: self.path.clone(), kind: self.kind, status: self.status.clone() }
    }
}

// ---- git status --porcelain=v1 -z ----

/// Number of leading bytes of `b` that are not NUL.
pub open spec fn field_len(b: Seq<u8>) -> nat
    decreases b.len(),
{
    if b.len() == 0 || b[0] == 0 {
        0
    } else {
        1 + field_len(b.drop_first())
    }
}

pub proof fn lemma_field_len(b: Seq<u8>)
    ensures
        field_len(b) <= b.len(),
    decreases b.len(),
{
    if b.len() > 0 && b[0] != 0 {
        lemma_field_len(b.drop_first());
    }
}

/// The non-empty NUL-separated fields of `b`.
pub open spec fn nul_fields(b: Seq<u8>) -> Seq<Seq<u8>>
    decreases b.len(),
{
    if b.len() == 0 {
        seq![]
    } else if b[0] == 0 {
        nul_fields(b.drop_first())
    } else {
        proof {
            lemma_field_len(b);
        }
        seq![b.take(field_len(b) as int)] + nul_fields(b.skip(field_len(b) as int))
    }
}

/// The views of a sequence of byte vectors.
pub open spec fn byte_views(v: Seq<Vec<u8>>) -> Seq<Seq<u8>> {
    v.map_values(|x: Vec<u8>| x@)
}

fn sub_bytes(v: &[u8], from: usize, to: usize) -> (r: Vec<u8>)
    requires
        from <= to <= v@.len(),
    ensures
        r@ == v@.subrange(from as int, to as int),
{
    let mut r: Vec<u8> = Vec::new();
    let mut i: usize = from;
    while i < to
        invariant
            from <= i <= to <= v@.len(),
            r@ == v@.subrange(from as int, i as int),
        decreases to - i,
    {
        r.push(v[i]);
        i = i + 1;
        assert(r@ =~= v@.subrange(from as int, i as int));
    }
    r
}

/// Exec form of `nul_fields`.
pub fn split_nul_fields(b: &[u8]) -> (r: Vec<Vec<u8>>)
    ensures
        byte_views(r@) == nul_fields(b@),
{
    let n = b.len();
    let mut out: Vec<Vec<u8>> = Vec::new();
    let mut i: usize = 0;
    assert(b@.skip(0) =~= b@);
    while i < n
        invariant
            i <= n == b@.len(),
            nul_fields(b@) == byte_views(out@) + nul_fields(b@.skip(i as int)),
        decreases n - i,
    {
        let ghost rest = b@.skip(i as int);
        if b[i] == 0 {
            assert(rest.drop_first() =~= b@.skip(i + 1));
            i = i + 1;
        } else {
            let mut j: usize = i;
            while j < n && b[j] != 0
                invariant
                    i <= j <= n == b@.len(),
                    rest == b@.skip(i as int),
                    field_len(rest) == (j - i) + field_len(b@.skip(j as int)),
                decreases n - j,
            {
                assert(b@.skip(j as int).drop_first() =~= b@.skip(j + 1));
                j = j + 1;
            }
            assert(field_len(rest) == j - i);
            assert(rest.take((j - i) as int) =~= b@.subrange(i as int, j as int));
            assert(rest.skip((j - i) as int) =~= b@.skip(j as int));
            let piece = sub_bytes(b, i, j);
            out.push(piece);
            assert(byte_views(out@) =~= byte_views(out@.drop_last()).push(piece@));
            assert(byte_views(out@) + nul_fields(b@.skip(j as int)) =~= byte_views(
                out@.drop_last(),
            ) + nul_fields(rest));
            i = j;
        }
    }
    assert(nul_fields(b@.skip(i as int)) =~= Seq::<Seq<u8>>::empty());
    assert(byte_views(out@) + Seq::<Seq<u8>>::empty() =~= byte_views(out@));
    out
}

/// The text that `String::from_utf8_lossy` makes of `bytes`: the decoded
/// characters, with U+FFFD in place of each invalid sequence.
pub uninterp spec fn utf8_lossy(bytes: Seq<u8>) -> Seq<char>;

/// Calls `String::from_utf8_lossy`. The contract claims that the text is a
/// function of the bytes alone (`utf8_lossy`), and, as std documents, that
/// valid UTF-8 decodes to exactly its characters. How invalid sequences are
/// replaced is left to the name.
#[verifier::external_body]
pub(crate) fn decode_lossy(bytes: &[u8]) -> (s: String)
    ensures
        s@ == utf8_lossy(bytes@),
        vstd::utf8::valid_utf8(bytes@) ==> s@ == vstd::utf8::decode_utf8(bytes@),
{
    String::from_utf8_lossy(bytes).into_owned()
}

/// The number of characters of `e` whose encoding takes exactly `n` bytes, if
/// `n` falls on a character boundary.
pub open spec fn char_count_at_byte(e: Seq<char>, n: nat) -> Option<nat>
    decreases e.len(),
{
    if n == 0 {
        Some(0)
    } else if e.len() == 0 || char_width(e[0]) > n {
        None
    } else {
        match char_count_at_byte(e.drop_first(), (n - char_width(e[0])) as nat) {
            Some(k) => Some(k + 1),
            None => None,
        }
    }
}

/// Exec form of `char_count_at_byte` for the small byte counts that the
/// status codes need.
pub fn char_count_at(e: &Vec<char>, n: usize) -> (r: Option<usize>)
    requires
        n <= 16,
    ensures
        r matches Some(k) ==> char_count_at_byte(e@, n as nat) == Some(k as nat),
        r is None ==> char_count_at_byte(e@, n as nat) is None,
{
    let mut i: usize = 0;
    let mut left: usize = n;
    assert(e@.skip(0) =~= e@);
    while left > 0
        invariant
            i <= e@.len(),
            i + left <= 16,
            left <= n,
            char_count_at_byte(e@, n as nat) == match char_count_at_byte(
                e@.skip(i as int),
                left as nat,
            ) {
                Some(k) => Some((k + i) as nat),
                None => None,
            },
        decreases left,
    {
        if i == e.len() {
            return None;
        }
        let w = char_width_of(e[i]);
        if w > left {
            return None;
        }
        assert(e@.skip(i as int).drop_first() =~= e@.skip(i + 1));
        left = left - w;
        i = i + 1;
    }
    Some(i)
}

pub proof fn lemma_count_le_len(e: Seq<char>, n: nat, k: nat)
    requires
        char_count_at_byte(e, n) == Some(k),
    ensures
        k <= e.len(),
    decreases e.len(),
{
    if n > 0 {
        lemma_count_le_len(e.drop_first(), (n - char_width(e[0])) as nat, (k - 1) as nat);
    }
}

/// Whether the encoding of `e` takes at least `n` bytes.
fn utf8_len_at_least(e: &Vec<char>, n: usize) -> (b: bool)
    requires
        n <= 8,
    ensures
        b == (utf8_len(e@) >= n),
{
    let mut i: usize = 0;
    let mut used: usize = 0;
    assert(e@.take(0) =~= Seq::<char>::empty());
    while i < e.len() && used < n
        invariant
            i <= e@.len(),
            used == utf8_len(e@.take(i as int)),
            used < n + 4,
            n <= 8,
        decreases e@.len() - i,
    {
        proof {
            crate::text::lemma_utf8_len_take_step(e@, i as int);
        }
        used = used + char_width_of(e[i]);
        i = i + 1;
    }
    proof {
        assert(e@ =~= e@.take(i as int) + e@.skip(i as int));
        crate::text::lemma_utf8_len_concat(e@.take(i as int), e@.skip(i as int));
        if i == e@.len() {
            assert(e@.skip(i as int).len() == 0);
        }
    }
    used >= n
}

/// The first status byte is `c` (an ASCII character).
pub open spec fn x_is(e: Seq<char>, c: char) -> bool {
    e.len() > 0 && e[0] == c
}

/// The second status byte is `c` (an ASCII character).
pub open spec fn y_is(e: Seq<char>, c: char) -> bool {
    e.len() > 1 && char_width(e[0]) == 1 && e[1] == c
}

/// The change kind of a status entry.
pub open spec fn entry_kind(e: Seq<char>) -> ChangeKind {
    if x_is(e, '?') && y_is(e, '?') {
        ChangeKind::Untracked
    } else if x_is(e, 'D') || y_is(e, 'D') {
        ChangeKind::Deleted
    } else {
        ChangeKind::Changed
    }
}

pub open spec fn is_rename(e: Seq<char>) -> bool {
    x_is(e, 'R') || y_is(e, 'R')
}

pub open spec fn is_copy(e: Seq<char>) -> bool {
    x_is(e, 'C') || y_is(e, 'C')
}

/// The candidates that the decoded status entries `es` describe, before
/// sorting: an entry is `XY PATH`; an entry shorter than four bytes is
/// skipped; a rename or copy is followed by an entry with the old path, and a
/// rename also lists the old path as deleted. An entry whose third or fourth
/// byte does not start a character is skipped.
pub open spec fn entry_candidates(es: Seq<Seq<char>>) -> Seq<CandidateView>
    decreases es.len(),
{
    if es.len() == 0 {
        seq![]
    } else {
        let e = es[0];
        if utf8_len(e) < 4 {
            entry_candidates(es.drop_first())
        } else {
            match (char_count_at_byte(e, 2), char_count_at_byte(e, 3)) {
                (Some(k2), Some(k3)) => {
                    let c = CandidateView {
                        path: e.skip(k3 as int),
                        kind: entry_kind(e),
                        status: e.take(k2 as int),
                    };
                    if (is_rename(e) || is_copy(e)) && es.len() > 1 {
                        let old = if is_rename(e) {
                            seq![CandidateView { path: es[1], kind: ChangeKind::Deleted, status: "R-old"@ }]
                        } else {
                            seq![]
                        };
                        seq![c] + old + entry_candidates(es.skip(2))
                    } else {
                        seq![c] + entry_candidates(es.drop_first())
                    }
                },
                _ => entry_candidates(es.drop_first()),
            }
        }
    }
}

/// The decoded text of each status field.
pub open spec fn decoded(f: Seq<Seq<u8>>) -> Seq<Seq<char>> {
    f.map_values(|b: Seq<u8>| utf8_lossy(b))
}

/// The candidates that the status fields `f` describe, before sorting.
pub open spec fn status_candidates(f: Seq<Seq<u8>>) -> Seq<CandidateView> {
    entry_candidates(decoded(f))
}

/// `v` is ordered by path (`str::cmp`).
pub open spec fn sorted_by_path(v: Seq<CandidateView>) -> bool {
    forall|i: int, j: int| 0 <= i < j < v.len() ==> text_order(v[i].path, v[j].path) != Order::Greater
}

fn char_of_byte_is(e: &Vec<char>, i: usize, c: char) -> (b: bool)
    ensures
        b == (i < e@.len() && e@[i as int] == c),
{
    i < e.len() && e[i] == c
}

fn x_is_exec(e: &Vec<char>, c: char) -> (b: bool)
    ensures
        b == x_is(e@, c),
{
    char_of_byte_is(e, 0, c)
}

fn y_is_exec(e: &Vec<char>, c: char) -> (b: bool)
    ensures
        b == y_is(e@, c),
{
    e.len() > 1 && char_width_of(e[0]) == 1 && e[1] == c
}

fn text_order_of_strings(a: &String, b: &String) -> (o: Order)
    ensures
        o == text_order(a@, b@),
{
    crate::path_order::text_order_of_str(a.as_str(), b.as_str())
}

proof fn lemma_insert_multiset<A>(s: Seq<A>, i: int, x: A)
    requires
        0 <= i <= s.len(),
    ensures
        s.insert(i, x).to_multiset() == s.to_multiset().insert(x),
{
    broadcast use vstd::seq_lib::group_to_multiset_ensures;

    let t = s.insert(i, x);
    assert(t.remove(i) =~= s);
    assert(t[i] == x);
    assert(t.to_multiset().remove(x) == s.to_multiset());
    assert(t.contains(x));
    assert(t.to_multiset().count(x) > 0);
    assert(t.to_multiset() =~= s.to_multiset().insert(x));
}

/// Whether a candidate has path `q`.
pub open spec fn path_is(q: Seq<char>) -> spec_fn(CandidateView) -> bool {
    |c: CandidateView| c.path == q
}

/// The candidates of `v` with path `q`, in their order.
pub open spec fn with_path(v: Seq<CandidateView>, q: Seq<char>) -> Seq<CandidateView> {
    v.filter(path_is(q))
}

proof fn lemma_with_path_none(b: Seq<CandidateView>, q: Seq<char>)
    requires
        forall|k: int| 0 <= k < b.len() ==> (#[trigger] b[k]).path != q,
    ensures
        with_path(b, q) == Seq::<CandidateView>::empty(),
    decreases b.len(),
{
    reveal(Seq::filter);
    if b.len() > 0 {
        lemma_with_path_none(b.drop_last(), q);
    }
}

/// Inserting `x` at `p`, before every candidate with its path, adds it at
/// the end of the candidates with its path.
proof fn lemma_with_path_insert(before: Seq<CandidateView>, p: int, x: CandidateView, q: Seq<char>)
    requires
        0 <= p <= before.len(),
        forall|k: int| p <= k < before.len() ==> (#[trigger] before[k]).path != x.path,
    ensures
        with_path(before.insert(p, x), q) == if q == x.path {
            with_path(before, q).push(x)
        } else {
            with_path(before, q)
        },
{
    let a = before.take(p);
    let b = before.skip(p);
    let one = seq![x];
    assert(before =~= a + b);
    assert(before.insert(p, x) =~= (a + one) + b);
    Seq::filter_distributes_over_add(a + one, b, path_is(q));
    Seq::filter_distributes_over_add(a, one, path_is(q));
    Seq::filter_distributes_over_add(a, b, path_is(q));
    reveal(Seq::filter);
    assert(one.drop_last() =~= Seq::<CandidateView>::empty());
    assert(one.drop_last().filter(path_is(q)) =~= Seq::<CandidateView>::empty());
    if q == x.path {
        assert forall|k: int| 0 <= k < b.len() implies (#[trigger] b[k]).path != q by {
            assert(b[k] == before[p + k]);
        }
        lemma_with_path_none(b, q);
        assert(one.filter(path_is(q)) =~= seq![x]);
        assert(with_path(before.insert(p, x), q) =~= with_path(before, q).push(x));
    } else {
        assert(one.filter(path_is(q)) =~= Seq::<CandidateView>::empty());
        assert(with_path(before.insert(p, x), q) =~= with_path(before, q));
    }
}

/// Sorts candidates by path, keeping the order of equal paths (`sort_by` on
/// `path.cmp`).
pub fn sort_candidates_by_path(v: &Vec<Candidate>) -> (r: Vec<Candidate>)
    ensures
        candidate_views(r@).to_multiset() == candidate_views(v@).to_multiset(),
        sorted_by_path(candidate_views(r@)),
        forall|q: Seq<char>|
            #[trigger] with_path(candidate_views(r@), q) == with_path(candidate_views(v@), q),
{
    let mut out: Vec<Candidate> = Vec::new();
    let mut i: usize = 0;
    assert(candidate_views(v@).take(0) =~= Seq::<CandidateView>::empty());
    assert(candidate_views(out@) =~= Seq::<CandidateView>::empty());
    while i < v.len()
        invariant
            i <= v@.len(),
            candidate_views(out@).to_multiset() == candidate_views(v@).take(i as int).to_multiset(),
            sorted_by_path(candidate_views(out@)),
            forall|q: Seq<char>|
                #[trigger] with_path(candidate_views(out@), q) == with_path(
                    candidate_views(v@).take(i as int),
                    q,
                ),
        decreases v@.len() - i,
    {
        let x = v[i].duplicate();
        let mut p: usize = 0;
        while p < out.len() && text_order_of_strings(&out[p].path, &x.path) != Order::Greater
            invariant
                p <= out@.len(),
                forall|k: int| 0 <= k < p ==> text_order(out@[k].path@, x.path@) != Order::Greater,
            decreases out@.len() - p,
        {
            p = p + 1;
        }
        let ghost before = candidate_views(out@);
        out.insert(p, x);
        proof {
            assert(candidate_views(out@) =~= before.insert(p as int, x@));
            lemma_insert_multiset(before, p as int, x@);
            assert(candidate_views(v@).take(i + 1) =~= candidate_views(v@).take(i as int).push(
                v@[i as int]@,
            ));
            vstd::seq_lib::to_multiset_build(candidate_views(v@).take(i as int), v@[i as int]@);
            assert forall|k: int| p <= k < before.len() implies (#[trigger] before[k]).path
                != x@.path by {
                crate::path_order::lemma_text_order_reflexive(x@.path);
                if k > p {
                    assert(text_order(before[p as int].path, before[k].path) != Order::Greater);
                }
            }
            let taken = candidate_views(v@).take(i as int);
            assert(taken.insert(taken.len() as int, x@) =~= taken.push(x@));
            assert forall|q: Seq<char>| #[trigger]
                with_path(candidate_views(out@), q) == with_path(
                    candidate_views(v@).take(i + 1),
                    q,
                ) by {
                lemma_with_path_insert(before, p as int, x@, q);
                lemma_with_path_insert(taken, taken.len() as int, x@, q);
            }
            let ov = candidate_views(out@);
            assert forall|a: int, b: int| 0 <= a < b < ov.len() implies text_order(
                ov[a].path,
                ov[b].path,
            ) != Order::Greater by {
                if a < p && b == p {
                } else if a == p && b > p {
                    // x < before[p] <= before[b - 1]
                    crate::path_order::lemma_text_order_swap(before[p as int].path, x@.path);
                    if b - 1 > p {
                        crate::path_order::lemma_text_order_transitive(
                            x@.path,
                            before[p as int].path,
                            before[b - 1].path,
                        );
                    }
                } else if a < p && b > p {
                } else if a > p {
                } else {
                }
            }
        }
        i = i + 1;
    }
    assert(candidate_views(v@).take(i as int) =~= candidate_views(v@));
    out
}

/// The views of strings.
pub open spec fn text_views(v: Seq<String>) -> Seq<Seq<char>> {
    v.map_values(|s: String| s@)
}

/// Decodes each status field.
fn decode_fields(f: &Vec<Vec<u8>>) -> (r: Vec<String>)
    ensures
        text_views(r@) == decoded(byte_views(f@)),
{
    let mut out: Vec<String> = Vec::new();
    let mut i: usize = 0;
    while i < f.len()
        invariant
            i <= f@.len(),
            text_views(out@) == decoded(byte_views(f@)).take(i as int),
        decreases f@.len() - i,
    {
        let d = decode_lossy(f[i].as_slice());
        let ghost before = text_views(out@);
        out.push(d);
        assert(text_views(out@) =~= before.push(d@));
        assert(decoded(byte_views(f@)).take(i + 1) =~= decoded(byte_views(f@)).take(i as int).push(
            utf8_lossy(f@[i as int]@),
        ));
        i = i + 1;
    }
    assert(decoded(byte_views(f@)).take(i as int) =~= decoded(byte_views(f@)));
    out
}

/// The candidates that decoded `git status --porcelain=v1 -z` entries
/// describe, in the order of the entries.
pub fn candidates_from_entries(entries: &Vec<String>) -> (r: Vec<Candidate>)
    ensures
        candidate_views(r@) == entry_candidates(text_views(entries@)),
{
    let ghost es = text_views(entries@);
    let mut out: Vec<Candidate> = Vec::new();
    let mut i: usize = 0;
    assert(es.skip(0) =~= es);
    while i < entries.len()
        invariant
            i <= entries@.len(),
            es == text_views(entries@),
            entry_candidates(es) == candidate_views(out@) + entry_candidates(es.skip(i as int)),
        decreases entries@.len() - i,
    {
        let ghost rest = es.skip(i as int);
        assert(rest[0] == entries@[i as int]@);
        let e = chars_of(entries[i].as_str());
        let k2 = char_count_at(&e, 2);
        let k3 = char_count_at(&e, 3);
        let long_enough = utf8_len_at_least(&e, 4);
        if !long_enough {
            assert(rest.drop_first() =~= es.skip(i + 1));
            i = i + 1;
        } else {
            match (k2, k3) {
                (Some(k2), Some(k3)) => {
                    proof {
                        lemma_count_le_len(e@, 2, k2 as nat);
                        lemma_count_le_len(e@, 3, k3 as nat);
                    }
                    let status = string_from_chars(&sub_chars(&e, 0, k2));
                    let path = string_from_chars(&sub_chars(&e, k3, e.len()));
                    let rename = x_is_exec(&e, 'R') || y_is_exec(&e, 'R');
                    let copy = x_is_exec(&e, 'C') || y_is_exec(&e, 'C');
                    let kind = if x_is_exec(&e, '?') && y_is_exec(&e, '?') {
                        ChangeKind::Untracked
                    } else if x_is_exec(&e, 'D') || y_is_exec(&e, 'D') {
                        ChangeKind::Deleted
                    } else {
                        ChangeKind::Changed
                    };
                    let c = Candidate { path, kind, status };
                    let ghost cv = c@;
                    let ghost before = candidate_views(out@);
                    out.push(c);
                    if (rename || copy) && i + 1 < entries.len() {
                        assert(rest[1] == entries@[i + 1]@);
                        if rename {
                            let old = entries[i + 1].clone();
                            out.push(Candidate { path: old, kind: ChangeKind::Deleted, status: String::from_str("R-old") });
                        }
                        assert(rest.skip(2) =~= es.skip(i + 2));
                        assert(candidate_views(out@) =~= before + (if rename {
                            seq![cv, out@[out@.len() - 1]@]
                        } else {
                            seq![cv]
                        }));
                        i = i + 2;
                    } else {
                        assert(rest.drop_first() =~= es.skip(i + 1));
                        assert(candidate_views(out@) =~= before.push(cv));
                        i = i + 1;
                    }
                },
                _ => {
                    assert(rest.drop_first() =~= es.skip(i + 1));
                    i = i + 1;
                },
            }
        }
    }
    assert(es.skip(i as int) =~= Seq::<Seq<char>>::empty());
    assert(candidate_views(out@) + Seq::<CandidateView>::empty() =~= candidate_views(out@));
    out
}

/// The candidates that `git status --porcelain=v1 -z --untracked-files=all`
/// reports in `stdout`, sorted by path; those with the same path keep the
/// order in which Git reports them.
pub fn git_candidates_from_status(stdout: &[u8]) -> (r: Vec<Candidate>)
    ensures
        candidate_views(r@).to_multiset() == status_candidates(nul_fields(stdout@)).to_multiset(),
        sorted_by_path(candidate_views(r@)),
        forall|q: Seq<char>|
            #[trigger] with_path(candidate_views(r@), q) == with_path(
                status_candidates(nul_fields(stdout@)),
                q,
            ),
{
    let fields = split_nul_fields(stdout);
    let entries = decode_fields(&fields);
    let unsorted = candidates_from_entries(&entries);
    sort_candidates_by_path(&unsorted)
}

// ---- preview texts ----

/// `n` dashes.
pub open spec fn dashes(n: nat) -> Seq<char> {
    Seq::new(n, |i: int| '-')
}

fn push_dashes(s: &mut String, n: usize)
    ensures
        final(s)@ == old(s)@ + dashes(n as nat),
{
    let mut i: usize = 0;
    while i < n
        invariant
            i <= n,
            s@ == old(s)@ + dashes(i as nat),
        decreases n - i,
    {
        push_char(s, '-');
        i = i + 1;
        assert(s@ =~= old(s)@ + dashes(i as nat));
    }
}

/// The lines above a candidate's preview.
pub open spec fn preview_header(c: CandidateView) -> Seq<char> {
    "path:   "@ + c.path + "\n"@ + "kind:   "@ + c.kind.label_spec()@ + "\n"@ + "status: "@
        + c.status + "\n"@ + dashes(80) + "\n\n"@
}

/// The Git pane's text for a candidate: a header, then `body` (the diff or
/// the file preview), cut down to 200 000 bytes.
pub fn preview_candidate(candidate: &Candidate, body: &str) -> (r: String)
    ensures
        r@ == truncated(preview_header(candidate@) + body@, 200000),
{
    let mut text = String::new();
    text.append("path:   ");
    text.append(candidate.path.as_str());
    text.append("\n");
    text.append("kind:   ");
    text.append(candidate.kind.label());
    text.append("\n");
    text.append("status: ");
    text.append(candidate.status.as_str());
    text.append("\n");
    push_dashes(&mut text, 80);
    text.append("\n\n");
    text.append(body);
    assert(text@ =~= preview_header(candidate@) + body@);
    truncate_text(text, 200000)
}

/// The Git pane's text from `git diff` output.
pub open spec fn git_diff_preview_spec(success: bool, stdout: Seq<char>, stderr: Seq<char>) -> Seq<char> {
    if !success && trim(stdout).len() == 0 {
        "git diff failed:\n"@ + stderr
    } else if trim(stdout).len() == 0 {
        "No textual git diff output.\n\nThis may be a mode-only change, binary file, or a repository without HEAD."@
    } else {
        stdout
    }
}

/// The Git pane's text for a tracked file, from whether `git diff` succeeded
/// and what it printed.
pub fn git_diff_preview(success: bool, stdout: &str, stderr: &str) -> (r: String)
    ensures
        r@ == git_diff_preview_spec(success, stdout@, stderr@),
{
    let out = chars_of(stdout);
    let blank = trim_chars(&out).len() == 0;
    if !success && blank {
        let mut r = String::new();
        r.append("git diff failed:\n");
        r.append(stderr);
        r
    } else if blank {
        String::from_str(
            "No textual git diff output.\n\nThis may be a mode-only change, binary file, or a repository without HEAD.",
        )
    } else {
        String::from_str(stdout)
    }
}

/// The Git pane's text for an untracked directory.
pub fn untracked_directory_preview(path: &str) -> (r: String)
    ensures
        r@ == "NEW DIRECTORY\n\n"@ + path@
            + "\n\nGit usually reports individual files when --untracked-files=all is used."@,
{
    let mut r = String::from_str("NEW DIRECTORY\n\n");
    r.append(path);
    r.append("\n\nGit usually reports individual files when --untracked-files=all is used.");
    r
}

/// A NUL byte occurs among the first 8192 bytes.
pub open spec fn looks_binary(bytes: Seq<u8>) -> bool {
    exists|i: int| 0 <= i < bytes.len() && i < 8192 && bytes[i] == 0
}

/// Each line prefixed with `+ ` and ended with a newline.
pub open spec fn plus_lines(ls: Seq<Seq<char>>) -> Seq<char>
    decreases ls.len(),
{
    if ls.len() == 0 {
        Seq::empty()
    } else {
        plus_lines(ls.drop_last()) + "+ "@ + ls.last() + "\n"@
    }
}

/// The preview of a new text file: its first 500 lines, each after `+ `,
/// and a note when the text was cut.
pub open spec fn new_file_preview_spec(text: Seq<char>, cut: bool) -> Seq<char> {
    let ls = lines(text);
    let shown = if ls.len() > 500 {
        ls.take(500)
    } else {
        ls
    };
    "NEW FILE PREVIEW\n\n"@ + plus_lines(shown) + if cut {
        "\n... file preview truncated ...\n"@
    } else {
        Seq::empty()
    }
}

/// The Git pane's text for an untracked file with contents `bytes`.
pub open spec fn untracked_file_preview_spec(path: Seq<char>, bytes: Seq<u8>) -> Seq<char> {
    if looks_binary(bytes) {
        "NEW BINARY FILE\n\n"@ + path + "\n\n"@ + crate::text::decimal(bytes.len()) + " bytes"@
    } else {
        let cut = bytes.len() > 200000;
        let visible = if cut {
            bytes.take(200000)
        } else {
            bytes
        };
        new_file_preview_spec(utf8_lossy(visible), cut)
    }
}

/// The preview of a new text file whose (decoded) text is `text`; `cut`
/// says that the file was longer than what was read.
pub fn new_file_preview(text: &str, cut: bool) -> (r: String)
    ensures
        r@ == new_file_preview_spec(text@, cut),
{
    let ls = split_lines(&chars_of(text));
    let mut r = String::from_str("NEW FILE PREVIEW\n\n");
    let ghost start = r@;
    let mut j: usize = 0;
    let limit = if ls.len() > 500 {
        500
    } else {
        ls.len()
    };
    while j < limit
        invariant
            limit <= ls@.len(),
            j <= limit,
            r@ == start + plus_lines(views(ls@).take(j as int)),
        decreases limit - j,
    {
        r.append("+ ");
        push_chars(&mut r, &ls[j]);
        r.append("\n");
        proof {
            let t = views(ls@).take(j + 1);
            assert(t.drop_last() =~= views(ls@).take(j as int));
            assert(t.last() == ls@[j as int]@);
        }
        j = j + 1;
    }
    assert(views(ls@).take(limit as int) =~= if ls@.len() > 500 {
        views(ls@).take(500)
    } else {
        views(ls@)
    });
    if cut {
        r.append("\n... file preview truncated ...\n");
    } else {
        assert(r@ =~= r@ + Seq::<char>::empty());
    }
    r
}

/// The Git pane's text for an untracked file: a note for a binary file,
/// else its first 500 lines (of at most its first 200 000 bytes).
pub fn untracked_file_preview(path: &str, bytes: &[u8]) -> (r: String)
    ensures
        r@ == untracked_file_preview_spec(path@, bytes@),
{
    let mut i: usize = 0;
    let mut binary = false;
    while i < bytes.len() && i < 8192
        invariant
            i <= bytes@.len(),
            i <= 8192,
            binary == (exists|k: int| 0 <= k < i && bytes@[k] == 0),
        decreases bytes@.len() - i,
    {
        if bytes[i] == 0 {
            binary = true;
        }
        i = i + 1;
    }
    if binary {
        let mut r = String::from_str("NEW BINARY FILE\n\n");
        r.append(path);
        r.append("\n\n");
        push_chars(&mut r, &crate::text::decimal_chars(bytes.len()));
        r.append(" bytes");
        return r;
    }
    let cut = bytes.len() > 200000;
    let visible = if cut {
        sub_bytes(bytes, 0, 200000)
    } else {
        sub_bytes(bytes, 0, bytes.len())
    };
    assert(cut ==> visible@ == bytes@.take(200000));
    assert(!cut ==> visible@ =~= bytes@);
    let text = decode_lossy(visible.as_slice());
    new_file_preview(text.as_str(), cut)
}
} // verus!
