//! The order in which the repository tree lists paths: component by
//! component, so that a folder comes right before everything under it.

use vstd::prelude::*;

use crate::text::{chars_of, split_chars, split_on, starts_with, views};

verus! {

/// A three-way comparison result.
#[derive(Clone, Copy, Debug, PartialEq, Eq, Structural)]
pub enum Order {
    Less,
    Equal,
    Greater,
}

impl Order {
    pub open spec fn reversed(self) -> Order {
        match self {
            Order::Less => Order::Greater,
            Order::Equal => Order::Equal,
            Order::Greater => Order::Less,
        }
    }
}

/// Lexicographic order of character sequences by code point, which is the
/// order of their UTF-8 bytes (`str::cmp`).
pub open spec fn text_order(a: Seq<char>, b: Seq<char>) -> Order
    decreases a.len(),
{
    if a.len() == 0 {
        if b.len() == 0 {
            Order::Equal
        } else {
            Order::Less
        }
    } else if b.len() == 0 {
        Order::Greater
    } else if a[0] < b[0] {
        Order::Less
    } else if b[0] < a[0] {
        Order::Greater
    } else {
        text_order(a.drop_first(), b.drop_first())
    }
}

/// Lexicographic order of sequences of components, each compared by `text_order`.
pub open spec fn parts_order(a: Seq<Seq<char>>, b: Seq<Seq<char>>) -> Order
    decreases a.len(),
{
    if a.len() == 0 {
        if b.len() == 0 {
            Order::Equal
        } else {
            Order::Less
        }
    } else if b.len() == 0 {
        Order::Greater
    } else if text_order(a[0], b[0]) != Order::Equal {
        text_order(a[0], b[0])
    } else {
        parts_order(a.drop_first(), b.drop_first())
    }
}

/// The tree order of two paths: their `/`-separated components compared in turn.
pub open spec fn tree_order(a: Seq<char>, b: Seq<char>) -> Order {
    parts_order(split_on(a, '/'), split_on(b, '/'))
}

/// `path` lies strictly inside the folder `parent`.
pub open spec fn is_descendant(parent: Seq<char>, path: Seq<char>) -> bool {
    starts_with(path, parent.push('/'))
}

// ---- laws of text_order ----

pub proof fn lemma_text_order_reflexive(a: Seq<char>)
    ensures
        text_order(a, a) == Order::Equal,
    decreases a.len(),
{
    if a.len() > 0 {
        lemma_text_order_reflexive(a.drop_first());
    }
}

pub proof fn lemma_text_order_equal(a: Seq<char>, b: Seq<char>)
    requires
        text_order(a, b) == Order::Equal,
    ensures
        a == b,
    decreases a.len(),
{
    if a.len() > 0 {
        lemma_text_order_equal(a.drop_first(), b.drop_first());
        assert(a =~= seq![a[0]] + a.drop_first());
        assert(b =~= seq![b[0]] + b.drop_first());
    } else {
        assert(b.len() == 0);
        assert(a =~= b);
    }
}

pub proof fn lemma_text_order_swap(a: Seq<char>, b: Seq<char>)
    ensures
        text_order(b, a) == text_order(a, b).reversed(),
    decreases a.len(),
{
    if a.len() > 0 && b.len() > 0 && a[0] == b[0] {
        lemma_text_order_swap(a.drop_first(), b.drop_first());
    }
}

pub proof fn lemma_text_order_transitive(a: Seq<char>, b: Seq<char>, c: Seq<char>)
    requires
        text_order(a, b) != Order::Greater,
        text_order(b, c) != Order::Greater,
    ensures
        text_order(a, c) != Order::Greater,
        text_order(a, b) == Order::Less || text_order(b, c) == Order::Less ==> text_order(a, c)
            == Order::Less,
    decreases a.len(),
{
    if a.len() > 0 && b.len() > 0 && c.len() > 0 {
        if a[0] == b[0] && b[0] == c[0] {
            lemma_text_order_transitive(a.drop_first(), b.drop_first(), c.drop_first());
        }
    }
}

// ---- laws of parts_order ----

pub proof fn lemma_parts_order_reflexive(a: Seq<Seq<char>>)
    ensures
        parts_order(a, a) == Order::Equal,
    decreases a.len(),
{
    if a.len() > 0 {
        lemma_text_order_reflexive(a[0]);
        lemma_parts_order_reflexive(a.drop_first());
    }
}

pub proof fn lemma_parts_order_equal(a: Seq<Seq<char>>, b: Seq<Seq<char>>)
    requires
        parts_order(a, b) == Order::Equal,
    ensures
        a == b,
    decreases a.len(),
{
    if a.len() > 0 {
        lemma_text_order_equal(a[0], b[0]);
        lemma_parts_order_equal(a.drop_first(), b.drop_first());
        assert(a =~= seq![a[0]] + a.drop_first());
        assert(b =~= seq![b[0]] + b.drop_first());
    } else {
        assert(a =~= b);
    }
}

pub proof fn lemma_parts_order_swap(a: Seq<Seq<char>>, b: Seq<Seq<char>>)
    ensures
        parts_order(b, a) == parts_order(a, b).reversed(),
    decreases a.len(),
{
    if a.len() > 0 && b.len() > 0 {
        lemma_text_order_swap(a[0], b[0]);
        if text_order(a[0], b[0]) == Order::Equal {
            lemma_parts_order_swap(a.drop_first(), b.drop_first());
        }
    }
}

pub proof fn lemma_parts_order_transitive(a: Seq<Seq<char>>, b: Seq<Seq<char>>, c: Seq<Seq<char>>)
    requires
        parts_order(a, b) != Order::Greater,
        parts_order(b, c) != Order::Greater,
    ensures
        parts_order(a, c) != Order::Greater,
        parts_order(a, b) == Order::Less || parts_order(b, c) == Order::Less ==> parts_order(a, c)
            == Order::Less,
    decreases a.len(),
{
    if a.len() > 0 && b.len() > 0 && c.len() > 0 {
        lemma_text_order_transitive(a[0], b[0], c[0]);
        if text_order(a[0], b[0]) == Order::Equal {
            lemma_text_order_equal(a[0], b[0]);
        }
        if text_order(b[0], c[0]) == Order::Equal {
            lemma_text_order_equal(b[0], c[0]);
        }
        if text_order(a[0], b[0]) == Order::Equal && text_order(b[0], c[0]) == Order::Equal {
            lemma_parts_order_transitive(a.drop_first(), b.drop_first(), c.drop_first());
        }
    } else if a.len() > 0 && b.len() > 0 {
        if text_order(a[0], b[0]) == Order::Equal {
            lemma_text_order_equal(a[0], b[0]);
        }
    }
}

// ---- splitting and joining paths ----

/// The components `parts` joined with `sep` between them.
pub open spec fn join_on(parts: Seq<Seq<char>>, sep: char) -> Seq<char>
    decreases parts.len(),
{
    if parts.len() <= 1 {
        if parts.len() == 0 {
            Seq::empty()
        } else {
            parts[0]
        }
    } else {
        parts[0].push(sep) + join_on(parts.drop_first(), sep)
    }
}

pub proof fn lemma_split_nonempty(s: Seq<char>, sep: char)
    ensures
        split_on(s, sep).len() >= 1,
    decreases s.len(),
{
    crate::text::lemma_run_len(s, sep);
    if crate::text::run_len(s, sep) < s.len() {
        lemma_split_nonempty(s.skip(crate::text::run_len(s, sep) + 1int), sep);
    }
}

pub proof fn lemma_join_split(s: Seq<char>, sep: char)
    ensures
        join_on(split_on(s, sep), sep) == s,
    decreases s.len(),
{
    crate::text::lemma_run_len(s, sep);
    let k = crate::text::run_len(s, sep);
    if k < s.len() {
        let rest = s.skip(k + 1int);
        lemma_join_split(rest, sep);
        lemma_split_nonempty(rest, sep);
        let parts = split_on(s, sep);
        assert(parts.drop_first() =~= split_on(rest, sep));
        assert(s =~= s.take(k as int).push(sep) + rest);
    }
}

pub proof fn lemma_split_injective(a: Seq<char>, b: Seq<char>, sep: char)
    requires
        split_on(a, sep) == split_on(b, sep),
    ensures
        a == b,
{
    lemma_join_split(a, sep);
    lemma_join_split(b, sep);
}

/// Splitting `p + sep + r` gives the pieces of `p` followed by those of `r`.
pub proof fn lemma_split_concat(p: Seq<char>, r: Seq<char>, sep: char)
    ensures
        split_on(p.push(sep) + r, sep) == split_on(p, sep) + split_on(r, sep),
    decreases p.len(),
{
    let s = p.push(sep) + r;
    crate::text::lemma_run_len(p, sep);
    crate::text::lemma_run_len(s, sep);
    let k = crate::text::run_len(p, sep);
    if k >= p.len() {
        assert(k == p.len());
        assert(forall|i: int| 0 <= i < p.len() ==> s[i] == p[i]);
        assert(crate::text::run_len(s, sep) == p.len()) by {
            lemma_run_len_prefix(s, sep, p.len() as int);
        }
        assert(s.take(p.len() as int) =~= p);
        assert(s.skip(p.len() + 1int) =~= r);
        assert(split_on(p, sep) == seq![p]);
    } else {
        assert(p[k as int] == sep);
        assert(crate::text::run_len(s, sep) == k) by {
            lemma_run_len_prefix(s, sep, k as int);
        }
        let p2 = p.skip(k + 1int);
        lemma_split_concat(p2, r, sep);
        assert(s.take(k as int) =~= p.take(k as int));
        assert(s.skip(k + 1int) =~= p2.push(sep) + r);
        assert(split_on(p.push(sep) + r, sep) =~= split_on(p, sep) + split_on(r, sep));
    }
}

proof fn lemma_run_len_prefix(s: Seq<char>, sep: char, k: int)
    requires
        0 <= k < s.len(),
        s[k] == sep,
        forall|i: int| 0 <= i < k ==> s[i] != sep,
    ensures
        crate::text::run_len(s, sep) == k,
    decreases k,
{
    if k > 0 {
        lemma_run_len_prefix(s.drop_first(), sep, k - 1);
    }
}

/// No component of `parts` holds `sep`.
pub open spec fn parts_without(parts: Seq<Seq<char>>, sep: char) -> bool {
    forall|k: int, i: int| 0 <= k < parts.len() && 0 <= i < parts[k].len() ==> #[trigger] parts[k][i] != sep
}

/// The components that splitting gives hold no separator.
pub proof fn lemma_split_parts_without(s: Seq<char>, sep: char)
    ensures
        parts_without(split_on(s, sep), sep),
    decreases s.len(),
{
    crate::text::lemma_run_len(s, sep);
    let k = crate::text::run_len(s, sep);
    if k < s.len() {
        let rest = s.skip(k + 1int);
        lemma_split_parts_without(rest, sep);
        let parts = split_on(s, sep);
        assert(parts.drop_first() =~= split_on(rest, sep));
        assert forall|a: int, i: int| 0 <= a < parts.len() && 0 <= i < parts[a].len() implies #[trigger] parts[a][i] != sep by {
            if a > 0 {
                assert(parts[a] == split_on(rest, sep)[a - 1]);
            }
        }
    }
}

/// Splitting undoes joining components that hold no separator.
pub proof fn lemma_split_join(parts: Seq<Seq<char>>, sep: char)
    requires
        parts.len() >= 1,
        parts_without(parts, sep),
    ensures
        split_on(join_on(parts, sep), sep) == parts,
    decreases parts.len(),
{
    let p0 = parts[0];
    crate::text::lemma_run_len(p0, sep);
    if crate::text::run_len(p0, sep) < p0.len() {
        assert(p0[crate::text::run_len(p0, sep) as int] != sep);
    }
    assert(split_on(p0, sep) == seq![p0]);
    if parts.len() == 1 {
        assert(parts =~= seq![p0]);
    } else {
        let rest = parts.drop_first();
        assert forall|k: int, i: int| 0 <= k < rest.len() && 0 <= i < rest[k].len() implies #[trigger] rest[k][i] != sep by {
            assert(rest[k] == parts[k + 1]);
        }
        lemma_split_join(rest, sep);
        lemma_split_concat(p0, join_on(rest, sep), sep);
        assert(parts =~= seq![p0] + rest);
    }
}

pub proof fn lemma_join_concat(a: Seq<Seq<char>>, b: Seq<Seq<char>>, sep: char)
    requires
        a.len() >= 1,
        b.len() >= 1,
    ensures
        join_on(a + b, sep) == join_on(a, sep).push(sep) + join_on(b, sep),
    decreases a.len(),
{
    if a.len() == 1 {
        assert((a + b).drop_first() =~= b);
    } else {
        lemma_join_concat(a.drop_first(), b, sep);
        assert((a + b).drop_first() =~= a.drop_first() + b);
    }
}

// ---- laws of the tree order ----

/// The tree order is a total order: every path is equal to itself ...
pub proof fn lemma_tree_order_reflexive(a: Seq<char>)
    ensures
        tree_order(a, a) == Order::Equal,
{
    lemma_parts_order_reflexive(split_on(a, '/'));
}

/// ... only to itself ...
pub proof fn lemma_tree_order_equal(a: Seq<char>, b: Seq<char>)
    requires
        tree_order(a, b) == Order::Equal,
    ensures
        a == b,
{
    lemma_parts_order_equal(split_on(a, '/'), split_on(b, '/'));
    lemma_split_injective(a, b, '/');
}

/// ... swapping the arguments reverses the result ...
pub proof fn lemma_tree_order_swap(a: Seq<char>, b: Seq<char>)
    ensures
        tree_order(b, a) == tree_order(a, b).reversed(),
{
    lemma_parts_order_swap(split_on(a, '/'), split_on(b, '/'));
}

/// ... and it is transitive.
pub proof fn lemma_tree_order_transitive(a: Seq<char>, b: Seq<char>, c: Seq<char>)
    requires
        tree_order(a, b) != Order::Greater,
        tree_order(b, c) != Order::Greater,
    ensures
        tree_order(a, c) != Order::Greater,
        tree_order(a, b) == Order::Less || tree_order(b, c) == Order::Less ==> tree_order(a, c)
            == Order::Less,
{
    lemma_parts_order_transitive(split_on(a, '/'), split_on(b, '/'), split_on(c, '/'));
}

proof fn lemma_parts_prefix_less(a: Seq<Seq<char>>, r: Seq<Seq<char>>)
    requires
        r.len() >= 1,
    ensures
        parts_order(a, a + r) == Order::Less,
    decreases a.len(),
{
    if a.len() > 0 {
        lemma_text_order_reflexive(a[0]);
        assert((a + r).drop_first() =~= a.drop_first() + r);
        lemma_parts_prefix_less(a.drop_first(), r);
    }
}

/// Every path inside a folder sorts after the folder itself.
pub proof fn lemma_descendant_after_parent(parent: Seq<char>, path: Seq<char>)
    requires
        is_descendant(parent, path),
    ensures
        tree_order(parent, path) == Order::Less,
{
    let r = path.skip(parent.len() + 1int);
    assert(path =~= parent.push('/') + r);
    lemma_split_concat(parent, r, '/');
    lemma_split_nonempty(r, '/');
    lemma_parts_prefix_less(split_on(parent, '/'), split_on(r, '/'));
}

proof fn lemma_parts_between(p: Seq<Seq<char>>, x: Seq<Seq<char>>, r: Seq<Seq<char>>)
    requires
        r.len() >= 1,
        parts_order(p, x) == Order::Less,
        parts_order(x, p + r) == Order::Less,
    ensures
        x.len() > p.len(),
        x.take(p.len() as int) == p,
    decreases p.len(),
{
    if p.len() == 0 {
        assert(x.len() > 0);
        assert(x.take(0) =~= p);
    } else {
        assert((p + r)[0] == p[0]);
        assert((p + r).drop_first() =~= p.drop_first() + r);
        assert(x.len() > 0);
        if text_order(p[0], x[0]) == Order::Equal {
            lemma_text_order_equal(p[0], x[0]);
            lemma_parts_between(p.drop_first(), x.drop_first(), r);
            assert(x.take(p.len() as int) =~= seq![x[0]] + x.drop_first().take(
                p.drop_first().len() as int,
            ));
            assert(p =~= seq![p[0]] + p.drop_first());
        } else {
            // p[0] < x[0] while x[0] <= (p + r)[0] == p[0]: impossible
            lemma_text_order_swap(p[0], x[0]);
            if text_order(x[0], p[0]) == Order::Equal {
                lemma_text_order_equal(x[0], p[0]);
                lemma_text_order_reflexive(p[0]);
            }
            lemma_text_order_transitive(x[0], p[0], x[0]);
            lemma_text_order_reflexive(x[0]);
        }
    }
}

/// The paths inside a folder come as one run right after it: whatever sorts
/// between a folder and one of its descendants lies inside that folder too.
pub proof fn lemma_descendants_contiguous(parent: Seq<char>, middle: Seq<char>, path: Seq<char>)
    requires
        is_descendant(parent, path),
        tree_order(parent, middle) == Order::Less,
        tree_order(middle, path) == Order::Less,
    ensures
        is_descendant(parent, middle),
{
    let r = path.skip(parent.len() + 1int);
    assert(path =~= parent.push('/') + r);
    lemma_split_concat(parent, r, '/');
    lemma_split_nonempty(r, '/');
    let pp = split_on(parent, '/');
    let xp = split_on(middle, '/');
    lemma_split_nonempty(parent, '/');
    lemma_parts_between(pp, xp, split_on(r, '/'));
    let rest = xp.skip(pp.len() as int);
    assert(xp =~= pp + rest);
    lemma_join_concat(pp, rest, '/');
    lemma_join_split(middle, '/');
    lemma_join_split(parent, '/');
    assert(middle == parent.push('/') + join_on(rest, '/'));
    assert(middle.take(parent.len() + 1int) =~= parent.push('/'));
}

// ---- executable comparison ----

fn text_order_of(a: &Vec<char>, b: &Vec<char>) -> (o: Order)
    ensures
        o == text_order(a@, b@),
{
    let mut i: usize = 0;
    assert(a@.skip(0) =~= a@);
    assert(b@.skip(0) =~= b@);
    while i < a.len() && i < b.len() && a[i] == b[i]
        invariant
            i <= a@.len(),
            i <= b@.len(),
            text_order(a@, b@) == text_order(a@.skip(i as int), b@.skip(i as int)),
        decreases a@.len() - i,
    {
        assert(a@.skip(i as int).drop_first() =~= a@.skip(i + 1));
        assert(b@.skip(i as int).drop_first() =~= b@.skip(i + 1));
        i = i + 1;
    }
    if i == a.len() {
        if i == b.len() {
            Order::Equal
        } else {
            Order::Less
        }
    } else if i == b.len() {
        Order::Greater
    } else if a[i] < b[i] {
        Order::Less
    } else {
        Order::Greater
    }
}

fn parts_order_of(a: &Vec<Vec<char>>, b: &Vec<Vec<char>>) -> (o: Order)
    ensures
        o == parts_order(views(a@), views(b@)),
{
    let mut i: usize = 0;
    assert(views(a@).skip(0) =~= views(a@));
    assert(views(b@).skip(0) =~= views(b@));
    loop
        invariant
            i <= a@.len(),
            i <= b@.len(),
            parts_order(views(a@), views(b@)) == parts_order(
                views(a@).skip(i as int),
                views(b@).skip(i as int),
            ),
        decreases a@.len() - i,
    {
        if i == a.len() {
            return if i == b.len() {
                Order::Equal
            } else {
                Order::Less
            };
        }
        if i == b.len() {
            return Order::Greater;
        }
        let o = text_order_of(&a[i], &b[i]);
        if o != Order::Equal {
            return o;
        }
        assert(views(a@).skip(i as int).drop_first() =~= views(a@).skip(i + 1));
        assert(views(b@).skip(i as int).drop_first() =~= views(b@).skip(i + 1));
        i = i + 1;
    }
}

/// The tree order of two paths.
pub fn tree_order_of(left: &str, right: &str) -> (o: Order)
    ensures
        o == tree_order(left@, right@),
{
    let l = split_chars(&chars_of(left), '/');
    let r = split_chars(&chars_of(right), '/');
    parts_order_of(&l, &r)
}

/// The order of two texts by code point (`str::cmp`).
pub fn text_order_of_str(a: &str, b: &str) -> (o: Order)
    ensures
        o == text_order(a@, b@),
{
    text_order_of(&chars_of(a), &chars_of(b))
}

/// `o` as a `std::cmp::Ordering`.
pub open spec fn std_order(o: Order) -> std::cmp::Ordering {
    match o {
        Order::Less => std::cmp::Ordering::Less,
        Order::Equal => std::cmp::Ordering::Equal,
        Order::Greater => std::cmp::Ordering::Greater,
    }
}

/// Compares two repository paths in tree order (see `tree_order`).
pub fn compare_tree_paths(left: &str, right: &str) -> (o: std::cmp::Ordering)
    ensures
        o == std_order(tree_order(left@, right@)),
{
    match tree_order_of(left, right) {
        Order::Less => std::cmp::Ordering::Less,
        Order::Equal => std::cmp::Ordering::Equal,
        Order::Greater => std::cmp::Ordering::Greater,
    }
}

} // verus!
