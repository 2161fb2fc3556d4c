//! Stable sorting of list items by composite keys.
//!
//! A key is a sequence of fields compared lexicographically; a field is
//! text, compared character by character (the order of `str`'s `Ord`, as
//! UTF-8 preserves code point order), or a number. A descending component is
//! given as a negated number. Items with equal keys keep their list
//! order, as `slice::sort_by` keeps them.

use vstd::prelude::*;
use vstd::seq_lib::seq_to_set_is_finite;
use vstd::set_lib::{lemma_int_range, lemma_subset_equality, set_int_range};

verus! {

/// One component of a sort key.
pub enum Field {
    Text(Seq<char>),
    Num(int),
}

/// One component of a sort key, as held at run time.
pub enum SortField {
    Text(Vec<char>),
    Num(i128),
}

pub open spec fn field_view(f: SortField) -> Field {
    match f {
        SortField::Text(t) => Field::Text(t@),
        SortField::Num(n) => Field::Num(n as int),
    }
}

pub open spec fn key_view(k: Seq<SortField>) -> Seq<Field> {
    k.map_values(|f: SortField| field_view(f))
}

pub open spec fn keys_view(ks: Seq<Vec<SortField>>) -> Seq<Seq<Field>> {
    ks.map_values(|k: Vec<SortField>| key_view(k@))
}

/// Appends a field to a key.
pub fn push_field(k: &mut Vec<SortField>, f: SortField)
    ensures
        key_view(final(k)@) == key_view(old(k)@).push(field_view(f)),
{
    let ghost before = k@;
    k.push(f);
    proof {
        assert(key_view(k@) =~= key_view(before).push(field_view(f)));
    }
}

/// Three-way comparison of two texts: -1, 0 or 1.
pub open spec fn order_text(a: Seq<char>, b: Seq<char>) -> int
    decreases a.len(),
{
    if a.len() == 0 && b.len() == 0 {
        0
    } else if a.len() == 0 {
        -1
    } else if b.len() == 0 {
        1
    } else if a[0] < b[0] {
        -1
    } else if b[0] < a[0] {
        1
    } else {
        order_text(a.drop_first(), b.drop_first())
    }
}

/// Three-way comparison of two fields; numbers come before texts.
pub open spec fn order_field(a: Field, b: Field) -> int {
    match (a, b) {
        (Field::Num(x), Field::Num(y)) => if x < y {
            -1
        } else if y < x {
            1
        } else {
            0
        },
        (Field::Text(s), Field::Text(t)) => order_text(s, t),
        (Field::Num(_), Field::Text(_)) => -1,
        (Field::Text(_), Field::Num(_)) => 1,
    }
}

/// Lexicographic three-way comparison of two keys.
pub open spec fn order_key(a: Seq<Field>, b: Seq<Field>) -> int
    decreases a.len(),
{
    if a.len() == 0 && b.len() == 0 {
        0
    } else if a.len() == 0 {
        -1
    } else if b.len() == 0 {
        1
    } else if order_field(a[0], b[0]) != 0 {
        order_field(a[0], b[0])
    } else {
        order_key(a.drop_first(), b.drop_first())
    }
}

// ── order properties ────────────────────────────────────────────────────────
pub proof fn lemma_order_text(a: Seq<char>, b: Seq<char>, c: Seq<char>)
    ensures
        -1 <= order_text(a, b) <= 1,
        order_text(a, b) == -order_text(b, a),
        order_text(a, b) == 0 <==> a == b,
        order_text(a, b) <= 0 && order_text(b, c) <= 0 ==> order_text(a, c) <= 0,
    decreases a.len(),
{
    if a.len() == 0 && b.len() == 0 {
        assert(a =~= b);
    }
    if a.len() > 0 && b.len() > 0 && c.len() > 0 {
        lemma_order_text(a.drop_first(), b.drop_first(), c.drop_first());
        assert(a == seq![a[0]] + a.drop_first());
        assert(b == seq![b[0]] + b.drop_first());
    } else if a.len() > 0 && b.len() > 0 {
        lemma_order_text(a.drop_first(), b.drop_first(), c);
        assert(a == seq![a[0]] + a.drop_first());
        assert(b == seq![b[0]] + b.drop_first());
    }
}

pub proof fn lemma_order_field(a: Field, b: Field, c: Field)
    ensures
        -1 <= order_field(a, b) <= 1,
        order_field(a, b) == -order_field(b, a),
        order_field(a, b) == 0 <==> a == b,
        order_field(a, b) <= 0 && order_field(b, c) <= 0 ==> order_field(a, c) <= 0,
{
    match (a, b, c) {
        (Field::Text(s), Field::Text(t), Field::Text(u)) => {
            lemma_order_text(s, t, u);
        },
        (Field::Text(s), Field::Text(t), _) => {
            lemma_order_text(s, t, t);
        },
        _ => {},
    }
}

pub proof fn lemma_order_key(a: Seq<Field>, b: Seq<Field>, c: Seq<Field>)
    ensures
        -1 <= order_key(a, b) <= 1,
        order_key(a, b) == -order_key(b, a),
        order_key(a, b) == 0 <==> a == b,
        order_key(a, b) <= 0 && order_key(b, c) <= 0 ==> order_key(a, c) <= 0,
    decreases a.len(),
{
    if a.len() == 0 && b.len() == 0 {
        assert(a =~= b);
    }
    if a.len() > 0 && b.len() > 0 {
        let c0 = if c.len() > 0 {
            c[0]
        } else {
            b[0]
        };
        lemma_order_field(a[0], b[0], c0);
        lemma_order_field(b[0], c0, a[0]);
        lemma_order_field(a[0], c0, b[0]);
        if c.len() > 0 {
            lemma_order_key(a.drop_first(), b.drop_first(), c.drop_first());
        } else {
            lemma_order_key(a.drop_first(), b.drop_first(), b.drop_first());
        }
        assert(a == seq![a[0]] + a.drop_first());
        assert(b == seq![b[0]] + b.drop_first());
    }
}

/// Item `i` goes before item `j`: its key is smaller, or the keys are equal
/// and it came first.
pub open spec fn before(keys: Seq<Seq<Field>>, i: int, j: int) -> bool {
    order_key(keys[i], keys[j]) < 0 || (order_key(keys[i], keys[j]) == 0 && i < j)
}

pub proof fn lemma_before_trans(keys: Seq<Seq<Field>>, i: int, j: int, k: int)
    requires
        before(keys, i, j),
        before(keys, j, k),
    ensures
        before(keys, i, k),
{
    lemma_order_key(keys[i], keys[j], keys[k]);
    lemma_order_key(keys[j], keys[k], keys[i]);
    lemma_order_key(keys[i], keys[k], keys[j]);
}

/// `p` lists each of `0..n` exactly once.
pub open spec fn is_permutation(p: Seq<usize>, n: nat) -> bool {
    &&& p.len() == n
    &&& forall|k: int| 0 <= k < p.len() ==> p[k] < n
    &&& forall|k: int, l: int| 0 <= k < l < p.len() ==> p[k] != p[l]
}

/// `p` lists the items in sorted order: a permutation in which each item
/// goes before every later one.
pub open spec fn sorted_order(keys: Seq<Seq<Field>>, p: Seq<usize>) -> bool {
    &&& is_permutation(p, keys.len())
    &&& forall|a: int, b: int|
        0 <= a < b < p.len() ==> before(keys, #[trigger] p[a] as int, #[trigger] p[b] as int)
}

/// A permutation of `0..n` lists every index below `n`.
proof fn lemma_permutation_covers(p: Seq<usize>, n: nat, x: usize)
    requires
        is_permutation(p, n),
        x < n,
    ensures
        exists|j: int| 0 <= j < p.len() && p[j] == x,
{
    let ip = p.map_values(|v: usize| v as int);
    assert(ip.no_duplicates()) by {
        assert forall|i: int, j: int| 0 <= i < ip.len() && 0 <= j < ip.len() && i != j implies ip[i]
            != ip[j] by {
            if i < j {
                assert(p[i] != p[j]);
            } else {
                assert(p[j] != p[i]);
            }
        }
    }
    ip.unique_seq_to_set();
    lemma_int_range(0, n as int);
    assert(ip.to_set().subset_of(set_int_range(0, n as int))) by {
        assert forall|v: int| ip.to_set().contains(v) implies set_int_range(0, n as int).contains(v) by {
            let j = choose|j: int| 0 <= j < ip.len() && ip[j] == v;
            assert(p[j] < n);
        }
    }
    seq_to_set_is_finite(ip);
    lemma_subset_equality(ip.to_set(), set_int_range(0, n as int));
    assert(set_int_range(0, n as int).contains(x as int));
    assert(ip.to_set().contains(x as int));
    let j = choose|j: int| 0 <= j < ip.len() && ip[j] == x as int;
    assert(p[j] == x);
}

proof fn lemma_sorted_position(keys: Seq<Seq<Field>>, p: Seq<usize>, q: Seq<usize>, k: int)
    requires
        sorted_order(keys, p),
        sorted_order(keys, q),
        0 <= k < p.len(),
    ensures
        p[k] == q[k],
    decreases k,
{
    let n = keys.len();
    let a = p[k];
    let b = q[k];
    if a != b {
        lemma_permutation_covers(p, n, b);
        let j = choose|j: int| 0 <= j < p.len() && p[j] == b;
        if j < k {
            lemma_sorted_position(keys, p, q, j);
            assert(q[j] == q[k]);
        }
        assert(j > k);
        assert(before(keys, a as int, b as int));
        lemma_permutation_covers(q, n, a);
        let i = choose|i: int| 0 <= i < q.len() && q[i] == a;
        if i < k {
            lemma_sorted_position(keys, p, q, i);
            assert(p[i] == p[k]);
        }
        assert(i > k);
        assert(before(keys, b as int, a as int));
        lemma_before_trans(keys, a as int, b as int, a as int);
        lemma_order_key(keys[a as int], keys[a as int], keys[a as int]);
    }
}

/// Law: the sorted order is fully determined by the keys: two orders that
/// both list the items sorted (ties in list order) are the same.
pub proof fn law_sorted_order_unique(keys: Seq<Seq<Field>>, p: Seq<usize>, q: Seq<usize>)
    requires
        sorted_order(keys, p),
        sorted_order(keys, q),
    ensures
        p == q,
{
    assert forall|k: int| 0 <= k < p.len() implies p[k] == q[k] by {
        lemma_sorted_position(keys, p, q, k);
    }
    assert(p =~= q);
}

// ── comparison at run time ──────────────────────────────────────────────────
fn compare_text(a: &[char], b: &[char]) -> (c: i8)
    ensures
        c == order_text(a@, b@),
{
    let mut i: usize = 0;
    proof {
        assert(a@.skip(0) =~= a@);
        assert(b@.skip(0) =~= b@);
    }
    while i < a.len() && i < b.len() && a[i] == b[i]
        invariant
            0 <= i <= a@.len(),
            i <= b@.len(),
            order_text(a@, b@) == order_text(a@.skip(i as int), b@.skip(i as int)),
        decreases a@.len() - i,
    {
        proof {
            assert(a@.skip(i as int).drop_first() =~= a@.skip(i + 1));
            assert(b@.skip(i as int).drop_first() =~= b@.skip(i + 1));
        }
        i += 1;
    }
    if i == a.len() && i == b.len() {
        0
    } else if i == a.len() {
        -1
    } else if i == b.len() {
        1
    } else if a[i] < b[i] {
        -1
    } else {
        1
    }
}

fn compare_field(a: &SortField, b: &SortField) -> (c: i8)
    ensures
        c == order_field(field_view(*a), field_view(*b)),
{
    match (a, b) {
        (SortField::Num(x), SortField::Num(y)) => if *x < *y {
            -1
        } else if *y < *x {
            1
        } else {
            0
        },
        (SortField::Text(s), SortField::Text(t)) => compare_text(s.as_slice(), t.as_slice()),
        (SortField::Num(_), SortField::Text(_)) => -1,
        (SortField::Text(_), SortField::Num(_)) => 1,
    }
}

fn compare_key(a: &Vec<SortField>, b: &Vec<SortField>) -> (c: i8)
    ensures
        c == order_key(key_view(a@), key_view(b@)),
{
    let mut i: usize = 0;
    proof {
        assert(key_view(a@).skip(0) =~= key_view(a@));
        assert(key_view(b@).skip(0) =~= key_view(b@));
    }
    while i < a.len() && i < b.len()
        invariant
            0 <= i <= a@.len(),
            i <= b@.len(),
            order_key(key_view(a@), key_view(b@)) == order_key(
                key_view(a@).skip(i as int),
                key_view(b@).skip(i as int),
            ),
        decreases a@.len() - i,
    {
        let c = compare_field(&a[i], &b[i]);
        proof {
            assert(key_view(a@).skip(i as int)[0] == field_view(a@[i as int]));
            assert(key_view(b@).skip(i as int)[0] == field_view(b@[i as int]));
        }
        if c != 0 {
            return c;
        }
        proof {
            assert(key_view(a@).skip(i as int).drop_first() =~= key_view(a@).skip(i + 1));
            assert(key_view(b@).skip(i as int).drop_first() =~= key_view(b@).skip(i + 1));
        }
        i += 1;
    }
    if i == a.len() && i == b.len() {
        0
    } else if i == a.len() {
        -1
    } else {
        1
    }
}

/// The order in which to list items with the given keys: by key, and by
/// position in the list among equal keys.
pub fn sort_indices(keys: &Vec<Vec<SortField>>) -> (r: Vec<usize>)
    ensures
        sorted_order(keys_view(keys@), r@),
{
    let ghost ks = keys_view(keys@);
    let n = keys.len();
    let mut r: Vec<usize> = Vec::new();
    let mut i: usize = 0;
    while i < n
        invariant
            n == keys@.len(),
            ks == keys_view(keys@),
            0 <= i <= n,
            r@.len() == i,
            forall|k: int| 0 <= k < r@.len() ==> r@[k] < i,
            forall|k: int, l: int| 0 <= k < l < r@.len() ==> r@[k] != r@[l],
            forall|a: int, b: int|
                0 <= a < b < r@.len() ==> before(ks, #[trigger] r@[a] as int, #[trigger] r@[b] as int),
        decreases n - i,
    {
        let mut pos: usize = i;
        while pos > 0 && compare_key(&keys[r[pos - 1]], &keys[i]) > 0
            invariant
                n == keys@.len(),
                ks == keys_view(keys@),
                0 <= i < n,
                r@.len() == i,
                0 <= pos <= i,
                forall|k: int| 0 <= k < r@.len() ==> r@[k] < i,
                forall|k: int| pos <= k < i ==> order_key(ks[#[trigger] r@[k] as int], ks[i as int]) > 0,
            decreases pos,
        {
            proof {
                assert(ks[r@[pos - 1] as int] == key_view(keys@[r@[pos - 1] as int]@));
                assert(ks[i as int] == key_view(keys@[i as int]@));
            }
            pos -= 1;
        }
        proof {
            if pos > 0 {
                assert(ks[r@[pos - 1] as int] == key_view(keys@[r@[pos - 1] as int]@));
                assert(ks[i as int] == key_view(keys@[i as int]@));
                assert(before(ks, r@[pos - 1] as int, i as int));
            }
        }
        let ghost old_r = r@;
        r.insert(pos, i);
        proof {
            assert(r@ == old_r.insert(pos as int, i));
            assert forall|k: int| 0 <= k < r@.len() implies r@[k] < i + 1 by {
                if k > pos {
                    assert(r@[k] == old_r[k - 1]);
                } else if k < pos {
                    assert(r@[k] == old_r[k]);
                }
            }
            assert forall|k: int, l: int| 0 <= k < l < r@.len() implies r@[k] != r@[l] by {
                if k < pos && l < pos {
                    assert(r@[k] == old_r[k] && r@[l] == old_r[l]);
                } else if k < pos && l > pos {
                    assert(r@[k] == old_r[k] && r@[l] == old_r[l - 1]);
                } else if k > pos && l > pos {
                    assert(r@[k] == old_r[k - 1] && r@[l] == old_r[l - 1]);
                } else if k == pos {
                    assert(r@[l] == old_r[l - 1]);
                } else {
                    assert(r@[k] == old_r[k]);
                }
            }
            assert forall|a: int, b: int| 0 <= a < b < r@.len() implies before(
                ks,
                #[trigger] r@[a] as int,
                #[trigger] r@[b] as int,
            ) by {
                if a < pos && b < pos {
                    assert(r@[a] == old_r[a] && r@[b] == old_r[b]);
                } else if a > pos && b > pos {
                    assert(r@[a] == old_r[a - 1] && r@[b] == old_r[b - 1]);
                } else if a < pos && b > pos {
                    assert(r@[a] == old_r[a] && r@[b] == old_r[b - 1]);
                    assert(before(ks, old_r[a] as int, old_r[b - 1] as int));
                } else if b == pos {
                    assert(r@[a] == old_r[a]);
                    if a < pos - 1 {
                        assert(before(ks, old_r[a] as int, old_r[pos - 1] as int));
                        lemma_before_trans(ks, old_r[a] as int, old_r[pos - 1] as int, i as int);
                    }
                } else {
                    assert(a == pos);
                    assert(r@[b] == old_r[b - 1]);
                    let j = old_r[b - 1] as int;
                    assert(order_key(ks[j], ks[i as int]) > 0);
                    lemma_order_key(ks[j], ks[i as int], ks[i as int]);
                }
            }
        }
        i += 1;
    }
    r
}

} // verus!
