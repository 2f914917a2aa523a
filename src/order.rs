use vstd::prelude::*;

verus! {

/// Strict lexicographic order on strings, character by character; this is the
/// order of Rust's `str` comparison, since UTF-8 keeps code point order.
pub open spec fn name_lt(a: Seq<char>, b: Seq<char>) -> bool
    decreases a.len(),
{
    if a.len() == 0 {
        b.len() > 0
    } else if b.len() == 0 {
        false
    } else if a[0] != b[0] {
        (a[0] as u32) < (b[0] as u32)
    } else {
        name_lt(a.drop_first(), b.drop_first())
    }
}

/// `name_lt` is asymmetric.
pub proof fn lemma_name_lt_asymmetric(a: Seq<char>, b: Seq<char>)
    ensures
        name_lt(a, b) ==> !name_lt(b, a),
    decreases a.len(),
{
    if a.len() > 0 && b.len() > 0 && a[0] == b[0] {
        lemma_name_lt_asymmetric(a.drop_first(), b.drop_first());
    }
}

proof fn lemma_name_lt_step(a: Seq<char>, b: Seq<char>, i: int)
    requires
        0 <= i < a.len(),
        i < b.len(),
        a[i] == b[i],
    ensures
        name_lt(a.skip(i), b.skip(i)) == name_lt(a.skip(i + 1), b.skip(i + 1)),
{
    assert(a.skip(i).drop_first() =~= a.skip(i + 1));
    assert(b.skip(i).drop_first() =~= b.skip(i + 1));
}

/// Whether `a` comes strictly before `b` in lexicographic order.
pub fn name_less(a: &str, b: &str) -> (r: bool)
    ensures
        r == name_lt(a@, b@),
{
    let la = a.unicode_len();
    let lb = b.unicode_len();
    let mut i: usize = 0;
    assert(a@.skip(0) =~= a@);
    assert(b@.skip(0) =~= b@);
    loop
        invariant
            la == a@.len(),
            lb == b@.len(),
            i <= la,
            i <= lb,
            name_lt(a@, b@) == name_lt(a@.skip(i as int), b@.skip(i as int)),
        decreases la - i,
    {
        if i == la {
            return i < lb;
        }
        if i == lb {
            return false;
        }
        let ca = a.get_char(i);
        let cb = b.get_char(i);
        if ca != cb {
            return (ca as u32) < (cb as u32);
        }
        proof {
            lemma_name_lt_step(a@, b@, i as int);
        }
        i += 1;
    }
}

/// The positions of `entries` ordered by name: a permutation of
/// `0..entries.len()` in which no name is smaller than the one before it.
/// Entries of equal names keep their relative order.
pub fn sorted_order<T>(entries: &Vec<(String, T)>) -> (order: Vec<usize>)
    ensures
        order.len() == entries.len(),
        forall|p: int| 0 <= p < order.len() ==> order[p] < entries.len(),
        forall|p: int, q: int| 0 <= p < q < order.len() ==> order[p] != order[q],
        forall|i: usize| i < entries.len() ==> #[trigger] order@.contains(i),
        forall|p: int|
            #![trigger order[p]]
            0 <= p < order.len() - 1 ==> !name_lt(
                entries@[order[p + 1] as int].0@,
                entries@[order[p] as int].0@,
            ),
{
    let n = entries.len();
    let mut order: Vec<usize> = Vec::new();
    let mut i: usize = 0;
    while i < n
        invariant
            n == entries.len(),
            i <= n,
            order.len() == i,
            forall|p: int| 0 <= p < order.len() ==> order[p] < i,
            forall|p: int, q: int| 0 <= p < q < order.len() ==> order[p] != order[q],
            forall|k: usize| k < i ==> #[trigger] order@.contains(k),
            forall|p: int|
                #![trigger order[p]]
                0 <= p < order.len() - 1 ==> !name_lt(
                    entries@[order[p + 1] as int].0@,
                    entries@[order[p] as int].0@,
                ),
        decreases n - i,
    {
        let mut pos: usize = 0;
        while pos < order.len() && !name_less(entries[i].0.as_str(), entries[order[pos]].0.as_str())
            invariant
                n == entries.len(),
                i < n,
                pos <= order.len(),
                forall|p: int| 0 <= p < order.len() ==> order[p] < i,
                forall|q: int|
                    0 <= q < pos ==> !name_lt(entries@[i as int].0@, entries@[order[q] as int].0@),
            decreases order.len() - pos,
        {
            pos += 1;
        }
        let ghost old_order = order@;
        proof {
            if pos < order.len() {
                lemma_name_lt_asymmetric(
                    entries@[i as int].0@,
                    entries@[order[pos as int] as int].0@,
                );
            }
        }
        order.insert(pos, i);
        assert forall|k: usize| k < i + 1 implies #[trigger] order@.contains(k) by {
            if k == i {
                assert(order[pos as int] == k);
            } else {
                assert(old_order.contains(k));
                let p = choose|p: int| 0 <= p < old_order.len() && old_order[p] == k;
                if p < pos {
                    assert(order[p] == k);
                } else {
                    assert(order[p + 1] == k);
                }
            }
        }
        assert forall|p: int| #![trigger order[p]] 0 <= p < order.len() - 1 implies !name_lt(
            entries@[order[p + 1] as int].0@,
            entries@[order[p] as int].0@,
        ) by {
            if p + 1 < pos {
                assert(order[p] == old_order[p] && order[p + 1] == old_order[p + 1]);
            } else if p + 1 == pos {
                assert(order[p] == old_order[p]);
            } else if p == pos {
                assert(order[p + 1] == old_order[p]);
            } else {
                assert(order[p] == old_order[p - 1] && order[p + 1] == old_order[p]);
            }
        }
        i += 1;
    }
    order
}

} // verus!
