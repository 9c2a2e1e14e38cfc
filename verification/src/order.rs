//! Putting items in order by a key.
//!
//! The order is that of a stable sort: items go by their keys, and items
//! whose keys sort alike stay in the order in which they were listed.

use vstd::prelude::*;

verus! {

/// A key to sort by. The relation `sorts_before` is a strict weak order:
/// nothing sorts before itself, it is transitive, and so is sorting alike.
pub trait SortKey: Sized {
    /// Whether `self` sorts before `other`.
    spec fn sorts_before(&self, other: &Self) -> bool;

    /// Executable form of [`SortKey::sorts_before`].
    fn is_before(&self, other: &Self) -> (r: bool)
        ensures
            r == self.sorts_before(other),
    ;

    /// Nothing sorts before itself.
    proof fn lemma_irreflexive(a: &Self)
        ensures
            !a.sorts_before(a),
    ;

    /// What sorts before something that sorts before a third sorts before
    /// the third.
    proof fn lemma_transitive(a: &Self, b: &Self, c: &Self)
        requires
            a.sorts_before(b),
            b.sorts_before(c),
        ensures
            a.sorts_before(c),
    ;

    /// What does not sort before something that does not sort before a
    /// third does not sort before the third.
    proof fn lemma_alike_transitive(a: &Self, b: &Self, c: &Self)
        requires
            !a.sorts_before(b),
            !b.sorts_before(c),
        ensures
            !a.sorts_before(c),
    ;
}

/// Whether the item at `i` goes before the one at `j`: the one whose key
/// sorts first does, and of two whose keys sort alike the one listed first.
pub open spec fn precedes<K: SortKey>(keys: Seq<K>, i: int, j: int) -> bool {
    keys[i].sorts_before(&keys[j]) || (!keys[j].sorts_before(&keys[i]) && i < j)
}

/// Whether `picked` lists the `count` first items in the order of
/// [`precedes`]: it holds `count` positions, in that order, and every position
/// it leaves out comes after each one it holds.
pub open spec fn is_selection<K: SortKey>(keys: Seq<K>, count: nat, picked: Seq<usize>) -> bool {
    &&& picked.len() == count
    &&& forall|a: int| 0 <= a < picked.len() ==> (#[trigger] picked[a]) < keys.len()
    &&& forall|a: int, b: int|
        0 <= a < b < picked.len() ==> precedes(keys, picked[a] as int, picked[b] as int)
    &&& forall|a: int, j: int|
        0 <= a < picked.len() && 0 <= j < keys.len() && !picked.contains(j as usize)
            ==> #[trigger] precedes(keys, picked[a] as int, j)
}

/// The number of positions not yet marked.
pub open spec fn unmarked(marks: Seq<bool>) -> nat
    decreases marks.len(),
{
    if marks.len() == 0 {
        0
    } else {
        unmarked(marks.drop_last()) + if marks.last() {
            0nat
        } else {
            1nat
        }
    }
}

proof fn lemma_unmarked_all_clear(marks: Seq<bool>)
    requires
        forall|i: int| 0 <= i < marks.len() ==> !(#[trigger] marks[i]),
    ensures
        unmarked(marks) == marks.len(),
    decreases marks.len(),
{
    if marks.len() > 0 {
        let front = marks.drop_last();
        assert forall|i: int| 0 <= i < front.len() implies !(#[trigger] front[i]) by {
            assert(front[i] == marks[i]);
        }
        lemma_unmarked_all_clear(front);
    }
}

proof fn lemma_unmarked_mark(marks: Seq<bool>, k: int)
    requires
        0 <= k < marks.len(),
        !marks[k],
    ensures
        unmarked(marks.update(k, true)) + 1 == unmarked(marks),
    decreases marks.len(),
{
    let after = marks.update(k, true);
    if k == marks.len() - 1 {
        assert(after.drop_last() =~= marks.drop_last());
    } else {
        lemma_unmarked_mark(marks.drop_last(), k);
        assert(after.drop_last() =~= marks.drop_last().update(k, true));
    }
}

proof fn lemma_unmarked_exists(marks: Seq<bool>)
    requires
        unmarked(marks) > 0,
    ensures
        exists|i: int| 0 <= i < marks.len() && !(#[trigger] marks[i]),
    decreases marks.len(),
{
    if marks.len() > 0 {
        if marks.last() {
            lemma_unmarked_exists(marks.drop_last());
            let i = choose|i: int|
                0 <= i < marks.drop_last().len() && !(#[trigger] marks.drop_last()[i]);
            assert(!marks[i]);
        } else {
            assert(!marks[marks.len() - 1]);
        }
    }
}

proof fn lemma_unmarked_positive(marks: Seq<bool>, k: int)
    requires
        0 <= k < marks.len(),
        !marks[k],
    ensures
        unmarked(marks) > 0,
    decreases marks.len(),
{
    if k < marks.len() - 1 {
        lemma_unmarked_positive(marks.drop_last(), k);
    }
}

/// Of two positions, one goes before the other, and never both ways; and
/// no position goes before itself.
pub proof fn lemma_precedes_is_strict_and_total<K: SortKey>(keys: Seq<K>, i: int, j: int)
    requires
        0 <= i < keys.len(),
        0 <= j < keys.len(),
    ensures
        !precedes(keys, i, i),
        i != j ==> (precedes(keys, i, j) <==> !precedes(keys, j, i)),
{
    K::lemma_irreflexive(&keys[i]);
    if keys[i].sorts_before(&keys[j]) && keys[j].sorts_before(&keys[i]) {
        K::lemma_transitive(&keys[i], &keys[j], &keys[i]);
    }
}

/// A selection is pinned down by the keys and the count: there is no
/// other list of positions that meets [`is_selection`].
pub proof fn selection_is_unique<K: SortKey>(
    keys: Seq<K>,
    count: nat,
    first: Seq<usize>,
    second: Seq<usize>,
)
    requires
        is_selection(keys, count, first),
        is_selection(keys, count, second),
    ensures
        first == second,
{
    assert forall|a: int| 0 <= a < count implies first[a] == second[a] by {
        lemma_selections_agree(keys, count, first, second, a);
    }
    assert(first =~= second);
}

proof fn lemma_selections_agree<K: SortKey>(
    keys: Seq<K>,
    count: nat,
    first: Seq<usize>,
    second: Seq<usize>,
    a: int,
)
    requires
        is_selection(keys, count, first),
        is_selection(keys, count, second),
        0 <= a < count,
    ensures
        first[a] == second[a],
    decreases a, 1int,
{
    let x = first[a] as int;
    let y = second[a] as int;
    if x != y {
        lemma_precedes_is_strict_and_total(keys, x, y);
        lemma_differing_do_not_precede(keys, count, first, second, a);
        lemma_differing_do_not_precede(keys, count, second, first, a);
    }
}

/// The step of [`lemma_selections_agree`]: where two selections differ at
/// `a`, the position that the first holds there does not go before the one
/// that the second holds.
proof fn lemma_differing_do_not_precede<K: SortKey>(
    keys: Seq<K>,
    count: nat,
    first: Seq<usize>,
    second: Seq<usize>,
    a: int,
)
    requires
        is_selection(keys, count, first),
        is_selection(keys, count, second),
        0 <= a < count,
        first[a] != second[a],
    ensures
        !precedes(keys, first[a] as int, second[a] as int),
    decreases a, 0int,
{
    let x = first[a];
    let y = second[a];
    lemma_precedes_is_strict_and_total(keys, x as int, y as int);
    lemma_precedes_is_strict_and_total(keys, x as int, x as int);
    if second.contains(x) {
        let b = choose|b: int| 0 <= b < second.len() && second[b] == x;
        if b < a {
            lemma_selections_agree(keys, count, first, second, b);
            assert(precedes(keys, first[b] as int, first[a] as int));
        } else {
            assert(b > a);
            assert(precedes(keys, second[a] as int, second[b] as int));
        }
    } else {
        assert(precedes(keys, second[a] as int, x as int));
    }
}

/// The position that goes first among those not yet marked.
fn first_unmarked<K: SortKey>(keys: &Vec<K>, marks: &Vec<bool>) -> (best: usize)
    requires
        marks.len() == keys.len(),
        unmarked(marks@) > 0,
    ensures
        best < keys.len(),
        !marks@[best as int],
        forall|j: int|
            0 <= j < keys.len() && !marks@[j] && j != best ==> precedes(keys@, best as int, j),
{
    let n = keys.len();
    let mut best: usize = n;
    let mut j: usize = 0;
    while j < n
        invariant
            n == keys.len(),
            marks.len() == n,
            j <= n,
            best <= n,
            best < n ==> best < j && !marks@[best as int],
            best == n ==> forall|i: int| 0 <= i < j ==> marks@[i],
            forall|i: int|
                0 <= i < j && !marks@[i] && i != best ==> precedes(keys@, best as int, i),
        decreases n - j,
    {
        if !marks[j] {
            if best == n {
                best = j;
            } else if keys[j].is_before(&keys[best]) {
                proof {
                    let old_best = best as int;
                    let new_best = j as int;
                    assert forall|i: int|
                        0 <= i < j + 1 && !marks@[i] && i != new_best implies precedes(
                        keys@,
                        new_best,
                        i,
                    ) by {
                        if i != old_best {
                            assert(precedes(keys@, old_best, i));
                            if keys@[old_best].sorts_before(&keys@[i]) {
                                K::lemma_transitive(&keys@[new_best], &keys@[old_best], &keys@[i]);
                            } else if !keys@[new_best].sorts_before(&keys@[i]) {
                                K::lemma_alike_transitive(
                                    &keys@[new_best],
                                    &keys@[i],
                                    &keys@[old_best],
                                );
                            }
                        }
                    }
                }
                best = j;
            }
        }
        j += 1;
    }
    proof {
        if best == n {
            lemma_unmarked_exists(marks@);
        }
    }
    best
}

/// The positions of the `count` items that sort first, in that order. Of
/// two items that sort alike the one listed first goes first.
pub fn select_first<K: SortKey>(keys: &Vec<K>, count: usize) -> (picked: Vec<usize>)
    requires
        count <= keys.len(),
    ensures
        is_selection(keys@, count as nat, picked@),
        count == keys.len() ==> forall|j: int|
            0 <= j < keys.len() ==> picked@.contains(#[trigger] (j as usize)),
{
    let n = keys.len();
    let mut marks: Vec<bool> = Vec::new();
    let mut i: usize = 0;
    while i < n
        invariant
            i <= n,
            marks.len() == i,
            forall|k: int| 0 <= k < i ==> !(#[trigger] marks@[k]),
        decreases n - i,
    {
        marks.push(false);
        i += 1;
    }
    proof {
        lemma_unmarked_all_clear(marks@);
    }
    let mut picked: Vec<usize> = Vec::new();
    while picked.len() < count
        invariant
            n == keys.len(),
            count <= n,
            marks.len() == n,
            picked.len() <= count,
            unmarked(marks@) + picked.len() == n,
            forall|a: int| 0 <= a < picked.len() ==> (#[trigger] picked@[a]) < n,
            forall|j: int| 0 <= j < n ==> (#[trigger] marks@[j] <==> picked@.contains(j as usize)),
            forall|a: int, b: int|
                0 <= a < b < picked.len() ==> precedes(
                    keys@,
                    picked@[a] as int,
                    picked@[b] as int,
                ),
            forall|a: int, j: int|
                0 <= a < picked.len() && 0 <= j < n && !marks@[j] ==> #[trigger] precedes(
                    keys@,
                    picked@[a] as int,
                    j,
                ),
        decreases count - picked.len(),
    {
        let best = first_unmarked(keys, &marks);
        let ghost old_marks = marks@;
        let ghost old_picked = picked@;
        proof {
            lemma_unmarked_mark(marks@, best as int);
        }
        marks.set(best, true);
        picked.push(best);
        proof {
            assert(picked@[old_picked.len() as int] == best);
            assert forall|j: int| 0 <= j < n implies (#[trigger] marks@[j] <==> picked@.contains(
                j as usize,
            )) by {
                if j == best {
                    assert(picked@[old_picked.len() as int] == j as usize);
                } else {
                    assert(marks@[j] == old_marks[j]);
                    if old_picked.contains(j as usize) {
                        let a = choose|a: int|
                            0 <= a < old_picked.len() && old_picked[a] == j as usize;
                        assert(picked@[a] == j as usize);
                    }
                    if picked@.contains(j as usize) {
                        let a = choose|a: int| 0 <= a < picked@.len() && picked@[a] == j as usize;
                        assert(a < old_picked.len());
                        assert(old_picked[a] == j as usize);
                    }
                }
            }
            assert forall|a: int, b: int| 0 <= a < b < picked.len() implies precedes(
                keys@,
                picked@[a] as int,
                picked@[b] as int,
            ) by {
                if b == old_picked.len() {
                    assert(picked@[a] == old_picked[a]);
                } else {
                    assert(picked@[a] == old_picked[a]);
                    assert(picked@[b] == old_picked[b]);
                }
            }
            assert forall|a: int, j: int|
                0 <= a < picked.len() && 0 <= j < n && !marks@[j] implies #[trigger] precedes(
                keys@,
                picked@[a] as int,
                j,
            ) by {
                assert(!old_marks[j]);
                if a < old_picked.len() {
                    assert(picked@[a] == old_picked[a]);
                }
            }
        }
    }
    proof {
        assert forall|a: int, j: int|
            0 <= a < picked.len() && 0 <= j < keys@.len() && !picked@.contains(
                j as usize,
            ) implies #[trigger] precedes(keys@, picked@[a] as int, j) by {
            assert(!marks@[j]);
        }
        if count == n {
            assert forall|j: int| 0 <= j < n implies picked@.contains(#[trigger] (j as usize)) by {
                if !marks@[j] {
                    lemma_unmarked_positive(marks@, j);
                }
            }
        }
    }
    picked
}

} // verus!
