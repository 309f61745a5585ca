//! The order in which the nodes of a collection are printed: by kind, then
//! by name, and nodes that agree in both in the order in which they were
//! given.

use vstd::prelude::*;

verus! {

/// What a node is ordered by: the rank of its kind and its name.
pub struct SortKey {
    pub rank: i64,
    pub name: Vec<char>,
}

impl View for SortKey {
    type V = (int, Seq<char>);

    open spec fn view(&self) -> (int, Seq<char>) {
        (self.rank as int, self.name@)
    }
}

/// The keys of a vector of keys, as plain values.
pub open spec fn key_views(keys: Seq<SortKey>) -> Seq<(int, Seq<char>)> {
    Seq::new(keys.len(), |i: int| keys[i]@)
}

/// Lexicographic order on names: `a` comes before `b` where `a` is a proper
/// prefix of `b`, or where, at the first place at which they differ, `a` has
/// the character with the smaller code point.
pub open spec fn name_before(a: Seq<char>, b: Seq<char>) -> bool
    decreases a.len(),
{
    if b.len() == 0 {
        false
    } else if a.len() == 0 {
        true
    } else if a[0] != b[0] {
        a[0] < b[0]
    } else {
        name_before(a.drop_first(), b.drop_first())
    }
}

/// Order on keys: by rank, and by name where the ranks are equal.
pub open spec fn key_before(a: (int, Seq<char>), b: (int, Seq<char>)) -> bool {
    a.0 < b.0 || (a.0 == b.0 && name_before(a.1, b.1))
}

/// Whether the node at index `i` is printed before the node at index `j`: its
/// key comes first, or the keys are equal and it was given first.
pub open spec fn printed_before(keys: Seq<(int, Seq<char>)>, i: int, j: int) -> bool {
    key_before(keys[i], keys[j]) || (keys[i] == keys[j] && i < j)
}

/// Whether `order` lists the indices of `keys` in the order of printing: it
/// holds every index, nothing but indices, and whatever stands earlier in it
/// is printed before whatever stands later.
pub open spec fn is_print_order(keys: Seq<(int, Seq<char>)>, order: Seq<int>) -> bool {
    &&& order.len() == keys.len()
    &&& forall|k: int| 0 <= k < order.len() ==> 0 <= #[trigger] order[k] < keys.len()
    &&& forall|i: int| 0 <= i < keys.len() ==> #[trigger] order.contains(i)
    &&& forall|k: int, l: int|
        0 <= k < l < order.len() ==> printed_before(keys, #[trigger] order[k], #[trigger] order[l])
}

/// The order of printing: the one list of indices that `is_print_order`
/// describes.
pub open spec fn print_order(keys: Seq<(int, Seq<char>)>) -> Seq<int> {
    choose|order: Seq<int>| is_print_order(keys, order)
}

/// Where the index `x` goes into `order`: behind the last entry whose key
/// does not come after the key of `x`.
spec fn insert_position(keys: Seq<(int, Seq<char>)>, order: Seq<int>, x: int) -> int
    decreases order.len(),
{
    if order.len() > 0 && key_before(keys[x], keys[order.last()]) {
        insert_position(keys, order.drop_last(), x)
    } else {
        order.len() as int
    }
}

/// The order of printing, built by putting one index after another in its
/// place.
spec fn insertion_order(keys: Seq<(int, Seq<char>)>) -> Seq<int>
    decreases keys.len(),
{
    if keys.len() == 0 {
        Seq::empty()
    } else {
        let before = insertion_order(keys.drop_last());
        before.insert(insert_position(keys, before, keys.len() - 1), keys.len() - 1)
    }
}

/// Of two names, one comes before the other, or they are the same name.
pub proof fn lemma_name_order_total(a: Seq<char>, b: Seq<char>)
    ensures
        name_before(a, b) || a == b || name_before(b, a),
    decreases a.len(),
{
    if a.len() > 0 && b.len() > 0 && a[0] == b[0] {
        lemma_name_order_total(a.drop_first(), b.drop_first());
        if a.drop_first() == b.drop_first() {
            assert(a =~= seq![a[0]] + a.drop_first());
            assert(b =~= seq![b[0]] + b.drop_first());
        }
    } else if a.len() == 0 && b.len() == 0 {
        assert(a =~= b);
    }
}

/// No name comes before itself, and of two names not both come before the
/// other.
pub proof fn lemma_name_order_asymmetric(a: Seq<char>, b: Seq<char>)
    ensures
        !name_before(a, a),
        !(name_before(a, b) && name_before(b, a)),
    decreases a.len(),
{
    if a.len() > 0 {
        lemma_name_order_asymmetric(a.drop_first(), a.drop_first());
        if b.len() > 0 && a[0] == b[0] {
            lemma_name_order_asymmetric(a.drop_first(), b.drop_first());
        }
    }
}

/// A name that comes before a second, which comes before a third, comes
/// before the third.
pub proof fn lemma_name_order_transitive(a: Seq<char>, b: Seq<char>, c: Seq<char>)
    requires
        name_before(a, b),
        name_before(b, c),
    ensures
        name_before(a, c),
    decreases a.len(),
{
    if a.len() > 0 && a[0] == b[0] && b[0] == c[0] {
        lemma_name_order_transitive(a.drop_first(), b.drop_first(), c.drop_first());
    }
}

/// Printing order is a strict total order on the indices of a collection.
pub proof fn lemma_printed_before_is_total_order(keys: Seq<(int, Seq<char>)>)
    ensures
        forall|i: int| !#[trigger] printed_before(keys, i, i),
        forall|i: int, j: int|
            !(#[trigger] printed_before(keys, i, j) && #[trigger] printed_before(keys, j, i)),
        forall|i: int, j: int|
            i != j ==> #[trigger] printed_before(keys, i, j) || #[trigger] printed_before(
                keys,
                j,
                i,
            ),
        forall|i: int, j: int, k: int|
            #[trigger] printed_before(keys, i, j) && #[trigger] printed_before(keys, j, k)
                ==> printed_before(keys, i, k),
{
    assert forall|i: int| !#[trigger] printed_before(keys, i, i) by {
        lemma_name_order_asymmetric(keys[i].1, keys[i].1);
    }
    assert forall|i: int, j: int|
        !(#[trigger] printed_before(keys, i, j) && #[trigger] printed_before(keys, j, i)) by {
        lemma_name_order_asymmetric(keys[i].1, keys[j].1);
        lemma_name_order_asymmetric(keys[i].1, keys[i].1);
    }
    assert forall|i: int, j: int| i != j implies #[trigger] printed_before(keys, i, j)
        || #[trigger] printed_before(keys, j, i) by {
        lemma_name_order_total(keys[i].1, keys[j].1);
    }
    assert forall|i: int, j: int, k: int|
        #[trigger] printed_before(keys, i, j) && #[trigger] printed_before(
            keys,
            j,
            k,
        ) implies printed_before(keys, i, k) by {
        if name_before(keys[i].1, keys[j].1) && name_before(keys[j].1, keys[k].1) {
            lemma_name_order_transitive(keys[i].1, keys[j].1, keys[k].1);
        }
    }
}

/// Every entry from the insert position on has a key that comes after the
/// key of `x`, and the entry just before the position has not.
proof fn lemma_insert_position(keys: Seq<(int, Seq<char>)>, order: Seq<int>, x: int)
    ensures
        0 <= insert_position(keys, order, x) <= order.len(),
        forall|k: int|
            insert_position(keys, order, x) <= k < order.len() ==> key_before(
                keys[x],
                keys[#[trigger] order[k]],
            ),
        insert_position(keys, order, x) > 0 ==> !key_before(
            keys[x],
            keys[order[insert_position(keys, order, x) - 1]],
        ),
    decreases order.len(),
{
    if order.len() > 0 && key_before(keys[x], keys[order.last()]) {
        let shorter = order.drop_last();
        lemma_insert_position(keys, shorter, x);
        let position = insert_position(keys, shorter, x);
        assert forall|k: int| position <= k < order.len() implies key_before(
            keys[x],
            keys[#[trigger] order[k]],
        ) by {
            if k < shorter.len() {
                assert(shorter[k] == order[k]);
            }
        }
    }
}

/// The insert position depends only on the entries in front of the first
/// one whose key comes after the key of `x` and on all behind it doing so.
proof fn lemma_insert_position_found(
    keys: Seq<(int, Seq<char>)>,
    order: Seq<int>,
    x: int,
    position: int,
)
    requires
        0 <= position <= order.len(),
        forall|k: int|
            position <= k < order.len() ==> key_before(keys[x], keys[#[trigger] order[k]]),
        position > 0 ==> !key_before(keys[x], keys[order[position - 1]]),
    ensures
        insert_position(keys, order, x) == position,
    decreases order.len() - position,
{
    if position < order.len() {
        assert(key_before(keys[x], keys[order[order.len() - 1]]));
        lemma_insert_position_found(keys, order.drop_last(), x, position);
    }
}

/// The built order is an order of printing.
proof fn lemma_insertion_order(keys: Seq<(int, Seq<char>)>)
    ensures
        is_print_order(keys, insertion_order(keys)),
    decreases keys.len(),
{
    if keys.len() > 0 {
        let shorter = keys.drop_last();
        let before = insertion_order(shorter);
        let x = keys.len() - 1;
        let position = insert_position(keys, before, x);
        let order = insertion_order(keys);
        lemma_insertion_order(shorter);
        lemma_insert_position(keys, before, x);
        lemma_printed_before_is_total_order(keys);
        assert forall|k: int, l: int| 0 <= k < l < before.len() implies printed_before(
            keys,
            #[trigger] before[k],
            #[trigger] before[l],
        ) by {
            assert(printed_before(shorter, before[k], before[l]));
        }
        assert forall|i: int| 0 <= i < keys.len() implies #[trigger] order.contains(i) by {
            if i == x {
                assert(order[position] == x);
            } else {
                assert(before.contains(i));
                let k = choose|k: int| 0 <= k < before.len() && before[k] == i;
                if k < position {
                    assert(order[k] == i);
                } else {
                    assert(order[k + 1] == i);
                }
            }
        }
        assert forall|k: int, l: int| 0 <= k < l < order.len() implies printed_before(
            keys,
            #[trigger] order[k],
            #[trigger] order[l],
        ) by {
            if l == position {
                // The entry just in front of the new index is printed before
                // it, and so is every entry in front of that one.
                let last = before[position - 1];
                assert(!printed_before(keys, x, last));
                assert(printed_before(keys, last, x));
                assert(order[k] == before[k]);
            } else if k == position {
                assert(order[l] == before[l - 1]);
            }
        }
    }
}

/// Two orders of printing of one collection agree in their first `n` entries.
proof fn lemma_print_orders_agree(
    keys: Seq<(int, Seq<char>)>,
    first: Seq<int>,
    second: Seq<int>,
    n: int,
)
    requires
        is_print_order(keys, first),
        is_print_order(keys, second),
        0 <= n <= keys.len(),
    ensures
        forall|k: int| 0 <= k < n ==> first[k] == second[k],
    decreases n,
{
    if n > 0 {
        lemma_print_orders_agree(keys, first, second, n - 1);
        lemma_printed_before_is_total_order(keys);
        let k = n - 1;
        if first[k] != second[k] {
            // The one that is printed first stands in the other order too,
            // and it can stand there neither earlier nor later.
            if printed_before(keys, first[k], second[k]) {
                assert(second.contains(first[k]));
                let m = choose|m: int| 0 <= m < second.len() && second[m] == first[k];
                if m < k {
                    assert(printed_before(keys, first[m], first[k]));
                } else {
                    assert(printed_before(keys, second[k], second[m]));
                }
            } else {
                assert(first.contains(second[k]));
                let m = choose|m: int| 0 <= m < first.len() && first[m] == second[k];
                if m < k {
                    assert(printed_before(keys, second[m], second[k]));
                } else {
                    assert(printed_before(keys, first[k], first[m]));
                }
            }
        }
    }
}

/// Every collection has an order of printing, and only one: the order is
/// fully determined by the kinds and names of the nodes and the order in
/// which they were given.
pub proof fn lemma_print_order_unique(keys: Seq<(int, Seq<char>)>, order: Seq<int>)
    ensures
        is_print_order(keys, print_order(keys)),
        is_print_order(keys, order) ==> order == print_order(keys),
{
    lemma_insertion_order(keys);
    if is_print_order(keys, order) {
        lemma_print_orders_agree(keys, order, print_order(keys), keys.len() as int);
        assert(order =~= print_order(keys));
    }
}

/// Nodes are printed by kind, nodes of one kind by name, and nodes of one
/// kind and name in the order in which they were given.
pub proof fn lemma_print_order_sorted(keys: Seq<(int, Seq<char>)>, k: int, l: int)
    requires
        0 <= k < l < keys.len(),
    ensures
        ({
            let earlier = keys[print_order(keys)[k]];
            let later = keys[print_order(keys)[l]];
            &&& earlier.0 <= later.0
            &&& earlier.0 == later.0 ==> !name_before(later.1, earlier.1)
            &&& earlier == later ==> print_order(keys)[k] < print_order(keys)[l]
        }),
{
    lemma_print_order_unique(keys, print_order(keys));
    let order = print_order(keys);
    assert(printed_before(keys, order[k], order[l]));
    lemma_name_order_asymmetric(keys[order[k]].1, keys[order[l]].1);
}

/// Whether the name `a` comes before the name `b`.
pub fn name_precedes(a: &Vec<char>, b: &Vec<char>) -> (before: bool)
    ensures
        before == name_before(a@, b@),
{
    let mut i: usize = 0;
    proof {
        assert(a@.skip(0) == a@);
        assert(b@.skip(0) == b@);
    }
    while i < a.len() && i < b.len() && a[i] == b[i]
        invariant
            i <= a.len(),
            i <= b.len(),
            name_before(a@, b@) == name_before(a@.skip(i as int), b@.skip(i as int)),
        decreases a.len() - i,
    {
        proof {
            assert(a@.skip(i as int).drop_first() == a@.skip(i + 1));
            assert(b@.skip(i as int).drop_first() == b@.skip(i + 1));
        }
        i += 1;
    }
    if i >= b.len() {
        false
    } else if i >= a.len() {
        true
    } else {
        a[i] < b[i]
    }
}

/// Whether the key `a` comes before the key `b`.
pub fn key_precedes(a: &SortKey, b: &SortKey) -> (before: bool)
    ensures
        before == key_before(a@, b@),
{
    a.rank < b.rank || (a.rank == b.rank && name_precedes(&a.name, &b.name))
}

/// The indices of `order`, as integers.
pub open spec fn index_values(order: Seq<usize>) -> Seq<int> {
    Seq::new(order.len(), |k: int| order[k] as int)
}

/// The order in which the nodes with these keys are printed, as indices
/// into `keys`.
pub fn sorted_indices(keys: &Vec<SortKey>) -> (order: Vec<usize>)
    ensures
        index_values(order@) == print_order(key_views(keys@)),
        order@.len() == keys@.len(),
        forall|k: int| 0 <= k < order@.len() ==> #[trigger] order@[k] < keys@.len(),
{
    let ghost all = key_views(keys@);
    let mut order: Vec<usize> = Vec::new();
    let mut next: usize = 0;
    while next < keys.len()
        invariant
            next <= keys.len(),
            all == key_views(keys@),
            order@.len() == next,
            index_values(order@) == insertion_order(all.take(next as int)),
            forall|k: int| 0 <= k < order@.len() ==> #[trigger] order@[k] < next,
        decreases keys.len() - next,
    {
        let ghost known = all.take(next + 1);
        let ghost before = index_values(order@);
        let mut position: usize = order.len();
        while position > 0 && key_precedes(&keys[next], &keys[order[position - 1]])
            invariant
                position <= order@.len(),
                order@.len() == next,
                next < keys.len(),
                all == key_views(keys@),
                known == all.take(next + 1),
                before == index_values(order@),
                forall|k: int| 0 <= k < order@.len() ==> #[trigger] order@[k] < next,
                forall|k: int|
                    position <= k < before.len() ==> key_before(
                        known[next as int],
                        known[#[trigger] before[k]],
                    ),
            decreases position,
        {
            position -= 1;
        }
        proof {
            lemma_insert_position_found(known, before, next as int, position as int);
            assert(known.drop_last() == all.take(next as int));
        }
        order.insert(position, next);
        next += 1;
    }
    proof {
        assert(all.take(next as int) == all);
        lemma_insertion_order(all);
        lemma_print_order_unique(all, index_values(order@));
    }
    order
}

} // verus!
