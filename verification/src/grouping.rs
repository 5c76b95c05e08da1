//! Grouping child rows under their parent rows by foreign key, as the
//! listing endpoints do with the tracks of albums and of artists.
use vstd::prelude::*;

verus! {

/// The views of a sequence of optional keys.
pub open spec fn key_views(keys: Seq<Option<String>>) -> Seq<Option<Seq<char>>> {
    keys.map_values(|k: Option<String>| match k {
        Some(s) => Some(s@),
        None => None,
    })
}

/// The views of a sequence of ids.
pub open spec fn id_views(ids: Seq<String>) -> Seq<Seq<char>> {
    ids.map_values(|s: String| s@)
}

/// The position of the last parent whose id is `key`, if any.
pub open spec fn last_index_of(ids: Seq<Seq<char>>, key: Seq<char>) -> Option<int>
    decreases ids.len(),
{
    if ids.len() == 0 {
        None
    } else if ids.last() == key {
        Some(ids.len() - 1)
    } else {
        last_index_of(ids.drop_last(), key)
    }
}

/// The parent that a child with foreign key `key` belongs to: the last
/// parent with that id; none for a child without key or with an unknown one.
pub open spec fn slot_of(ids: Seq<Seq<char>>, key: Option<Seq<char>>) -> Option<int> {
    match key {
        Some(k) => last_index_of(ids, k),
        None => None,
    }
}

/// The children that belong to parent `i`, in their original order.
pub open spec fn group_of<T>(
    ids: Seq<Seq<char>>,
    children: Seq<T>,
    keys: Seq<Option<Seq<char>>>,
    i: int,
) -> Seq<T>
    decreases children.len(),
{
    if children.len() == 0 {
        Seq::empty()
    } else {
        let rest = group_of(ids, children.drop_last(), keys.drop_last(), i);
        if slot_of(ids, keys.last()) == Some(i) {
            rest.push(children.last())
        } else {
            rest
        }
    }
}

proof fn lemma_last_index_of_bounds(ids: Seq<Seq<char>>, key: Seq<char>)
    ensures
        last_index_of(ids, key) matches Some(i) ==> 0 <= i < ids.len() && ids[i] == key,
        last_index_of(ids, key) is None ==> forall|j: int| 0 <= j < ids.len() ==> ids[j] != key,
        last_index_of(ids, key) matches Some(i) ==> forall|j: int|
            i < j < ids.len() ==> ids[j] != key,
    decreases ids.len(),
{
    if ids.len() > 0 {
        let d = ids.drop_last();
        lemma_last_index_of_bounds(d, key);
        assert forall|j: int| 0 <= j < ids.len() - 1 implies ids[j] == d[j] by {}
    }
}

proof fn lemma_last_index_of_prefix(ids: Seq<Seq<char>>, key: Seq<char>, i: int)
    requires
        0 <= i <= ids.len(),
        forall|j: int| i <= j < ids.len() ==> ids[j] != key,
    ensures
        last_index_of(ids, key) == last_index_of(ids.take(i), key),
    decreases ids.len() - i,
{
    if i < ids.len() {
        assert(ids.drop_last() =~= ids.drop_last().take(ids.len() - 1));
        lemma_last_index_of_prefix(ids.drop_last(), key, i);
        assert(ids.drop_last().take(i) =~= ids.take(i));
    } else {
        assert(ids.take(i) =~= ids);
    }
}

/// How many children the first `n` groups hold together.
pub open spec fn grouped_count<T>(
    ids: Seq<Seq<char>>,
    children: Seq<T>,
    keys: Seq<Option<Seq<char>>>,
    n: int,
) -> int
    decreases n,
{
    if n <= 0 {
        0
    } else {
        grouped_count(ids, children, keys, n - 1) + group_of(ids, children, keys, n - 1).len()
    }
}

/// How many of the keys name one of the ids.
pub open spec fn placed_count(ids: Seq<Seq<char>>, keys: Seq<Option<Seq<char>>>) -> int
    decreases keys.len(),
{
    if keys.len() == 0 {
        0
    } else {
        placed_count(ids, keys.drop_last()) + if slot_of(ids, keys.last()) is Some {
            1int
        } else {
            0int
        }
    }
}

proof fn lemma_grouped_count_step<T>(
    ids: Seq<Seq<char>>,
    children: Seq<T>,
    keys: Seq<Option<Seq<char>>>,
    n: int,
)
    requires
        children.len() > 0,
        0 <= n,
    ensures
        grouped_count(ids, children, keys, n) == grouped_count(
            ids,
            children.drop_last(),
            keys.drop_last(),
            n,
        ) + if slot_of(ids, keys.last()) matches Some(s) && s < n {
            1int
        } else {
            0int
        },
    decreases n,
{
    match keys.last() {
        Some(k) => lemma_last_index_of_bounds(ids, k),
        None => {},
    }
    if n > 0 {
        lemma_grouped_count_step(ids, children, keys, n - 1);
        assert(group_of(ids, children, keys, n - 1) == if slot_of(ids, keys.last()) == Some(n - 1) {
            group_of(ids, children.drop_last(), keys.drop_last(), n - 1).push(children.last())
        } else {
            group_of(ids, children.drop_last(), keys.drop_last(), n - 1)
        });
    }
}

/// Grouping loses no child that has a parent: the groups together hold
/// exactly as many children as there are keys that name a parent.
pub proof fn grouping_keeps_placed_children<T>(
    ids: Seq<Seq<char>>,
    children: Seq<T>,
    keys: Seq<Option<Seq<char>>>,
)
    requires
        children.len() == keys.len(),
    ensures
        grouped_count(ids, children, keys, ids.len() as int) == placed_count(ids, keys),
    decreases children.len(),
{
    if children.len() > 0 {
        lemma_grouped_count_step(ids, children, keys, ids.len() as int);
        grouping_keeps_placed_children(ids, children.drop_last(), keys.drop_last());
        match keys.last() {
            Some(k) => lemma_last_index_of_bounds(ids, k),
            None => {},
        }
    } else {
        assert(grouped_count(ids, children, keys, ids.len() as int) == 0) by {
            lemma_grouped_count_empty(ids, children, keys, ids.len() as int);
        }
    }
}

proof fn lemma_grouped_count_empty<T>(
    ids: Seq<Seq<char>>,
    children: Seq<T>,
    keys: Seq<Option<Seq<char>>>,
    n: int,
)
    requires
        children.len() == 0,
    ensures
        grouped_count(ids, children, keys, n) == 0,
    decreases n,
{
    if n > 0 {
        lemma_grouped_count_empty(ids, children, keys, n - 1);
    }
}

/// When every key names one of the ids, the groups together hold all the
/// children.
pub proof fn grouping_keeps_all_children<T>(
    ids: Seq<Seq<char>>,
    children: Seq<T>,
    keys: Seq<Option<Seq<char>>>,
)
    requires
        children.len() == keys.len(),
        forall|j: int| 0 <= j < keys.len() ==> ((#[trigger] keys[j]) matches Some(k) && ids.contains(k)),
    ensures
        grouped_count(ids, children, keys, ids.len() as int) == children.len(),
{
    grouping_keeps_placed_children(ids, children, keys);
    lemma_all_placed(ids, keys);
}

proof fn lemma_all_placed(ids: Seq<Seq<char>>, keys: Seq<Option<Seq<char>>>)
    requires
        forall|j: int| 0 <= j < keys.len() ==> ((#[trigger] keys[j]) matches Some(k) && ids.contains(k)),
    ensures
        placed_count(ids, keys) == keys.len(),
    decreases keys.len(),
{
    if keys.len() > 0 {
        let d = keys.drop_last();
        assert forall|j: int| 0 <= j < d.len() implies ((#[trigger] d[j]) matches Some(k) && ids.contains(k)) by {
            assert(d[j] == keys[j]);
        }
        lemma_all_placed(ids, d);
        let k = keys.last()->Some_0;
        assert(keys[keys.len() - 1] == keys.last());
        let w = choose|w: int| 0 <= w < ids.len() && ids[w] == k;
        lemma_last_index_of_bounds(ids, k);
    }
}

/// Finds the position of the last id equal to `key`.
fn find_last(ids: &Vec<String>, key: &String) -> (r: Option<usize>)
    ensures
        r matches Some(i) ==> last_index_of(id_views(ids@), key@) == Some(i as int),
        r is None ==> last_index_of(id_views(ids@), key@) is None,
{
    let ghost v = id_views(ids@);
    let mut i: usize = ids.len();
    while i > 0
        invariant
            i <= ids.len(),
            v == id_views(ids@),
            forall|j: int| i <= j < ids.len() ==> v[j] != key@,
        decreases i,
    {
        i = i - 1;
        if ids[i] == *key {
            proof {
                lemma_last_index_of_prefix(v, key@, i + 1);
                assert(v.take(i + 1).drop_last() =~= v.take(i as int));
            }
            return Some(i);
        }
    }
    proof {
        lemma_last_index_of_prefix(v, key@, 0);
    }
    None
}

/// Distributes `children` over the parents with ids `ids`: the child at
/// position `j`, whose foreign key is `keys[j]`, goes to the last parent
/// whose id equals that key, and is dropped when there is none. Each group
/// keeps the children in the order they came.
pub fn grouped_by<T>(ids: &Vec<String>, children: Vec<T>, keys: &Vec<Option<String>>) -> (r: Vec<
    Vec<T>,
>)
    requires
        children.len() == keys.len(),
    ensures
        r.len() == ids.len(),
        forall|i: int|
            0 <= i < ids.len() ==> #[trigger] r[i]@ == group_of(
                id_views(ids@),
                children@,
                key_views(keys@),
                i,
            ),
{
    let ghost idv = id_views(ids@);
    let ghost kv = key_views(keys@);
    let ghost all = children@;
    let mut result: Vec<Vec<T>> = Vec::new();
    let mut n: usize = 0;
    while n < ids.len()
        invariant
            n <= ids.len(),
            result.len() == n,
            forall|i: int| 0 <= i < n ==> #[trigger] result[i]@ == Seq::<T>::empty(),
        decreases ids.len() - n,
    {
        result.push(Vec::new());
        n = n + 1;
    }
    let mut rest = children;
    let mut j: usize = 0;
    while rest.len() > 0
        invariant
            j <= all.len(),
            all.len() == keys.len(),
            rest@ == all.skip(j as int),
            idv == id_views(ids@),
            kv == key_views(keys@),
            result.len() == ids.len(),
            forall|i: int|
                0 <= i < ids.len() ==> #[trigger] result[i]@ == group_of(
                    idv,
                    all.take(j as int),
                    kv.take(j as int),
                    i,
                ),
        decreases rest.len(),
    {
        let child = rest.remove(0);
        let ghost before = result@;
        assert(all.take(j + 1).drop_last() =~= all.take(j as int));
        assert(kv.take(j + 1).drop_last() =~= kv.take(j as int));
        assert(all.take(j + 1).last() == all[j as int]);
        assert(kv.take(j + 1).last() == kv[j as int]);
        let slot = match &keys[j] {
            Some(k) => find_last(ids, k),
            None => None,
        };
        assert(kv[j as int] == match keys@[j as int] {
            Some(s) => Some(s@),
            None => None::<Seq<char>>,
        });
        match slot {
            Some(s) => {
                proof {
                    lemma_last_index_of_bounds(idv, keys@[j as int]->Some_0@);
                }
                result[s].push(child);
                assert forall|i: int| 0 <= i < ids.len() implies #[trigger] result[i]@ == group_of(
                    idv,
                    all.take(j + 1),
                    kv.take(j + 1),
                    i,
                ) by {
                    if i != s {
                        assert(result[i] == before[i]);
                    }
                }
            },
            None => {
                assert forall|i: int| 0 <= i < ids.len() implies #[trigger] result[i]@ == group_of(
                    idv,
                    all.take(j + 1),
                    kv.take(j + 1),
                    i,
                ) by {
                    assert(result[i] == before[i]);
                }
            },
        }
        j = j + 1;
    }
    assert(all.take(j as int) =~= all);
    assert(kv.take(j as int) =~= kv);
    result
}

} // verus!
