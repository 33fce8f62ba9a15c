//! Joiner that assembles linked models by key.

use std::collections::HashMap;
use std::hash::Hash;
use vstd::prelude::*;

verus! {

broadcast use vstd::std_specs::hash::group_hash_axioms;

/// Specifies conditions for joining `Self` with `<R>`
pub trait Joinable<R> where R: Clone {
    type Key: Clone + Hash + Eq + PartialEq;

    /// The key of `self` that is matched against the references of `R`
    spec fn join_key(&self) -> Self::Key;

    /// The key under which a model of `R` refers to `Self`
    spec fn reference_key(t: &R) -> Self::Key;

    fn join_on(&self) -> (k: &Self::Key)
        ensures
            *k == self.join_key(),
    ;

    fn reference(t: &R) -> (k: &Self::Key)
        ensures
            *k == Self::reference_key(t),
    ;
}

/// Cloning a key of type `K` yields a key equal to the one it was cloned from.
pub open spec fn clones_exactly<K: Clone>() -> bool {
    forall|a: K, b: K| #[trigger] cloned(a, b) ==> a == b
}

/// Index of `table` by `key`: every key maps to the last model that carries it.
pub open spec fn keyed_index<K, W>(table: Seq<W>, key: spec_fn(W) -> K) -> Map<K, W>
    decreases table.len(),
{
    if table.len() == 0 {
        Map::empty()
    } else {
        keyed_index(table.drop_last(), key).insert(key(table.last()), table.last())
    }
}

/// Index of `table` by `key`: every key maps to the models that carry it, in table order.
pub open spec fn grouped_index<K, W>(table: Seq<W>, key: spec_fn(W) -> K) -> Map<K, Seq<W>>
    decreases table.len(),
{
    if table.len() == 0 {
        Map::empty()
    } else {
        let m = grouped_index(table.drop_last(), key);
        let k = key(table.last());
        if m.contains_key(k) {
            m.insert(k, m[k].push(table.last()))
        } else {
            m.insert(k, seq![table.last()])
        }
    }
}

/// Inner join of `left` (whose `i`-th model has key `keys[i]`) with an index:
/// every left model whose key is indexed is paired with the indexed value, in left order.
pub open spec fn inner_join<T, K, V>(left: Seq<T>, keys: Seq<K>, idx: Map<K, V>) -> Seq<(T, V)>
    decreases left.len(),
{
    if left.len() == 0 {
        seq![]
    } else {
        let prev = inner_join(left.drop_last(), keys.take(left.len() - 1), idx);
        let k = keys[left.len() - 1];
        if idx.contains_key(k) {
            prev.push((left.last(), idx[k]))
        } else {
            prev
        }
    }
}

/// The reference key of `J` for models of `W`, as a spec closure.
pub open spec fn reference_of<W: Clone, J: Joinable<W>>() -> spec_fn(W) -> J::Key {
    |w: W| J::reference_key(&w)
}

/// `js[i]` is a possible answer of `on` for `left[i]`, for every `i`.
pub open spec fn picked_by<T, J, F: Fn(&T) -> &J>(on: F, left: Seq<T>, js: Seq<J>) -> bool {
    &&& js.len() == left.len()
    &&& forall|i: int| 0 <= i < left.len() ==> call_ensures(on, (&left[i],), &#[trigger] js[i])
}

/// `r` holds the pairs of `joined`, each left model moved and each right model cloned.
pub open spec fn pairs_cloned_from<T, W: Clone>(r: Seq<(T, W)>, joined: Seq<(T, W)>) -> bool {
    &&& r.len() == joined.len()
    &&& forall|i: int|
        0 <= i < joined.len() ==> (#[trigger] r[i]).0 == joined[i].0 && cloned(joined[i].1, r[i].1)
}

/// `r` holds the pairs of `joined`, each left model moved and each group cloned item by item.
pub open spec fn groups_cloned_from<T, W: Clone>(
    r: Seq<(T, Vec<W>)>,
    joined: Seq<(T, Seq<W>)>,
) -> bool {
    &&& r.len() == joined.len()
    &&& forall|i: int|
        #![trigger r[i]]
        0 <= i < joined.len() ==> {
            &&& r[i].0 == joined[i].0
            &&& r[i].1@.len() == joined[i].1.len()
            &&& forall|j: int|
                0 <= j < joined[i].1.len() ==> cloned(joined[i].1[j], #[trigger] r[i].1@[j])
        }
}

/// The contents of each group of an index.
pub open spec fn group_views<K, W>(m: Map<K, Vec<W>>) -> Map<K, Seq<W>> {
    m.map_values(|v: Vec<W>| v@)
}

/// Joiner for assembling linked models
///
/// Allows combining models that implement the [`Joinable`] trait
/// based on indices and assembling them into projection models
pub struct JoinBuilder<T> {
    join: Vec<T>,
}

impl<T> View for JoinBuilder<T> {
    type V = Seq<T>;

    closed spec fn view(&self) -> Seq<T> {
        self.join@
    }
}

impl<T> JoinBuilder<T> {
    /// Creates a new [`JoinBuilder`] with
    /// the specified array as the base model
    pub fn new(left: Vec<T>) -> (r: Self)
        ensures
            r@ == left@,
    {
        JoinBuilder { join: left }
    }

    /// Builds joined models as a tuple
    pub fn build(self) -> (r: Vec<T>)
        ensures
            r@ == self@,
    {
        self.join
    }

    /// Builds joined models using the provided mapper
    pub fn build_as<B, R>(self, mapper: B) -> (r: Vec<R>)
        where
            B: Fn(T) -> R,
        requires
            forall|i: int| 0 <= i < self@.len() ==> call_requires(mapper, (#[trigger] self@[i],)),
        ensures
            r@.len() == self@.len(),
            forall|i: int|
                0 <= i < self@.len() ==> call_ensures(mapper, (self@[i],), #[trigger] r@[i]),
    {
        let ghost s = self@;
        let mut out: Vec<R> = Vec::with_capacity(self.join.len());
        for t in it: self.join.into_iter()
            invariant
                it.seq() == s,
                forall|i: int| 0 <= i < s.len() ==> call_requires(mapper, (#[trigger] s[i],)),
                out@.len() == it.index(),
                forall|i: int|
                    0 <= i < it.index() ==> call_ensures(mapper, (s[i],), #[trigger] out@[i]),
        {
            out.push(mapper(t));
        }
        out
    }
    /// Performs an **inner join** for a one-to-one relationship.
    ///
    /// Join based on the `on.reference_key` = `ref.join_on_key` condition
    ///
    /// The key type must hash and compare as its value does
    /// (`obeys_key_model`) and cloning a key must give an equal key
    /// ([`clones_exactly`]): the index is a hash map keyed by cloned keys, so a
    /// key type that breaks either would match rows wrongly.
    pub fn with<W, F, J>(self, with: Vec<W>, on: F) -> (r: JoinBuilder<(T, W)>)
        where
            F: Fn(&T) -> &J,
            J: Joinable<W>,
            W: Clone,
        requires
            vstd::std_specs::hash::obeys_key_model::<J::Key>(),
            clones_exactly::<J::Key>(),
            forall|i: int| 0 <= i < self@.len() ==> call_requires(on, (&#[trigger] self@[i],)),
        ensures
            exists|js: Seq<J>|
                #[trigger] picked_by(on, self@, js) && pairs_cloned_from(
                    r@,
                    inner_join(
                        self@,
                        js.map_values(|j: J| j.join_key()),
                        keyed_index(with@, reference_of::<W, J>()),
                    ),
                ),
    {
        let ghost s = self@;
        let ghost idx_spec = keyed_index(with@, reference_of::<W, J>());
        let hash_idx = Self::build_idx::<W, J>(with);
        let ghost mut js: Seq<J> = Seq::empty();
        let mut out: Vec<(T, W)> = Vec::new();
        for t in it: self.join.into_iter()
            invariant
                it.seq() == s,
                hash_idx@ == idx_spec,
                vstd::std_specs::hash::obeys_key_model::<J::Key>(),
                forall|i: int| 0 <= i < s.len() ==> call_requires(on, (&#[trigger] s[i],)),
                js.len() == it.index(),
                picked_by(on, s.take(it.index() as int), js),
                pairs_cloned_from(
                    out@,
                    inner_join(
                        s.take(it.index() as int),
                        js.map_values(|j: J| j.join_key()),
                        idx_spec,
                    ),
                ),
        {
            let ghost n = it.index() as int;
            let jr = on(&t);
            let key = jr.join_on();
            let ghost old_js = js;
            let ghost old_out = out@;
            proof {
                js = js.push(*jr);
                assert(s.take(n + 1).drop_last() =~= s.take(n));
                assert(js.map_values(|j: J| j.join_key()).take(n) =~= old_js.map_values(
                    |j: J| j.join_key(),
                ));
            }
            let ghost keys = js.map_values(|j: J| j.join_key());
            let ghost prev = inner_join(s.take(n), keys.take(n), idx_spec);
            proof {
                assert(keys[n] == *key);
                assert(inner_join(s.take(n + 1), keys, idx_spec) == (if idx_spec.contains_key(
                    *key,
                ) {
                    prev.push((s[n], idx_spec[*key]))
                } else {
                    prev
                }));
            }
            match hash_idx.get(key) {
                Some(w) => {
                    let wc = w.clone();
                    assert(cloned(*w, wc));
                    assert(idx_spec.contains_key(*key) && idx_spec[*key] == *w);
                    out.push((t, wc));
                    assert(out@.drop_last() =~= old_out);
                },
                None => {
                    assert(!idx_spec.contains_key(*key));
                },
            }
        }
        proof {
            assert(s.take(s.len() as int) =~= s);
        }
        JoinBuilder { join: out }
    }

    /// Constructs a [`HashMap`] for indexing a list of models
    fn build_idx<W, J>(table: Vec<W>) -> (idx: HashMap<J::Key, W>)
        where
            J: Joinable<W>,
            W: Clone,
        requires
            vstd::std_specs::hash::obeys_key_model::<J::Key>(),
            clones_exactly::<J::Key>(),
        ensures
            idx@ == keyed_index(table@, reference_of::<W, J>()),
    {
        let ghost s = table@;
        let mut hash_idx: HashMap<J::Key, W> = HashMap::with_capacity(table.len());
        for w in it: table.into_iter()
            invariant
                it.seq() == s,
                vstd::std_specs::hash::obeys_key_model::<J::Key>(),
                clones_exactly::<J::Key>(),
                hash_idx@ == keyed_index(s.take(it.index() as int), reference_of::<W, J>()),
        {
            let ghost n = it.index() as int;
            let key = J::reference(&w).clone();
            proof {
                assert(cloned(J::reference_key(&w), key));
                assert(s.take(n + 1).drop_last() =~= s.take(n));
            }
            hash_idx.insert(key, w);
        }
        proof {
            assert(s.take(s.len() as int) =~= s);
        }
        hash_idx
    }
    /// Performs an **inner join** for a one-to-many relationship.
    ///
    /// Join based on the `on.reference_key` = `ref.join_on_key` condition
    ///
    /// The key type must hash and compare as its value does
    /// (`obeys_key_model`) and cloning a key must give an equal key
    /// ([`clones_exactly`]): the index is a hash map keyed by cloned keys, so a
    /// key type that breaks either would match rows wrongly.
    pub fn with_group<W, F, J>(self, with: Vec<W>, on: F) -> (r: JoinBuilder<(T, Vec<W>)>)
        where
            F: Fn(&T) -> &J,
            J: Joinable<W>,
            W: Clone,
        requires
            vstd::std_specs::hash::obeys_key_model::<J::Key>(),
            clones_exactly::<J::Key>(),
            forall|i: int| 0 <= i < self@.len() ==> call_requires(on, (&#[trigger] self@[i],)),
        ensures
            exists|js: Seq<J>|
                #[trigger] picked_by(on, self@, js) && groups_cloned_from(
                    r@,
                    inner_join(
                        self@,
                        js.map_values(|j: J| j.join_key()),
                        grouped_index(with@, reference_of::<W, J>()),
                    ),
                ),
    {
        let ghost s = self@;
        let ghost idx_spec = grouped_index(with@, reference_of::<W, J>());
        let hash_idx = Self::build_group_idx::<W, J>(with);
        let ghost mut js: Seq<J> = Seq::empty();
        let mut out: Vec<(T, Vec<W>)> = Vec::new();
        for t in it: self.join.into_iter()
            invariant
                it.seq() == s,
                group_views(hash_idx@) == idx_spec,
                vstd::std_specs::hash::obeys_key_model::<J::Key>(),
                forall|i: int| 0 <= i < s.len() ==> call_requires(on, (&#[trigger] s[i],)),
                js.len() == it.index(),
                picked_by(on, s.take(it.index() as int), js),
                groups_cloned_from(
                    out@,
                    inner_join(
                        s.take(it.index() as int),
                        js.map_values(|j: J| j.join_key()),
                        idx_spec,
                    ),
                ),
        {
            let ghost n = it.index() as int;
            let jr = on(&t);
            let key = jr.join_on();
            let ghost old_js = js;
            let ghost old_out = out@;
            proof {
                js = js.push(*jr);
                assert(s.take(n + 1).drop_last() =~= s.take(n));
                assert(js.map_values(|j: J| j.join_key()).take(n) =~= old_js.map_values(
                    |j: J| j.join_key(),
                ));
            }
            let ghost keys = js.map_values(|j: J| j.join_key());
            let ghost prev = inner_join(s.take(n), keys.take(n), idx_spec);
            proof {
                assert(keys[n] == *key);
                assert(inner_join(s.take(n + 1), keys, idx_spec) == (if idx_spec.contains_key(
                    *key,
                ) {
                    prev.push((s[n], idx_spec[*key]))
                } else {
                    prev
                }));
            }
            match hash_idx.get(key) {
                Some(group) => {
                    let gc = group.clone();
                    assert(idx_spec.contains_key(*key) && idx_spec[*key] == group@);
                    out.push((t, gc));
                    assert(out@.drop_last() =~= old_out);
                },
                None => {
                    assert(!idx_spec.contains_key(*key));
                },
            }
        }
        proof {
            assert(s.take(s.len() as int) =~= s);
        }
        JoinBuilder { join: out }
    }

    /// Constructs a [`HashMap`] for indexing a list of model groups.
    fn build_group_idx<W, J>(table: Vec<W>) -> (idx: HashMap<J::Key, Vec<W>>)
        where
            J: Joinable<W>,
            W: Clone,
        requires
            vstd::std_specs::hash::obeys_key_model::<J::Key>(),
            clones_exactly::<J::Key>(),
        ensures
            group_views(idx@) == grouped_index(table@, reference_of::<W, J>()),
    {
        let ghost s = table@;
        let mut hash_idx: HashMap<J::Key, Vec<W>> = HashMap::with_capacity(table.len());
        proof {
            assert(group_views(hash_idx@) =~= grouped_index(s.take(0), reference_of::<W, J>()));
        }
        for w in it: table.into_iter()
            invariant
                it.seq() == s,
                vstd::std_specs::hash::obeys_key_model::<J::Key>(),
                clones_exactly::<J::Key>(),
                group_views(hash_idx@) == grouped_index(
                    s.take(it.index() as int),
                    reference_of::<W, J>(),
                ),
        {
            let ghost n = it.index() as int;
            let ghost old_m = hash_idx@;
            let key = J::reference(&w).clone();
            proof {
                assert(cloned(J::reference_key(&w), key));
                assert(s.take(n + 1).drop_last() =~= s.take(n));
            }
            match hash_idx.remove(&key) {
                Some(mut group) => {
                    group.push(w);
                    hash_idx.insert(key, group);
                    proof {
                        assert(group_views(hash_idx@) =~= grouped_index(
                            s.take(n + 1),
                            reference_of::<W, J>(),
                        ));
                    }
                },
                None => {
                    let mut group: Vec<W> = Vec::new();
                    group.push(w);
                    hash_idx.insert(key, group);
                    proof {
                        assert(group_views(hash_idx@) =~= grouped_index(
                            s.take(n + 1),
                            reference_of::<W, J>(),
                        ));
                    }
                },
            }
        }
        proof {
            assert(s.take(s.len() as int) =~= s);
        }
        hash_idx
    }
}

} // verus!

verus! {

/// The indices `0..n`.
pub open spec fn positions(n: nat) -> Seq<int> {
    Seq::new(n, |p: int| p)
}

proof fn lemma_filter_none<A>(s: Seq<A>, pred: spec_fn(A) -> bool)
    requires
        forall|i: int| 0 <= i < s.len() ==> !pred(#[trigger] s[i]),
    ensures
        s.filter(pred) == Seq::<A>::empty(),
    decreases s.len(),
{
    reveal(Seq::filter);
    if s.len() > 0 {
        lemma_filter_none(s.drop_last(), pred);
    }
    assert(s.filter(pred) =~= Seq::<A>::empty());
}

/// Mapping law of [`JoinBuilder::build_as`]: where every result of the mapper is
/// the value of `f` on its argument, the rows that `build_as` returns are exactly the
/// joined rows mapped by `f`, one per row and in row order.
pub proof fn lemma_build_as_maps<T, R, B: Fn(T) -> R>(
    rows: Seq<T>,
    out: Seq<R>,
    mapper: B,
    f: spec_fn(T) -> R,
)
    requires
        out.len() == rows.len(),
        forall|i: int| 0 <= i < rows.len() ==> call_ensures(mapper, (rows[i],), #[trigger] out[i]),
        forall|x: T, y: R| call_ensures(mapper, (x,), y) ==> y == f(x),
    ensures
        out == rows.map_values(f),
{
    assert(out =~= rows.map_values(f)) by {
        assert forall|i: int| 0 <= i < rows.len() implies out[i] == rows.map_values(f)[i] by {
            assert(call_ensures(mapper, (rows[i],), out[i]));
        }
    }
}

/// One-to-one index law: a key is indexed exactly when some model of the table
/// carries it, and it is indexed to the last model that carries it.
pub proof fn lemma_keyed_index_picks_last<K, W>(table: Seq<W>, key: spec_fn(W) -> K, k: K)
    ensures
        keyed_index(table, key).contains_key(k) <==> exists|i: int|
            0 <= i < table.len() && #[trigger] key(table[i]) == k,
        keyed_index(table, key).contains_key(k) ==> exists|i: int|
            #![trigger table[i]]
            {
                &&& 0 <= i < table.len()
                &&& key(table[i]) == k
                &&& keyed_index(table, key)[k] == table[i]
                &&& forall|j: int| i < j < table.len() ==> key(#[trigger] table[j]) != k
            },
    decreases table.len(),
{
    if table.len() > 0 {
        let init = table.drop_last();
        lemma_keyed_index_picks_last(init, key, k);
        let n = table.len() - 1;
        if key(table.last()) == k {
            assert(key(table[n]) == k);
        } else {
            if keyed_index(table, key).contains_key(k) {
                let i = choose|i: int|
                    #![trigger init[i]]
                    {
                        &&& 0 <= i < init.len()
                        &&& key(init[i]) == k
                        &&& keyed_index(init, key)[k] == init[i]
                        &&& forall|j: int| i < j < init.len() ==> key(#[trigger] init[j]) != k
                    };
                assert(table[i] == init[i]);
                assert forall|j: int| i < j < table.len() implies key(#[trigger] table[j]) != k by {
                    if j < n {
                        assert(table[j] == init[j]);
                    }
                }
            }
            assert forall|i: int| 0 <= i < table.len() && #[trigger] key(table[i]) == k implies
                keyed_index(table, key).contains_key(k) by {
                assert(i < n);
                assert(init[i] == table[i]);
            }
        }
    }
}

/// One-to-many index law: a key is indexed exactly when some model of the table
/// carries it, and its group is exactly the models that carry it, in table order.
pub proof fn lemma_grouped_index_is_filter<K, W>(table: Seq<W>, key: spec_fn(W) -> K, k: K)
    ensures
        grouped_index(table, key).contains_key(k) <==> exists|i: int|
            0 <= i < table.len() && #[trigger] key(table[i]) == k,
        grouped_index(table, key).contains_key(k) ==> grouped_index(table, key)[k] == table.filter(
            |w: W| key(w) == k,
        ),
    decreases table.len(),
{
    reveal(Seq::filter);
    let pred = |w: W| key(w) == k;
    if table.len() > 0 {
        let init = table.drop_last();
        let n = table.len() - 1;
        lemma_grouped_index_is_filter(init, key, k);
        if key(table.last()) == k {
            assert(key(table[n]) == k);
            if !grouped_index(init, key).contains_key(k) {
                assert forall|i: int| 0 <= i < init.len() implies !pred(#[trigger] init[i]) by {}
                lemma_filter_none(init, pred);
                assert(seq![table.last()] =~= Seq::<W>::empty().push(table.last()));
            }
        } else {
            assert forall|i: int| 0 <= i < table.len() && #[trigger] key(table[i]) == k implies
                grouped_index(table, key).contains_key(k) by {
                assert(i < n);
                assert(init[i] == table[i]);
            }
        }
    }
}

/// Inner join law: the join pairs, in left order, exactly the left models whose key
/// is indexed with the value indexed under that key.
pub proof fn lemma_inner_join_is_matching_positions<T, K, V>(
    left: Seq<T>,
    keys: Seq<K>,
    idx: Map<K, V>,
)
    requires
        keys.len() == left.len(),
    ensures
        inner_join(left, keys, idx) == positions(left.len()).filter(
            |p: int| idx.contains_key(keys[p]),
        ).map_values(|p: int| (left[p], idx[keys[p]])),
    decreases left.len(),
{
    reveal(Seq::filter);
    let pred = |p: int| idx.contains_key(keys[p]);
    let pair = |p: int| (left[p], idx[keys[p]]);
    if left.len() == 0 {
        assert(positions(0).filter(pred) =~= Seq::<int>::empty());
        assert(inner_join(left, keys, idx) =~= positions(0).filter(pred).map_values(pair));
    } else {
        let n = left.len() - 1;
        let init = left.drop_last();
        let ikeys = keys.take(n);
        lemma_inner_join_is_matching_positions(init, ikeys, idx);
        let ipred = |p: int| idx.contains_key(ikeys[p]);
        let ipair = |p: int| (init[p], idx[ikeys[p]]);
        assert(positions(left.len()).drop_last() =~= positions(init.len()));
        lemma_filter_congruent(positions(init.len()), pred, ipred);
        let sub = positions(init.len()).filter(pred);
        assert forall|q: int| 0 <= q < sub.len() implies #[trigger] sub[q] < n && 0 <= sub[q] by {
            lemma_filter_in_range(positions(init.len()), pred, q);
        }
        assert(sub.map_values(pair) =~= sub.map_values(ipair));
        if pred(n) {
            assert(positions(left.len()).filter(pred) == sub.push(n));
            assert(sub.push(n).map_values(pair) =~= sub.map_values(pair).push(pair(n)));
        }
    }
}

proof fn lemma_filter_congruent(s: Seq<int>, p1: spec_fn(int) -> bool, p2: spec_fn(int) -> bool)
    requires
        forall|i: int| 0 <= i < s.len() ==> p1(#[trigger] s[i]) == p2(s[i]),
    ensures
        s.filter(p1) == s.filter(p2),
    decreases s.len(),
{
    reveal(Seq::filter);
    if s.len() > 0 {
        lemma_filter_congruent(s.drop_last(), p1, p2);
    }
}

proof fn lemma_filter_in_range(s: Seq<int>, pred: spec_fn(int) -> bool, q: int)
    requires
        forall|i: int| 0 <= i < s.len() ==> #[trigger] s[i] == i,
        0 <= q < s.filter(pred).len(),
    ensures
        0 <= s.filter(pred)[q] < s.len(),
    decreases s.len(),
{
    reveal(Seq::filter);
    if s.len() > 0 {
        let init = s.drop_last();
        if q < init.filter(pred).len() {
            lemma_filter_in_range(init, pred, q);
        }
    }
}

} // verus!
