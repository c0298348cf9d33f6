//! A generic in-memory store of records keyed by a 128-bit identifier.

use vstd::prelude::*;

verus! {

/// A value that a [`Store`] files under its identifier.
pub trait Record: Sized {
    spec fn key(&self) -> u128;

    fn id(&self) -> (r: u128)
        ensures
            r == self.key(),
    ;

    fn duplicate(&self) -> (r: Self)
        ensures
            r == *self,
    ;
}

/// A predicate on records that a query evaluates.
pub trait Selector<R: Record> {
    spec fn selects(&self, r: R) -> bool;

    fn test(&self, r: &R) -> (b: bool)
        ensures
            b == self.selects(*r),
    ;
}

/// An edit applied to records, which keeps their identifiers.
pub trait Change<R: Record> {
    spec fn apply(&self, r: R) -> R;

    fn apply_to(&self, r: &mut R)
        ensures
            *final(r) == self.apply(*old(r)),
    ;

    proof fn lemma_keeps_key(&self, r: R)
        ensures
            self.apply(r).key() == r.key(),
    ;
}

/// An order on records, as a rank: lower ranks come first.
pub trait Ranker<R> {
    spec fn rank(&self, r: R) -> int;

    fn rank_of(&self, r: &R) -> (x: i128)
        ensures
            x == self.rank(*r),
    ;
}

/// `s` is in the order of `ranker`.
pub open spec fn sorted_by<R, K: Ranker<R>>(s: Seq<R>, ranker: K) -> bool {
    forall|a: int, b: int| 0 <= a < b < s.len() ==> ranker.rank(s[a]) <= ranker.rank(s[b])
}

/// Inserting `x` after the records that rank no higher and before the
/// first that ranks higher keeps a sequence in order.
proof fn lemma_insert_sorted<R, K: Ranker<R>>(before: Seq<R>, x: R, q: int, ranker: K)
    requires
        sorted_by(before, ranker),
        0 <= q <= before.len(),
        forall|a: int| 0 <= a < q ==> ranker.rank(#[trigger] before[a]) <= ranker.rank(x),
        q < before.len() ==> ranker.rank(before[q]) > ranker.rank(x),
    ensures
        sorted_by(before.insert(q, x), ranker),
{
    before.insert_ensures(q, x);
    let r = before.insert(q, x);
    assert forall|a: int, b: int| 0 <= a < b < r.len() implies ranker.rank(r[a]) <= ranker.rank(r[b]) by {
        if b == q {
            assert(r[a] == before[a]);
        } else if a == q {
            assert(r[b] == before[b - 1]);
            if b - 1 > q {
                assert(ranker.rank(before[q]) <= ranker.rank(before[b - 1]));
            }
        } else if a < q && b > q {
            assert(r[a] == before[a]);
            assert(r[b] == before[b - 1]);
            assert(ranker.rank(before[a]) <= ranker.rank(x));
            if b - 1 > q {
                assert(ranker.rank(before[q]) <= ranker.rank(before[b - 1]));
            }
        } else if a > q {
            assert(r[a] == before[a - 1]);
            assert(r[b] == before[b - 1]);
        } else {
            assert(r[a] == before[a]);
            assert(r[b] == before[b]);
        }
    }
}

/// `r` is made of records of `m` that `p` selects, with unique keys, and
/// holds a record for the key of each of `keys`, and for no other key.
pub open spec fn gathers<R: Record>(r: Seq<R>, m: Map<u128, R>, p: spec_fn(R) -> bool, keys: Seq<u128>) -> bool {
    &&& forall|a: int|
        0 <= a < r.len() ==> m.contains_key(#[trigger] r[a].key()) && m[r[a].key()] == r[a] && p(r[a])
    &&& forall|a: int| 0 <= a < r.len() ==> keys.contains(#[trigger] r[a].key())
    &&& forall|j: int| 0 <= j < keys.len() ==> exists|a: int| 0 <= a < r.len() && #[trigger] r[a].key() == #[trigger] keys[j]
    &&& forall|a: int, b: int| 0 <= a < b < r.len() ==> r[a].key() != r[b].key()
}

/// Inserting a selected record of `m` whose key is new keeps `gathers`.
proof fn lemma_insert_gathers<R: Record>(before: Seq<R>, m: Map<u128, R>, p: spec_fn(R) -> bool, keys: Seq<u128>, x: R, q: int)
    requires
        gathers(before, m, p, keys),
        0 <= q <= before.len(),
        m.contains_key(x.key()),
        m[x.key()] == x,
        p(x),
        !keys.contains(x.key()),
    ensures
        gathers(before.insert(q, x), m, p, keys.push(x.key())),
{
    before.insert_ensures(q, x);
    let r = before.insert(q, x);
    let k2 = keys.push(x.key());
    assert forall|a: int| 0 <= a < r.len() implies m.contains_key(#[trigger] r[a].key()) && m[r[a].key()] == r[a] && p(r[a]) by {
        if a < q {
            assert(r[a] == before[a]);
        } else if a > q {
            assert(r[a] == before[a - 1]);
        }
    }
    assert forall|a: int| 0 <= a < r.len() implies k2.contains(#[trigger] r[a].key()) by {
        if a == q {
            assert(k2[keys.len() as int] == x.key());
        } else {
            let a2 = if a < q { a } else { a - 1 };
            assert(r[a] == before[a2]);
            assert(keys.contains(before[a2].key()));
            let j = choose|j: int| 0 <= j < keys.len() && keys[j] == before[a2].key();
            assert(k2[j] == keys[j]);
        }
    }
    assert forall|j: int| 0 <= j < k2.len() implies exists|a: int| 0 <= a < r.len() && #[trigger] r[a].key() == #[trigger] k2[j] by {
        if j == keys.len() {
            assert(r[q].key() == k2[j]);
        } else {
            assert(k2[j] == keys[j]);
            let a = choose|a: int| 0 <= a < before.len() && #[trigger] before[a].key() == #[trigger] keys[j];
            if a < q {
                assert(r[a] == before[a]);
                assert(r[a].key() == k2[j]);
            } else {
                assert(r[a + 1] == before[a]);
                assert(r[a + 1].key() == k2[j]);
            }
        }
    }
    assert forall|a: int, b: int| 0 <= a < b < r.len() implies r[a].key() != r[b].key() by {
        let a2 = if a < q { a } else { a - 1 };
        let b2 = if b < q { b } else { b - 1 };
        if a != q && b != q {
            assert(r[a] == before[a2] && r[b] == before[b2]);
        } else if a == q {
            assert(r[b] == before[b2]);
            assert(keys.contains(before[b2].key()));
        } else {
            assert(r[a] == before[a2]);
            assert(keys.contains(before[a2].key()));
        }
    }
}

/// Where `x_rank` goes in `r`: after every record that ranks no higher.
fn insertion_point<R, K: Ranker<R>>(r: &Vec<R>, x_rank: i128, ranker: &K) -> (pos: usize)
    requires
        sorted_by(r@, *ranker),
    ensures
        pos <= r@.len(),
        forall|a: int| 0 <= a < pos ==> ranker.rank(#[trigger] r@[a]) <= x_rank,
        pos < r@.len() ==> ranker.rank(r@[pos as int]) > x_rank,
{
    let mut pos: usize = 0;
    while pos < r.len()
        invariant
            pos <= r@.len(),
            forall|a: int| 0 <= a < pos ==> ranker.rank(#[trigger] r@[a]) <= x_rank,
        decreases r@.len() - pos,
    {
        if ranker.rank_of(&r[pos]) > x_rank {
            return pos;
        }
        pos = pos + 1;
    }
    pos
}

/// The records of `v` in the order of `ranker`; records of equal rank keep
/// their order.
pub fn sort_by_rank<R: Record, K: Ranker<R>>(
    v: &Vec<R>,
    ranker: &K,
    Ghost(m): Ghost<Map<u128, R>>,
    Ghost(p): Ghost<spec_fn(R) -> bool>,
) -> (r: Vec<R>)
    requires
        lists_exactly(v@, m, p),
    ensures
        lists_exactly(r@, m, p),
        sorted_by(r@, *ranker),
{
    let ghost keys = v@.map_values(|x: R| x.key());
    let mut r: Vec<R> = Vec::new();
    let mut i: usize = 0;
    assert(gathers(r@, m, p, keys.subrange(0, 0)));
    while i < v.len()
        invariant
            i <= v@.len(),
            keys == v@.map_values(|x: R| x.key()),
            lists_exactly(v@, m, p),
            sorted_by(r@, *ranker),
            gathers(r@, m, p, keys.subrange(0, i as int)),
        decreases v@.len() - i,
    {
        let x = v[i].duplicate();
        let x_rank = ranker.rank_of(&x);
        let pos = insertion_point(&r, x_rank, ranker);
        proof {
            let done = keys.subrange(0, i as int);
            assert(keys.subrange(0, i + 1) =~= done.push(x.key()));
            assert(m.contains_key(v@[i as int].key()));
            if done.contains(x.key()) {
                let j = choose|j: int| 0 <= j < done.len() && done[j] == x.key();
                assert(v@[j].key() == v@[i as int].key());
            }
            lemma_insert_sorted(r@, x, pos as int, *ranker);
            lemma_insert_gathers(r@, m, p, done, x, pos as int);
        }
        r.insert(pos, x);
        i = i + 1;
    }
    proof {
        assert(keys.subrange(0, v@.len() as int) =~= keys);
        assert forall|k: u128| #[trigger] m.contains_key(k) && p(m[k]) implies exists|a: int|
            0 <= a < r@.len() && #[trigger] r@[a].key() == k by {
            let j = choose|j: int| 0 <= j < v@.len() && #[trigger] v@[j].key() == k;
            assert(keys[j] == k);
        }
    }
    r
}

/// `r` holds exactly the records of `m` that `p` selects, each once.
pub open spec fn lists_exactly<R: Record>(r: Seq<R>, m: Map<u128, R>, p: spec_fn(R) -> bool) -> bool {
    &&& forall|i: int|
        0 <= i < r.len() ==> m.contains_key(#[trigger] r[i].key()) && m[r[i].key()] == r[i] && p(
            r[i],
        )
    &&& forall|k: u128|
        #[trigger] m.contains_key(k) && p(m[k]) ==> exists|i: int|
            0 <= i < r.len() && #[trigger] r[i].key() == k
    &&& forall|i: int, j: int| 0 <= i < j < r.len() ==> r[i].key() != r[j].key()
}

/// Records kept in a vector, each identifier at most once.
pub struct Store<R> {
    records: Vec<R>,
    model: Ghost<Map<u128, R>>,
}

impl<R: Record> View for Store<R> {
    type V = Map<u128, R>;

    closed spec fn view(&self) -> Map<u128, R> {
        self.model@
    }
}

impl<R: Record> Store<R> {
    /// The vector holds each record of the model once.
    pub closed spec fn layout_ok(&self) -> bool {
        &&& forall|i: int|
            0 <= i < self.records@.len() ==> self.model@.contains_key(
                #[trigger] self.records@[i].key(),
            ) && self.model@[self.records@[i].key()] == self.records@[i]
        &&& forall|k: u128|
            #[trigger] self.model@.contains_key(k) ==> exists|i: int|
                0 <= i < self.records@.len() && #[trigger] self.records@[i].key() == k
        &&& forall|i: int, j: int|
            0 <= i < j < self.records@.len() ==> self.records@[i].key() != self.records@[j].key()
    }

    /// Each record is filed under its own identifier.
    pub open spec fn wf(&self) -> bool {
        &&& self.layout_ok()
        &&& forall|k: u128| #[trigger] self@.contains_key(k) ==> self@[k].key() == k
    }

    /// An empty store.
    pub fn new() -> (r: Self)
        ensures
            r.wf(),
            r@ == Map::<u128, R>::empty(),
    {
        Store { records: Vec::new(), model: Ghost(Map::empty()) }
    }

    fn index_of(&self, id: u128) -> (r: Option<usize>)
        requires
            self.wf(),
        ensures
            r matches Some(i) ==> i < self.records@.len() && self.records@[i as int].key() == id,
            r is None ==> !self@.contains_key(id),
    {
        let mut i: usize = 0;
        while i < self.records.len()
            invariant
                i <= self.records@.len(),
                forall|j: int| 0 <= j < i ==> self.records@[j].key() != id,
            decreases self.records@.len() - i,
        {
            if self.records[i].id() == id {
                return Some(i);
            }
            i = i + 1;
        }
        None
    }

    /// Whether a record with identifier `id` is stored.
    pub fn contains(&self, id: u128) -> (r: bool)
        requires
            self.wf(),
        ensures
            r == self@.contains_key(id),
    {
        self.index_of(id).is_some()
    }

    /// The record with identifier `id`, if it is stored.
    pub fn get(&self, id: u128) -> (r: Option<R>)
        requires
            self.wf(),
        ensures
            r is Some <==> self@.contains_key(id),
            r matches Some(v) ==> v == self@[id],
    {
        match self.index_of(id) {
            Some(i) => Some(self.records[i].duplicate()),
            None => None,
        }
    }

    /// Stores `record`, replacing the record with its identifier.
    pub fn put(&mut self, record: R)
        requires
            old(self).wf(),
        ensures
            final(self).wf(),
            final(self)@ == old(self)@.insert(record.key(), record),
    {
        let ghost old_records = self.records@;
        let ghost id = record.key();
        match self.index_of(record.id()) {
            Some(i) => {
                self.records.set(i, record);
                proof {
                    self.model@ = self.model@.insert(id, self.records@[i as int]);
                    assert forall|k: u128| #[trigger] self.model@.contains_key(k) implies exists|
                        j: int,
                    | 0 <= j < self.records@.len() && #[trigger] self.records@[j].key() == k by {
                        if k != id {
                            let j = choose|j: int|
                                0 <= j < old_records.len() && #[trigger] old_records[j].key() == k;
                            assert(self.records@[j].key() == k);
                        } else {
                            assert(self.records@[i as int].key() == k);
                        }
                    }
                }
            },
            None => {
                self.records.push(record);
                proof {
                    let n = old_records.len() as int;
                    self.model@ = self.model@.insert(id, self.records@[n]);
                    assert forall|k: u128| #[trigger] self.model@.contains_key(k) implies exists|
                        j: int,
                    | 0 <= j < self.records@.len() && #[trigger] self.records@[j].key() == k by {
                        if k != id {
                            let j = choose|j: int|
                                0 <= j < old_records.len() && #[trigger] old_records[j].key() == k;
                            assert(self.records@[j].key() == k);
                        } else {
                            assert(self.records@[n].key() == k);
                        }
                    }
                    assert forall|a: int, b: int|
                        0 <= a < b < self.records@.len() implies self.records@[a].key()
                        != self.records@[b].key() by {
                        if b == n {
                            assert(old_records[a].key() == self.records@[a].key());
                            assert(old(self).model@.contains_key(old_records[a].key()));
                        }
                    }
                }
            },
        }
    }

    /// Removes the record with identifier `id`, if it is stored.
    pub fn remove(&mut self, id: u128)
        requires
            old(self).wf(),
        ensures
            final(self).wf(),
            final(self)@ == old(self)@.remove(id),
    {
        let ghost old_records = self.records@;
        match self.index_of(id) {
            Some(i) => {
                self.records.remove(i);
                proof {
                    self.model@ = self.model@.remove(id);
                    assert forall|a: int|
                        0 <= a < self.records@.len() implies self.model@.contains_key(
                        #[trigger] self.records@[a].key(),
                    ) && self.model@[self.records@[a].key()] == self.records@[a] by {
                        if a < i {
                            assert(self.records@[a] == old_records[a]);
                        } else {
                            assert(self.records@[a] == old_records[a + 1]);
                        }
                    }
                    assert forall|k: u128| #[trigger] self.model@.contains_key(k) implies exists|
                        j: int,
                    | 0 <= j < self.records@.len() && #[trigger] self.records@[j].key() == k by {
                        let j = choose|j: int|
                            0 <= j < old_records.len() && #[trigger] old_records[j].key() == k;
                        if j < i {
                            assert(self.records@[j].key() == k);
                        } else {
                            assert(j != i);
                            assert(self.records@[j - 1].key() == k);
                        }
                    }
                    assert forall|a: int, b: int|
                        0 <= a < b < self.records@.len() implies self.records@[a].key()
                        != self.records@[b].key() by {
                        let a2 = if a < i {
                            a
                        } else {
                            a + 1
                        };
                        let b2 = if b < i {
                            b
                        } else {
                            b + 1
                        };
                        assert(self.records@[a] == old_records[a2]);
                        assert(self.records@[b] == old_records[b2]);
                    }
                }
            },
            None => {
                assert(self.model@ =~= self.model@.remove(id));
            },
        }
    }

    /// Every stored record that `selector` selects, each once.
    pub fn find_matching<S: Selector<R>>(&self, selector: &S) -> (r: Vec<R>)
        requires
            self.wf(),
        ensures
            lists_exactly(r@, self@, |v: R| selector.selects(v)),
    {
        let mut r: Vec<R> = Vec::new();
        let mut i: usize = 0;
        while i < self.records.len()
            invariant
                self.wf(),
                i <= self.records@.len(),
                forall|a: int|
                    0 <= a < r@.len() ==> exists|j: int|
                        0 <= j < i && #[trigger] self.records@[j] == #[trigger] r@[a],
                forall|a: int| 0 <= a < r@.len() ==> selector.selects(#[trigger] r@[a]),
                forall|j: int|
                    0 <= j < i && selector.selects(#[trigger] self.records@[j]) ==> exists|a: int|
                        0 <= a < r@.len() && #[trigger] r@[a].key() == self.records@[j].key(),
                forall|a: int, b: int|
                    0 <= a < r@.len() && 0 <= b < r@.len() && a != b ==> r@[a].key() != r@[b].key(),
                forall|a: int|
                    0 <= a < r@.len() ==> forall|j: int|
                        i <= j < self.records@.len() ==> #[trigger] self.records@[j].key()
                            != #[trigger] r@[a].key(),
            decreases self.records@.len() - i,
        {
            if selector.test(&self.records[i]) {
                let ghost before = r@;
                r.push(self.records[i].duplicate());
                proof {
                    let n = before.len() as int;
                    assert forall|a: int|
                        0 <= a < r@.len() implies exists|j: int|
                        0 <= j < i + 1 && #[trigger] self.records@[j] == #[trigger] r@[a] by {
                        if a < n {
                            assert(r@[a] == before[a]);
                            let j = choose|j: int|
                                0 <= j < i && #[trigger] self.records@[j] == before[a];
                            assert(self.records@[j] == r@[a]);
                        } else {
                            assert(self.records@[i as int] == r@[a]);
                        }
                    }
                    assert forall|j: int|
                        0 <= j < i + 1 && selector.selects(
                            #[trigger] self.records@[j],
                        ) implies exists|a: int|
                        0 <= a < r@.len() && #[trigger] r@[a].key() == self.records@[j].key() by {
                        if j < i {
                            let a = choose|a: int|
                                0 <= a < before.len() && #[trigger] before[a].key()
                                    == self.records@[j].key();
                            assert(r@[a] == before[a]);
                        } else {
                            assert(r@[n].key() == self.records@[j].key());
                        }
                    }
                    assert forall|a: int|
                        0 <= a < r@.len() implies forall|j: int|
                        i + 1 <= j < self.records@.len() ==> #[trigger] self.records@[j].key()
                            != #[trigger] r@[a].key() by {
                        if a < n {
                            assert(r@[a] == before[a]);
                        }
                    }
                }
            }
            i = i + 1;
        }
        proof {
            assert forall|a: int| 0 <= a < r@.len() implies self@.contains_key(
                #[trigger] r@[a].key(),
            ) && self@[r@[a].key()] == r@[a] && selector.selects(r@[a]) by {
                let j = choose|j: int| 0 <= j < i && #[trigger] self.records@[j] == r@[a];
                assert(self.records@[j].key() == r@[a].key());
            }
            assert forall|k: u128|
                #[trigger] self@.contains_key(k) && selector.selects(self@[k]) implies exists|a: int|
                0 <= a < r@.len() && #[trigger] r@[a].key() == k by {
                let j = choose|j: int|
                    0 <= j < self.records@.len() && #[trigger] self.records@[j].key() == k;
                assert(self.records@[j] == self@[k]);
            }
        }
        r
    }

    /// Applies `change` to every stored record.
    pub fn apply_all<C: Change<R>>(&mut self, change: &C)
        requires
            old(self).wf(),
        ensures
            final(self).wf(),
            final(self)@ == old(self)@.map_values(|v: R| change.apply(v)),
    {
        let ghost old_records = self.records@;
        let ghost old_model = self.model@;
        let ghost target = old_model.map_values(|v: R| change.apply(v));
        let mut i: usize = 0;
        while i < self.records.len()
            invariant
                i <= self.records@.len(),
                self.records@.len() == old_records.len(),
                self.model@ == old_model,
                forall|j: int|
                    0 <= j < i ==> #[trigger] self.records@[j] == change.apply(old_records[j]),
                forall|j: int| i <= j < self.records@.len() ==> #[trigger] self.records@[j] == old_records[j],
            decreases self.records@.len() - i,
        {
            let mut v = self.records[i].duplicate();
            change.apply_to(&mut v);
            self.records.set(i, v);
            i = i + 1;
        }
        proof {
            self.model@ = target;
            assert forall|a: int|
                0 <= a < self.records@.len() implies self.model@.contains_key(
                #[trigger] self.records@[a].key(),
            ) && self.model@[self.records@[a].key()] == self.records@[a] by {
                assert(old(self).records@[a] == old_records[a]);
                assert(old_model.contains_key(old_records[a].key()));
                change.lemma_keeps_key(old_records[a]);
                assert(self.records@[a] == change.apply(old_records[a]));
            }
            assert forall|k: u128| #[trigger] self.model@.contains_key(k) implies exists|j: int|
                0 <= j < self.records@.len() && #[trigger] self.records@[j].key() == k by {
                assert(old_model.contains_key(k));
                let j = choose|j: int|
                    0 <= j < old_records.len() && #[trigger] old_records[j].key() == k;
                change.lemma_keeps_key(old_records[j]);
                assert(self.records@[j] == change.apply(old_records[j]));
            }
            assert forall|a: int, b: int|
                0 <= a < b < self.records@.len() implies self.records@[a].key()
                != self.records@[b].key() by {
                change.lemma_keeps_key(old_records[a]);
                change.lemma_keeps_key(old_records[b]);
                assert(self.records@[a] == change.apply(old_records[a]));
                assert(self.records@[b] == change.apply(old_records[b]));
            }
            assert forall|k: u128| #[trigger] self@.contains_key(k) implies self@[k].key() == k by {
                assert(old_model.contains_key(k));
                change.lemma_keeps_key(old_model[k]);
            }
        }
    }
}

} // verus!
