//! A generic document collection with full CRUD contracts.
//!
//! One [`Repository`] wraps one collection. Its mathematical model is the
//! sequence of `(identifier, document view)` pairs in insertion order;
//! [`map_of`] turns that sequence into the map a lookup consults, with a
//! later pair for the same identifier winning. Identifiers are assigned from
//! a counter on insert, so every stored identifier is distinct and a fresh
//! insert never collides with an existing document.
//!
//! The proof functions at the end of the module state the store's laws over
//! the model: a fresh insert is visible to lookup, an absent identifier
//! makes every operation a no-op, a removed identifier no longer resolves,
//! and replacing a document twice with the same content equals replacing it
//! once.

use vstd::prelude::*;

use crate::entities::Doc;
use crate::ids::Id;

verus! {

/// A stored document beside its store-assigned identifier.
#[derive(Debug, PartialEq, Eq)]
pub struct Entry<E> {
    pub id: Id,
    pub doc: E,
}

impl<E: View> View for Entry<E> {
    type V = (Id, E::V);

    open spec fn view(&self) -> (Id, E::V) {
        (self.id, self.doc@)
    }
}

/// A failure of the store itself. The in-memory store can fail in one way
/// only: the identifier counter is used up, so no fresh identifier exists.
#[derive(Clone, Copy, Debug, PartialEq, Eq, Structural)]
pub enum StoreError {
    IdsExhausted,
}

/// The identifier sequence holds `id`.
pub open spec fn contains_id<V>(s: Seq<(Id, V)>, id: Id) -> bool {
    exists|i: int| 0 <= i < s.len() && (#[trigger] s[i]).0 == id
}

/// The lookup map of a collection model: a later pair for the same
/// identifier wins.
pub open spec fn map_of<V>(s: Seq<(Id, V)>) -> Map<Id, V>
    decreases s.len(),
{
    if s.len() == 0 {
        Map::empty()
    } else {
        map_of(s.drop_last()).insert(s.last().0, s.last().1)
    }
}

/// The model after replacing the document under `id` (wherever it stands)
/// with `v`. Identifiers, order and length are untouched.
pub open spec fn updated<V>(s: Seq<(Id, V)>, id: Id, v: V) -> Seq<(Id, V)> {
    Seq::new(s.len(), |i: int| if s[i].0 == id { (id, v) } else { s[i] })
}

/// The model after removing every pair under `id`, keeping the order of the
/// rest.
pub open spec fn removed<V>(s: Seq<(Id, V)>, id: Id) -> Seq<(Id, V)>
    decreases s.len(),
{
    if s.len() == 0 {
        s
    } else if s.last().0 == id {
        removed(s.drop_last(), id)
    } else {
        removed(s.drop_last(), id).push(s.last())
    }
}

/// The lookup map holds an identifier exactly when some pair holds it.
pub proof fn lemma_map_of_contains<V>(s: Seq<(Id, V)>, id: Id)
    ensures
        map_of(s).contains_key(id) <==> contains_id(s, id),
    decreases s.len(),
{
    if s.len() > 0 {
        lemma_map_of_contains(s.drop_last(), id);
        if contains_id(s, id) {
            let i = choose|i: int| 0 <= i < s.len() && (#[trigger] s[i]).0 == id;
            if i < s.len() - 1 {
                assert(s.drop_last()[i].0 == id);
            }
        }
        if contains_id(s.drop_last(), id) {
            let i = choose|i: int|
                0 <= i < s.drop_last().len() && (#[trigger] s.drop_last()[i]).0 == id;
            assert(s[i].0 == id);
        }
    }
}

/// When no later pair shares the identifier of the pair at `i`, the lookup
/// map resolves that identifier to the pair's document.
proof fn lemma_map_of_at<V>(s: Seq<(Id, V)>, i: int)
    requires
        0 <= i < s.len(),
        forall|j: int| i < j < s.len() ==> (#[trigger] s[j]).0 != s[i].0,
    ensures
        map_of(s).contains_key(s[i].0),
        map_of(s)[s[i].0] == s[i].1,
    decreases s.len(),
{
    if i < s.len() - 1 {
        assert(forall|j: int|
            i < j < s.drop_last().len() ==> (#[trigger] s.drop_last()[j]).0 != s.drop_last()[i].0);
        lemma_map_of_at(s.drop_last(), i);
    }
}

/// A generic repository over one document collection. All contracts speak of
/// the model sequence and its lookup map.
pub struct Repository<E> {
    next: u64,
    items: Vec<Entry<E>>,
}

impl<E: Doc> Repository<E> {
    /// The model: stored pairs in insertion order.
    pub closed spec fn model(self) -> Seq<(Id, E::V)> {
        self.items@.map_values(|e: Entry<E>| e@)
    }

    /// A fresh identifier is still available.
    pub closed spec fn can_insert(self) -> bool {
        self.next < u64::MAX
    }

    /// Internal well-formedness: stored identifiers come from the counter
    /// and grow strictly, so they are pairwise distinct.
    pub closed spec fn inv(self) -> bool {
        &&& forall|i: int|
            0 <= i < self.items@.len() ==> (#[trigger] self.items@[i]).id.hi == 0
                && self.items@[i].id.lo < self.next
        &&& forall|i: int, j: int|
            0 <= i < j < self.items@.len() ==> (#[trigger] self.items@[i]).id.lo < (
            #[trigger] self.items@[j]).id.lo
    }

    /// An empty collection, with the full identifier space ahead of it.
    pub fn new() -> (r: Self)
        ensures
            r.inv(),
            r.model() == Seq::<(Id, E::V)>::empty(),
            r.can_insert(),
    {
        let r = Repository { next: 0, items: Vec::new() };
        proof {
            assert(r.model() =~= Seq::<(Id, E::V)>::empty());
        }
        r
    }

    /// Index of the entry under `id`, if any.
    fn find_index(&self, id: &Id) -> (r: Option<usize>)
        ensures
            match r {
                Some(i) => i < self.items@.len() && self.items@[i as int].id == *id,
                None => forall|j: int|
                    0 <= j < self.items@.len() ==> (#[trigger] self.items@[j]).id != *id,
            },
    {
        let mut i: usize = 0;
        while i < self.items.len()
            invariant
                i <= self.items@.len(),
                forall|j: int| 0 <= j < i ==> (#[trigger] self.items@[j]).id != *id,
            decreases self.items@.len() - i,
        {
            if self.items[i].id == *id {
                return Some(i);
            }
            i = i + 1;
        }
        None
    }

    proof fn lemma_model_index(self, i: int)
        requires
            0 <= i < self.items@.len(),
        ensures
            self.model().len() == self.items@.len(),
            self.model()[i] == (self.items@[i].id, self.items@[i].doc@),
    {
    }

    /// Every stored identifier is distinct from every other: the model's
    /// pairs never share an identifier.
    pub proof fn lemma_unique(self)
        requires
            self.inv(),
        ensures
            forall|i: int, j: int|
                0 <= i < j < self.model().len() ==> (#[trigger] self.model()[i]).0 != (
                #[trigger] self.model()[j]).0,
    {
        assert forall|i: int, j: int| 0 <= i < j < self.model().len() implies (
        #[trigger] self.model()[i]).0 != (#[trigger] self.model()[j]).0 by {
            self.lemma_model_index(i);
            self.lemma_model_index(j);
        }
    }

    /// All stored entries, in insertion order.
    pub fn find_all(&self) -> (r: &Vec<Entry<E>>)
        ensures
            r@.map_values(|e: Entry<E>| e@) == self.model(),
    {
        &self.items
    }

    /// Exact-match lookup by identifier: the document under `id`, or nothing
    /// when the identifier resolves to no stored document.
    pub fn find_one_by_id(&self, id: &Id) -> (r: Option<&E>)
        requires
            self.inv(),
        ensures
            match r {
                Some(d) => map_of(self.model()).contains_key(*id) && d@ == map_of(
                    self.model(),
                )[*id],
                None => !map_of(self.model()).contains_key(*id),
            },
    {
        match self.find_index(id) {
            Some(i) => {
                proof {
                    self.lemma_unique();
                    self.lemma_model_index(i as int);
                    assert(forall|j: int|
                        i < j < self.model().len() ==> (#[trigger] self.model()[j]).0
                            != self.model()[i as int].0);
                    lemma_map_of_at(self.model(), i as int);
                }
                Some(&self.items[i].doc)
            },
            None => {
                proof {
                    assert(!contains_id(self.model(), *id)) by {
                        if contains_id(self.model(), *id) {
                            let j = choose|j: int|
                                0 <= j < self.model().len() && (#[trigger] self.model()[j]).0
                                    == *id;
                            self.lemma_model_index(j);
                        }
                    };
                    lemma_map_of_contains(self.model(), *id);
                }
                None
            },
        }
    }

    /// Append a document and hand back its fresh, store-assigned identifier.
    /// Fails only when the identifier space is used up; the collection is
    /// then unchanged.
    pub fn insert_one(&mut self, doc: E) -> (r: Result<Id, StoreError>)
        requires
            old(self).inv(),
        ensures
            final(self).inv(),
            match r {
                Ok(id) => {
                    &&& !contains_id(old(self).model(), id)
                    &&& !map_of(old(self).model()).contains_key(id)
                    &&& final(self).model() == old(self).model().push((id, doc@))
                    &&& map_of(final(self).model()) == map_of(old(self).model()).insert(id, doc@)
                },
                Err(e) => e == StoreError::IdsExhausted && final(self).model() == old(
                    self,
                ).model(),
            },
            r is Ok <==> old(self).can_insert(),
    {
        if self.next == u64::MAX {
            return Err(StoreError::IdsExhausted);
        }
        let id = Id { hi: 0, lo: self.next };
        self.next = self.next + 1;
        let ghost pre = self.model();
        self.items.push(Entry { id, doc });
        proof {
            assert(self.model() =~= pre.push((id, doc@)));
            assert(!contains_id(pre, id)) by {
                if contains_id(pre, id) {
                    let j = choose|j: int|
                        0 <= j < pre.len() && (#[trigger] pre[j]).0 == id;
                    old(self).lemma_model_index(j);
                }
            };
            lemma_map_of_contains(pre, id);
            assert(self.model().drop_last() =~= pre);
            assert(map_of(self.model()) == map_of(pre).insert(id, doc@));
        }
        Ok(id)
    }

    /// Replace the document under `id` with `doc`, keeping the identifier
    /// and the entry's place, and hand back the post-update document; or
    /// nothing when the identifier resolves to no stored document, leaving
    /// the collection unchanged.
    pub fn update_one(&mut self, id: &Id, doc: E) -> (r: Option<E>)
        requires
            old(self).inv(),
        ensures
            final(self).inv(),
            final(self).can_insert() == old(self).can_insert(),
            match r {
                Some(returned) => {
                    &&& map_of(old(self).model()).contains_key(*id)
                    &&& returned@ == doc@
                    &&& final(self).model() == updated(old(self).model(), *id, doc@)
                    &&& map_of(final(self).model()) == map_of(old(self).model()).insert(
                        *id,
                        doc@,
                    )
                },
                None => !map_of(old(self).model()).contains_key(*id) && final(self).model()
                    == old(self).model(),
            },
    {
        match self.find_index(id) {
            Some(i) => {
                proof {
                    self.lemma_unique();
                    self.lemma_model_index(i as int);
                    assert(forall|j: int|
                        i < j < self.model().len() ==> (#[trigger] self.model()[j]).0
                            != self.model()[i as int].0);
                    lemma_map_of_at(self.model(), i as int);
                }
                let returned = doc.dup();
                let ghost pre = self.model();
                let ghost prev = *self;
                self.items[i] = Entry { id: *id, doc };
                proof {
                    assert forall|k: int| 0 <= k < self.items@.len() implies (
                    #[trigger] self.items@[k]).id == prev.items@[k].id by {}
                    assert(self.model() =~= updated(pre, *id, doc@)) by {
                        assert forall|k: int| 0 <= k < pre.len() implies self.model()[k] == (
                        if pre[k].0 == *id {
                            (*id, doc@)
                        } else {
                            pre[k]
                        }) by {
                            self.lemma_model_index(k);
                            prev.lemma_model_index(k);
                            if k != i {
                                prev.lemma_unique();
                            }
                        }
                    };
                    let m = self.model();
                    assert(forall|j: int|
                        i < j < m.len() ==> (#[trigger] m[j]).0 != m[i as int].0) by {
                        prev.lemma_unique();
                    };
                    lemma_updated_map(pre, *id, doc@, i as int);
                }
                Some(returned)
            },
            None => {
                proof {
                    assert(!contains_id(self.model(), *id)) by {
                        if contains_id(self.model(), *id) {
                            let j = choose|j: int|
                                0 <= j < self.model().len() && (#[trigger] self.model()[j]).0
                                    == *id;
                            self.lemma_model_index(j);
                        }
                    };
                    lemma_map_of_contains(self.model(), *id);
                }
                None
            },
        }
    }

    /// Remove the document under `id` and hand the removed document back, or
    /// nothing when the identifier resolves to no stored document, leaving
    /// the collection unchanged. After a removal, a lookup of the same
    /// identifier no longer resolves.
    pub fn delete_one(&mut self, id: &Id) -> (r: Option<E>)
        requires
            old(self).inv(),
        ensures
            final(self).inv(),
            final(self).can_insert() == old(self).can_insert(),
            match r {
                Some(returned) => {
                    &&& map_of(old(self).model()).contains_key(*id)
                    &&& returned@ == map_of(old(self).model())[*id]
                    &&& final(self).model() == removed(old(self).model(), *id)
                    &&& !map_of(final(self).model()).contains_key(*id)
                },
                None => !map_of(old(self).model()).contains_key(*id) && final(self).model()
                    == old(self).model(),
            },
    {
        match self.find_index(id) {
            Some(i) => {
                proof {
                    self.lemma_unique();
                    self.lemma_model_index(i as int);
                    assert(forall|j: int|
                        i < j < self.model().len() ==> (#[trigger] self.model()[j]).0
                            != self.model()[i as int].0);
                    lemma_map_of_at(self.model(), i as int);
                }
                let ghost pre = self.model();
                let ghost prev = *self;
                let entry = self.items.remove(i);
                proof {
                    assert(self.model() =~= pre.remove(i as int)) by {
                        assert forall|k: int| 0 <= k < self.model().len() implies self.model()[k]
                            == pre.remove(i as int)[k] by {
                            self.lemma_model_index(k);
                            if k < i {
                                prev.lemma_model_index(k);
                            } else {
                                prev.lemma_model_index(k + 1);
                            }
                        }
                    };
                    prev.lemma_unique();
                    lemma_removed_is_remove(pre, *id, i as int);
                    lemma_removed_absent(pre, *id);
                    lemma_map_of_contains(removed(pre, *id), *id);
                }
                Some(entry.doc)
            },
            None => {
                proof {
                    assert(!contains_id(self.model(), *id)) by {
                        if contains_id(self.model(), *id) {
                            let j = choose|j: int|
                                0 <= j < self.model().len() && (#[trigger] self.model()[j]).0
                                    == *id;
                            self.lemma_model_index(j);
                        }
                    };
                    lemma_map_of_contains(self.model(), *id);
                }
                None
            },
        }
    }

    /// How many documents the collection holds.
    pub fn len(&self) -> (r: usize)
        ensures
            r == self.model().len(),
    {
        self.items.len()
    }
}

/// Replacing the pair at the unique index of `id` updates the lookup map at
/// `id` and nothing else.
proof fn lemma_updated_map<V>(s: Seq<(Id, V)>, id: Id, v: V, i: int)
    requires
        0 <= i < s.len(),
        s[i].0 == id,
        forall|a: int, b: int| 0 <= a < b < s.len() ==> (#[trigger] s[a]).0 != (#[trigger] s[b]).0,
    ensures
        map_of(updated(s, id, v)) == map_of(s).insert(id, v),
    decreases s.len(),
{
    let u = updated(s, id, v);
    if i == s.len() - 1 {
        assert(u.drop_last() =~= s.drop_last()) by {
            assert forall|k: int| 0 <= k < s.len() - 1 implies u[k] == s[k] by {}
        }
        assert(u.last() == (id, v));
        assert(map_of(u) == map_of(s.drop_last()).insert(id, v));
        assert(map_of(s) == map_of(s.drop_last()).insert(id, s.last().1));
        assert(map_of(s.drop_last()).insert(id, s.last().1).insert(id, v) =~= map_of(
            s.drop_last(),
        ).insert(id, v));
    } else {
        assert(u.drop_last() =~= updated(s.drop_last(), id, v)) by {
            assert forall|k: int| 0 <= k < s.len() - 1 implies u[k] == updated(
                s.drop_last(),
                id,
                v,
            )[k] by {}
        }
        assert(u.last() == s.last());
        lemma_updated_map(s.drop_last(), id, v, i);
        assert(s.last().0 != id);
        assert(map_of(s.drop_last()).insert(id, v).insert(s.last().0, s.last().1) =~= map_of(
            s.drop_last(),
        ).insert(s.last().0, s.last().1).insert(id, v));
    }
}

/// When `id` stands only at index `i`, removing `id` from the model removes
/// exactly that index.
proof fn lemma_removed_is_remove<V>(s: Seq<(Id, V)>, id: Id, i: int)
    requires
        0 <= i < s.len(),
        s[i].0 == id,
        forall|a: int, b: int| 0 <= a < b < s.len() ==> (#[trigger] s[a]).0 != (#[trigger] s[b]).0,
    ensures
        removed(s, id) == s.remove(i),
    decreases s.len(),
{
    if i == s.len() - 1 {
        assert(removed(s, id) == removed(s.drop_last(), id));
        lemma_removed_all_kept(s.drop_last(), id);
        assert(s.remove(i) =~= s.drop_last());
    } else {
        assert(s.last().0 != id);
        assert(removed(s, id) == removed(s.drop_last(), id).push(s.last()));
        lemma_removed_is_remove(s.drop_last(), id, i);
        assert(s.drop_last().remove(i).push(s.last()) =~= s.remove(i));
    }
}

/// Removing an identifier that no pair holds keeps the model as it is.
proof fn lemma_removed_all_kept<V>(s: Seq<(Id, V)>, id: Id)
    requires
        forall|k: int| 0 <= k < s.len() ==> (#[trigger] s[k]).0 != id,
    ensures
        removed(s, id) == s,
    decreases s.len(),
{
    if s.len() > 0 {
        assert(forall|k: int|
            0 <= k < s.drop_last().len() ==> (#[trigger] s.drop_last()[k]).0 != id);
        lemma_removed_all_kept(s.drop_last(), id);
        assert(s.drop_last().push(s.last()) =~= s);
    }
}

/// No pair of the removed model holds the removed identifier.
proof fn lemma_removed_absent<V>(s: Seq<(Id, V)>, id: Id)
    ensures
        !contains_id(removed(s, id), id),
    decreases s.len(),
{
    if s.len() > 0 {
        lemma_removed_absent(s.drop_last(), id);
        if s.last().0 != id {
            let r = removed(s.drop_last(), id).push(s.last());
            assert forall|k: int| 0 <= k < r.len() implies (#[trigger] r[k]).0 != id by {
                if k < r.len() - 1 {
                    assert(r[k] == removed(s.drop_last(), id)[k]);
                    assert(!contains_id(removed(s.drop_last(), id), id));
                }
            }
        }
    }
}

/// A document inserted under a fresh identifier is what a lookup of that
/// identifier resolves to afterwards.
pub proof fn lemma_lookup_after_insert<V>(s: Seq<(Id, V)>, id: Id, v: V)
    ensures
        map_of(s.push((id, v))).contains_key(id),
        map_of(s.push((id, v)))[id] == v,
{
    assert(s.push((id, v)).drop_last() =~= s);
}

/// An identifier that no pair holds resolves to nothing, and replacing or
/// removing under it changes nothing.
pub proof fn lemma_absent_id_no_effect<V>(s: Seq<(Id, V)>, id: Id, v: V)
    requires
        !contains_id(s, id),
    ensures
        !map_of(s).contains_key(id),
        updated(s, id, v) == s,
        removed(s, id) == s,
{
    lemma_map_of_contains(s, id);
    assert(updated(s, id, v) =~= s) by {
        assert forall|k: int| 0 <= k < s.len() implies updated(s, id, v)[k] == s[k] by {
            assert(s[k].0 != id);
        }
    }
    assert forall|k: int| 0 <= k < s.len() implies (#[trigger] s[k]).0 != id by {}
    lemma_removed_all_kept(s, id);
}

/// After a removal, a lookup of the removed identifier resolves to nothing.
pub proof fn lemma_lookup_after_delete<V>(s: Seq<(Id, V)>, id: Id)
    ensures
        !map_of(removed(s, id)).contains_key(id),
{
    lemma_removed_absent(s, id);
    lemma_map_of_contains(removed(s, id), id);
}

/// Replacing a document twice with the same content equals replacing it
/// once: both the model and its lookup map agree.
pub proof fn lemma_update_idempotent<V>(s: Seq<(Id, V)>, id: Id, v: V)
    ensures
        updated(updated(s, id, v), id, v) == updated(s, id, v),
        map_of(s).insert(id, v).insert(id, v) == map_of(s).insert(id, v),
{
    assert(updated(updated(s, id, v), id, v) =~= updated(s, id, v)) by {
        assert forall|k: int| 0 <= k < s.len() implies updated(updated(s, id, v), id, v)[k]
            == updated(s, id, v)[k] by {}
    }
    assert(map_of(s).insert(id, v).insert(id, v) =~= map_of(s).insert(id, v));
}

} // verus!
