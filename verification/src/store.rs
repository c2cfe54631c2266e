//! The record store: the single collection the service addresses,
//! modelled in memory.
//!
//! The store owns the persisted records. It assigns each record its
//! identifier at creation (a creation counter rendered as identifier
//! bytes), and offers exactly the atomic single-record operations the
//! handlers perform: insert, find by identifier, replace-returning-
//! pre-image, delete-returning-record, and list-all.

use vstd::pervasive::VecAdditionalExecFns;
use vstd::prelude::*;

use crate::oid::{counter_bytes, counter_of, lemma_counter_round, ObjectId};
use crate::user::{User, UserView};

verus! {

/// The record carrying an identifier, if any: the first (and, when
/// identifiers are distinct, the only) such record.
pub open spec fn find_user(s: Seq<UserView>, id: Seq<u8>) -> Option<UserView>
    decreases s.len(),
{
    if s.len() == 0 {
        None
    } else if s[0].id == Some(id) {
        Some(s[0])
    } else {
        find_user(s.skip(1), id)
    }
}

/// No two records carry the same identifier.
pub open spec fn ids_distinct(s: Seq<UserView>) -> bool {
    forall|i: int, j: int| 0 <= i < j < s.len() ==> s[i].id != s[j].id
}

/// Every stored record carries an assigned 12-byte identifier.
pub open spec fn ids_assigned(s: Seq<UserView>) -> bool {
    forall|i: int| 0 <= i < s.len() ==> (#[trigger] s[i].id) is Some && s[i].id->0.len() == 12
}

/// A record is found if and only if some record carries the
/// identifier, and what is found is such a record.
pub proof fn lemma_find_iff(s: Seq<UserView>, id: Seq<u8>)
    ensures
        find_user(s, id) is None <==> (forall|k: int|
            0 <= k < s.len() ==> (#[trigger] s[k].id) != Some(id)),
        find_user(s, id) is Some ==> find_user(s, id)->0.id == Some(id),
        find_user(s, id) is Some ==> (exists|k: int|
            0 <= k < s.len() && (#[trigger] s[k]) == find_user(s, id)->0),
    decreases s.len(),
{
    if s.len() > 0 {
        let t = s.skip(1);
        lemma_find_iff(t, id);
        if s[0].id == Some(id) {
            assert(s[0].id == Some(id));
        } else {
            if find_user(t, id) is None {
                assert forall|k: int| 0 <= k < s.len() implies (#[trigger] s[k].id) != Some(
                    id,
                ) by {
                    if k > 0 {
                        assert(t[k - 1].id != Some(id));
                    }
                }
            } else {
                let k = choose|k: int| 0 <= k < t.len() && (#[trigger] t[k]) == find_user(t, id)->0;
                assert(s[k + 1] == find_user(s, id)->0);
            }
            if forall|k: int| 0 <= k < s.len() ==> (#[trigger] s[k].id) != Some(id) {
                assert forall|k: int| 0 <= k < t.len() implies (#[trigger] t[k].id) != Some(id) by {
                    assert(s[k + 1].id != Some(id));
                }
                assert(find_user(t, id) is None);
            }
        }
    }
}

/// Records before the first match do not change what is found.
pub proof fn lemma_find_skip(s: Seq<UserView>, id: Seq<u8>, i: int)
    requires
        0 <= i <= s.len(),
        forall|j: int| 0 <= j < i ==> (#[trigger] s[j].id) != Some(id),
    ensures
        find_user(s, id) == find_user(s.skip(i), id),
    decreases i,
{
    if i > 0 {
        let t = s.skip(1);
        assert(s[0].id != Some(id));
        assert forall|k: int| 0 <= k < i - 1 implies (#[trigger] t[k].id) != Some(id) by {
            assert(s[k + 1].id != Some(id));
        }
        lemma_find_skip(t, id, i - 1);
        assert(t.skip(i - 1) =~= s.skip(i));
    } else {
        assert(s.skip(0) =~= s);
    }
}

/// Replacing one record does not change what any other identifier
/// finds.
pub proof fn lemma_find_update_other(s: Seq<UserView>, i: int, u: UserView, id: Seq<u8>)
    requires
        0 <= i < s.len(),
        s[i].id != Some(id),
        u.id != Some(id),
    ensures
        find_user(s.update(i, u), id) == find_user(s, id),
    decreases s.len(),
{
    let t = s.update(i, u);
    if i == 0 {
        assert(t[0] == u);
        assert(t.skip(1) =~= s.skip(1));
    } else {
        assert(t[0] == s[0]);
        if s[0].id != Some(id) {
            lemma_find_update_other(s.skip(1), i - 1, u, id);
            assert(s.skip(1).update(i - 1, u) =~= t.skip(1));
        }
    }
}

/// Removing one record does not change what any other identifier
/// finds.
pub proof fn lemma_find_remove_other(s: Seq<UserView>, i: int, id: Seq<u8>)
    requires
        0 <= i < s.len(),
        s[i].id != Some(id),
    ensures
        find_user(s.remove(i), id) == find_user(s, id),
    decreases s.len(),
{
    let t = s.remove(i);
    if i == 0 {
        assert(t =~= s.skip(1));
    } else {
        assert(t[0] == s[0]);
        if s[0].id != Some(id) {
            lemma_find_remove_other(s.skip(1), i - 1, id);
            assert(s.skip(1).remove(i - 1) =~= t.skip(1));
        }
    }
}

/// Law: creating a record and then getting it by the identifier the
/// store assigned yields exactly that record, with the identifier
/// set and the payload's fields kept.
pub proof fn lemma_create_then_get(s: Seq<UserView>, p: UserView, id: Seq<u8>)
    requires
        find_user(s, id) is None,
    ensures
        find_user(s.push((UserView { id: Some(id), name: p.name })), id) == Some(
            (UserView { id: Some(id), name: p.name }),
        ),
{
    let u = UserView { id: Some(id), name: p.name };
    let t = s.push(u);
    lemma_find_iff(s, id);
    assert(forall|j: int| 0 <= j < s.len() ==> (#[trigger] t[j].id) == s[j].id);
    lemma_find_skip(t, id, s.len() as int);
    assert(t.skip(s.len() as int) =~= seq![u]);
}

/// One stored record: an assigned identifier and the record's fields.
struct Rec {
    id: ObjectId,
    name: String,
}

impl Rec {
    spec fn rec_view(&self) -> UserView {
        UserView { id: Some(self.id@), name: self.name@ }
    }
}

/// The collection of user records.
pub struct Store {
    recs: Vec<Rec>,
    next: u64,
}

impl View for Store {
    type V = Seq<UserView>;

    closed spec fn view(&self) -> Seq<UserView> {
        Seq::new(self.recs@.len(), |i: int| self.recs@[i].rec_view())
    }
}

impl Store {
    /// How many identifiers the store has assigned so far.
    pub closed spec fn assigned(&self) -> u64 {
        self.next
    }

    /// The store can still assign a fresh identifier.
    pub open spec fn can_assign(&self) -> bool {
        self.assigned() < u64::MAX
    }

    /// The store's invariant: every stored identifier has 12 bytes,
    /// was assigned by an earlier creation than the next one, and no
    /// two records share an identifier.
    pub closed spec fn wf(&self) -> bool {
        &&& forall|i: int|
            0 <= i < self.recs@.len() ==> (#[trigger] self.recs@[i].id@).len() == 12
        &&& forall|i: int|
            0 <= i < self.recs@.len() ==> counter_of(#[trigger] self.recs@[i].id@) < self.next
        &&& forall|i: int, j: int|
            0 <= i < j < self.recs@.len() ==> self.recs@[i].id@ != self.recs@[j].id@
    }

    /// A well-formed store has distinct, assigned identifiers.
    pub proof fn lemma_wf_view(&self)
        requires
            self.wf(),
        ensures
            ids_distinct(self@),
            ids_assigned(self@),
    {
        assert forall|i: int, j: int| 0 <= i < j < self@.len() implies self@[i].id != self@[j].id by {
            assert(self.recs@[i].id@ != self.recs@[j].id@);
        }
    }

    /// An empty store that has assigned nothing yet.
    pub fn new() -> (s: Store)
        ensures
            s.wf(),
            s@ == Seq::<UserView>::empty(),
            s.assigned() == 0,
    {
        let s = Store { recs: Vec::new(), next: 0 };
        proof {
            assert(s@ =~= Seq::<UserView>::empty());
        }
        s
    }

    /// The index of the record carrying the identifier, if any.
    fn index_of(&self, id: &ObjectId) -> (r: Option<usize>)
        requires
            self.wf(),
        ensures
            r is Some ==> 0 <= r->0 < self@.len() && self@[r->0 as int].id == Some(id@),
            r is Some ==> find_user(self@, id@) == Some(self@[r->0 as int]),
            r is None <==> find_user(self@, id@) is None,
    {
        let mut i: usize = 0;
        while i < self.recs.len()
            invariant
                self.wf(),
                0 <= i <= self@.len(),
                forall|j: int| 0 <= j < i ==> (#[trigger] self@[j].id) != Some(id@),
            decreases self@.len() - i,
        {
            if self.recs[i].id.same_id(id) {
                proof {
                    assert(self@[i as int].id == Some(id@));
                    lemma_find_skip(self@, id@, i as int);
                    assert(self@.skip(i as int)[0] == self@[i as int]);
                }
                return Some(i);
            }
            proof {
                assert(self@[i as int].id != Some(id@));
            }
            i += 1;
        }
        proof {
            lemma_find_iff(self@, id@);
        }
        None
    }

    /// Inserts a new record: the store assigns a fresh identifier and
    /// keeps the payload's fields; any identifier in the payload is
    /// ignored. Fails only when the creation counter is exhausted.
    pub fn insert_user(&mut self, payload: User) -> (r: Option<ObjectId>)
        requires
            old(self).wf(),
        ensures
            final(self).wf(),
            r is Some <==> old(self).can_assign(),
            r is None ==> final(self)@ == old(self)@ && final(self).assigned() == old(
                self,
            ).assigned(),
            r is Some ==> r->0.wf() && r->0@ == counter_bytes(old(self).assigned()),
            r is Some ==> find_user(old(self)@, r->0@) is None,
            r is Some ==> final(self)@ == old(self)@.push(
                (UserView { id: Some(r->0@), name: payload@.name }),
            ),
            r is Some ==> final(self).assigned() == old(self).assigned() + 1,
    {
        if self.next == u64::MAX {
            return None;
        }
        let id = ObjectId::from_counter(self.next);
        proof {
            lemma_counter_round(self.next);
            assert forall|k: int| 0 <= k < self@.len() implies (#[trigger] self@[k].id) != Some(
                id@,
            ) by {
                assert(counter_of(self.recs@[k].id@) < self.next);
            }
            lemma_find_iff(self@, id@);
        }
        let ghost prev = self@;
        let stored = id.clone();
        self.recs.push(Rec { id: stored, name: payload.name });
        self.next = self.next + 1;
        proof {
            assert(self@ =~= prev.push((UserView { id: Some(id@), name: payload@.name })));
            assert forall|i: int|
                0 <= i < self.recs@.len() implies counter_of(
                #[trigger] self.recs@[i].id@,
            ) < self.next by {
                if i + 1 == self.recs@.len() {
                    assert(counter_of(self.recs@[i].id@) == self.next - 1);
                }
            }
            assert forall|i: int, j: int|
                0 <= i < j < self.recs@.len() implies self.recs@[i].id@ != self.recs@[j].id@ by {
                if j + 1 == self.recs@.len() {
                    assert(counter_of(self.recs@[i].id@) < self.next - 1);
                    assert(counter_of(self.recs@[j].id@) == self.next - 1);
                }
            }
        }
        Some(id)
    }

    /// Looks one record up by identifier; the store is unchanged.
    pub fn find_by_id(&self, id: &ObjectId) -> (r: Option<User>)
        requires
            self.wf(),
        ensures
            r is Some <==> find_user(self@, id@) is Some,
            r is Some ==> r->0@ == find_user(self@, id@)->0,
    {
        match self.index_of(id) {
            Some(i) => {
                let rec = &self.recs[i];
                let u = User { id: Some(rec.id.clone()), name: rec.name.clone() };
                proof {
                    assert(u@ =~= self@[i as int]);
                }
                Some(u)
            },
            None => None,
        }
    }

    /// Atomically finds the record carrying the identifier and
    /// overwrites its fields with the payload's, returning the record
    /// as it was before; the identifier itself is never changed.
    pub fn replace_by_id(&mut self, id: &ObjectId, payload: User) -> (r: Option<User>)
        requires
            old(self).wf(),
        ensures
            final(self).wf(),
            final(self).assigned() == old(self).assigned(),
            final(self)@.len() == old(self)@.len(),
            r is Some <==> find_user(old(self)@, id@) is Some,
            r is None ==> final(self)@ == old(self)@,
            r is Some ==> r->0@ == find_user(old(self)@, id@)->0,
            r is Some ==> find_user(final(self)@, id@) == Some(
                (UserView { id: Some(id@), name: payload@.name }),
            ),
            forall|other: Seq<u8>|
                other != id@ ==> find_user(final(self)@, other) == find_user(old(self)@, other),
    {
        match self.index_of(id) {
            Some(i) => {
                let ghost prev = self@;
                let rec = &self.recs[i];
                let pre = User { id: Some(rec.id.clone()), name: rec.name.clone() };
                proof {
                    assert(pre@ =~= prev[i as int]);
                }
                let kept = rec.id.clone();
                let ghost nu = UserView { id: Some(id@), name: payload@.name };
                self.recs.set(i, Rec { id: kept, name: payload.name });
                proof {
                    assert(self@ =~= prev.update(i as int, nu));
                    assert forall|k: int|
                        0 <= k < self.recs@.len() implies (#[trigger] self.recs@[k].id@)
                        == old(self).recs@[k].id@ by {}
                    assert(self.wf());
                    assert(forall|j: int|
                        0 <= j < i ==> (#[trigger] self@[j].id) == prev[j].id);
                    lemma_find_skip(self@, id@, i as int);
                    assert(self@.skip(i as int)[0] == self@[i as int]);
                    assert(self@[i as int] == nu);
                    assert forall|other: Seq<u8>| other != id@ implies find_user(self@, other)
                        == find_user(prev, other) by {
                        lemma_find_update_other(prev, i as int, nu, other);
                    }
                }
                Some(pre)
            },
            None => None,
        }
    }

    /// Atomically finds the record carrying the identifier and
    /// removes it, returning the removed record.
    pub fn remove_by_id(&mut self, id: &ObjectId) -> (r: Option<User>)
        requires
            old(self).wf(),
        ensures
            final(self).wf(),
            final(self).assigned() == old(self).assigned(),
            r is Some <==> find_user(old(self)@, id@) is Some,
            r is None ==> final(self)@ == old(self)@,
            r is Some ==> r->0@ == find_user(old(self)@, id@)->0,
            r is Some ==> final(self)@.len() == old(self)@.len() - 1,
            r is Some ==> find_user(final(self)@, id@) is None,
            forall|other: Seq<u8>|
                other != id@ ==> find_user(final(self)@, other) == find_user(old(self)@, other),
    {
        match self.index_of(id) {
            Some(i) => {
                let ghost prev = self@;
                proof {
                    self.lemma_wf_view();
                }
                let rec = self.recs.remove(i);
                let gone = User { id: Some(rec.id), name: rec.name };
                proof {
                    assert(gone@ =~= prev[i as int]);
                    assert(self@ =~= prev.remove(i as int));
                    assert forall|k: int|
                        0 <= k < self.recs@.len() implies (#[trigger] self.recs@[k]) == if k < i {
                        old(self).recs@[k]
                    } else {
                        old(self).recs@[k + 1]
                    } by {}
                    assert(self.wf());
                    assert forall|k: int| 0 <= k < self@.len() implies (#[trigger] self@[k].id)
                        != Some(id@) by {
                        if k < i {
                            assert(prev[k].id != prev[i as int].id);
                        } else {
                            assert(prev[k + 1].id != prev[i as int].id);
                        }
                    }
                    lemma_find_iff(self@, id@);
                    assert forall|other: Seq<u8>| other != id@ implies find_user(self@, other)
                        == find_user(prev, other) by {
                        lemma_find_remove_other(prev, i as int, other);
                    }
                }
                Some(gone)
            },
            None => None,
        }
    }

    /// Every record currently in the collection, in insertion order.
    pub fn all_users(&self) -> (r: Vec<User>)
        requires
            self.wf(),
        ensures
            r@.len() == self@.len(),
            forall|i: int| 0 <= i < r@.len() ==> (#[trigger] r@[i])@ == self@[i],
    {
        let mut out: Vec<User> = Vec::new();
        let mut i: usize = 0;
        while i < self.recs.len()
            invariant
                self.wf(),
                0 <= i <= self@.len(),
                out@.len() == i,
                forall|j: int| 0 <= j < i ==> (#[trigger] out@[j])@ == self@[j],
            decreases self@.len() - i,
        {
            let rec = &self.recs[i];
            let u = User { id: Some(rec.id.clone()), name: rec.name.clone() };
            proof {
                assert(u@ =~= self@[i as int]);
            }
            out.push(u);
            i += 1;
        }
        out
    }

    /// How many records the collection currently holds.
    pub fn count(&self) -> (n: usize)
        ensures
            n == self@.len(),
    {
        self.recs.len()
    }
}

} // verus!
