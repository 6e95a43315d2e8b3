//! The object registry: a table from object ids to the kind of object living
//! under each id. Incoming events are routed by id through this table; an
//! event for an id the table does not hold is dropped silently, since the
//! compositor may race the client around teardown.

use vstd::prelude::*;

verus! {

/// The closed set of object kinds this client creates. Routing an event is an
/// exhaustive match over the kind found here, so an event can never be
/// delivered to a handler of the wrong kind.
#[derive(PartialEq, Eq, Structural, Clone, Copy, Debug)]
pub enum ObjectKind {
    /// The registry-listing object that announces globals.
    GlobalRegistry,
    /// A sync callback marking a discovery barrier.
    SyncCallback,
    Compositor,
    Shm,
    Seat,
    Output,
    WmBase,
    LayerShell,
    Surface,
    ShellSurface,
    Keyboard,
    Pool,
    Buffer,
}

/// Whether the table holds some entry under `id`.
pub open spec fn table_has_id(s: Seq<(u32, ObjectKind)>, id: u32) -> bool {
    exists|i: int| 0 <= i < s.len() && s[i].0 == id
}

/// Whether the table holds `id` with kind `kind`.
pub open spec fn table_has_entry(s: Seq<(u32, ObjectKind)>, id: u32, kind: ObjectKind) -> bool {
    exists|i: int| 0 <= i < s.len() && s[i] == (id, kind)
}

/// The table from object ids to object kinds.
#[derive(PartialEq, Eq, Clone, Debug)]
pub struct ObjectRegistry {
    pub entries: Vec<(u32, ObjectKind)>,
}

impl ObjectRegistry {
    /// Well-formedness: no id occurs twice.
    pub open spec fn wf(self) -> bool {
        forall|i: int, j: int|
            0 <= i < self.entries@.len() && 0 <= j < self.entries@.len() && i != j ==> self.entries@[i].0
                != self.entries@[j].0
    }

    /// An empty table.
    pub fn new() -> (r: ObjectRegistry)
        ensures
            r.wf(),
            r.entries@ =~= Seq::<(u32, ObjectKind)>::empty(),
    {
        ObjectRegistry { entries: Vec::new() }
    }

    /// Associate a fresh id with its kind.
    pub fn register(&mut self, id: u32, kind: ObjectKind)
        requires
            old(self).wf(),
            !table_has_id(old(self).entries@, id),
        ensures
            final(self).wf(),
            final(self).entries@ == old(self).entries@.push((id, kind)),
    {
        self.entries.push((id, kind));
        proof {
            let s = self.entries@;
            let t = old(self).entries@;
            assert forall|i: int, j: int| 0 <= i < s.len() && 0 <= j < s.len() && i != j implies s[i].0
                != s[j].0 by {
                if i < t.len() && j < t.len() {
                } else if i < t.len() {
                    assert(!(t[i].0 == id));
                } else {
                    assert(!(t[j].0 == id));
                }
            }
        }
    }

    /// Drop the entry under `id`, if any: a destroyed object's id routes
    /// nothing from then on. Ids are never reused, so the id stays retired.
    pub fn unregister(&mut self, id: u32)
        requires
            old(self).wf(),
        ensures
            final(self).wf(),
            !table_has_id(final(self).entries@, id),
            final(self).entries@.len() <= old(self).entries@.len(),
            forall|id2: u32, kind: ObjectKind|
                id2 != id ==> (table_has_entry(final(self).entries@, id2, kind) <==> table_has_entry(
                    old(self).entries@,
                    id2,
                    kind,
                )),
    {
        let n = self.entries.len();
        let mut i: usize = 0;
        while i < n
            invariant
                self.entries@ == old(self).entries@,
                n == self.entries@.len(),
                0 <= i <= n,
                forall|j: int| 0 <= j < i ==> self.entries@[j].0 != id,
                old(self).wf(),
            decreases n - i,
        {
            let ghost t = self.entries@;
            if self.entries[i].0 == id {
                self.entries.remove(i);
                proof {
                    let s = self.entries@;
                    assert(t[i as int].0 == id);
                    assert forall|j: int| 0 <= j < s.len() implies s[j] == (if j < i { t[j] } else { t[j + 1] }) by {}
                    assert forall|j: int, k: int| 0 <= j < s.len() && 0 <= k < s.len() && j != k implies s[j].0
                        != s[k].0 by {
                        let j0 = if j < i { j } else { j + 1 };
                        let k0 = if k < i { k } else { k + 1 };
                        assert(s[j] == t[j0]);
                        assert(s[k] == t[k0]);
                        assert(t[j0].0 != t[k0].0);
                    }
                    assert forall|j: int| 0 <= j < s.len() implies s[j].0 != id by {
                        let j0 = if j < i { j } else { j + 1 };
                        assert(s[j] == t[j0]);
                        assert(j0 != i);
                        assert(t[j0].0 != t[i as int].0);
                    }
                    assert forall|id2: u32, kind: ObjectKind| id2 != id implies (table_has_entry(s, id2, kind)
                        <==> table_has_entry(t, id2, kind)) by {
                        if table_has_entry(s, id2, kind) {
                            let j = choose|j: int| 0 <= j < s.len() && s[j] == (id2, kind);
                            if j < i {
                                assert(t[j] == (id2, kind));
                            } else {
                                assert(t[j + 1] == (id2, kind));
                            }
                        }
                        if table_has_entry(t, id2, kind) {
                            let j = choose|j: int| 0 <= j < t.len() && t[j] == (id2, kind);
                            if j < i {
                                assert(s[j] == (id2, kind));
                            } else {
                                assert(j != i);
                                assert(s[j - 1] == (id2, kind));
                            }
                        }
                    }
                }
                return ;
            }
            i += 1;
        }
    }

    /// Look the id up. Returns the kind registered under it, or nothing for
    /// an unknown or already torn-down id.
    pub fn lookup(&self, id: u32) -> (r: Option<ObjectKind>)
        requires
            self.wf(),
        ensures
            r matches Some(kind) ==> table_has_entry(self.entries@, id, kind),
            r is Some <==> table_has_id(self.entries@, id),
    {
        let n = self.entries.len();
        let mut i: usize = 0;
        while i < n
            invariant
                n == self.entries@.len(),
                0 <= i <= n,
                forall|j: int| 0 <= j < i ==> self.entries@[j].0 != id,
            decreases n - i,
        {
            let entry = self.entries[i];
            if entry.0 == id {
                return Some(entry.1);
            }
            i += 1;
        }
        None
    }
}

/// In a well-formed table an id determines its kind: two entries under the
/// same id are the same entry.
pub proof fn lemma_table_kind_unique(s: Seq<(u32, ObjectKind)>, id: u32, k1: ObjectKind, k2: ObjectKind)
    requires
        forall|i: int, j: int| 0 <= i < s.len() && 0 <= j < s.len() && i != j ==> s[i].0 != s[j].0,
        table_has_entry(s, id, k1),
        table_has_entry(s, id, k2),
    ensures
        k1 == k2,
{
    let i1 = choose|i: int| 0 <= i < s.len() && s[i] == (id, k1);
    let i2 = choose|i: int| 0 <= i < s.len() && s[i] == (id, k2);
    assert(i1 == i2);
}

/// In a well-formed table an id found under one kind is under no other kind.
pub proof fn lemma_kind_exclusive(s: Seq<(u32, ObjectKind)>, id: u32, kind: ObjectKind)
    requires
        forall|i: int, j: int| 0 <= i < s.len() && 0 <= j < s.len() && i != j ==> s[i].0 != s[j].0,
        table_has_entry(s, id, kind),
    ensures
        forall|k2: ObjectKind| k2 != kind ==> !table_has_entry(s, id, k2),
{
    assert forall|k2: ObjectKind| k2 != kind implies !table_has_entry(s, id, k2) by {
        if table_has_entry(s, id, k2) {
            lemma_table_kind_unique(s, id, kind, k2);
        }
    }
}

} // verus!
