use vstd::prelude::*;

verus! {

/// The kinds of native object that the library wraps.
#[derive(Clone, Copy, Debug, PartialEq, Eq, Structural)]
pub enum ObjectKind {
    Volume,
    FileEntry,
    Attribute,
    DataStream,
}

/// Names one wrapped object: a slot of the registry and the generation of
/// that slot at the time the object was wrapped. A slot that is reused gets
/// a new generation, so an identifier of a released object never names a
/// later one.
#[derive(Clone, Copy, Debug, PartialEq, Eq, Structural)]
pub struct HandleId {
    slot: usize,
    generation: u64,
}

/// What the registry knows of one live object.
#[derive(Clone, Copy, Debug)]
pub struct Owned {
    pub kind: ObjectKind,
    /// The native handle, as an address; never zero.
    pub token: usize,
    /// The object it was created from; `None` for a root (a volume).
    pub parent: Option<HandleId>,
}

struct Slot {
    kind: ObjectKind,
    token: usize,
    parent: Option<HandleId>,
    generation: u64,
    live: bool,
}

/// The answer of [`HandleRegistry::release`].
#[derive(Debug)]
pub enum Release {
    /// The object was live and had no live children: it is now released, and
    /// the caller must free this native handle.
    Freed(usize),
    /// The object still has live children and stays live.
    ChildrenAlive,
    /// The identifier names no live object (it was released already).
    NotLive,
}

/// Owns the native handles of a tree of wrapped objects. Each live object
/// has exactly one entry, no two live entries hold the same native handle,
/// and the parent of a live object is live.
pub struct HandleRegistry {
    slots: Vec<Slot>,
}

impl HandleRegistry {
    closed spec fn slot_live(&self, id: HandleId) -> bool {
        &&& id.slot < self.slots@.len()
        &&& self.slots@[id.slot as int].live
        &&& self.slots@[id.slot as int].generation == id.generation
    }

    /// The live objects, by identifier.
    pub closed spec fn objects(&self) -> Map<HandleId, Owned> {
        Map::new(
            |id: HandleId| self.slot_live(id),
            |id: HandleId|
                Owned {
                    kind: self.slots@[id.slot as int].kind,
                    token: self.slots@[id.slot as int].token,
                    parent: self.slots@[id.slot as int].parent,
                },
        )
    }

    /// True of an identifier whose object was released: it can never name a
    /// live object again.
    pub closed spec fn retired(&self, id: HandleId) -> bool {
        &&& id.slot < self.slots@.len()
        &&& {
            let s = self.slots@[id.slot as int];
            id.generation < s.generation || (id.generation == s.generation && !s.live)
        }
    }

    /// The registry's invariant.
    pub closed spec fn wf(&self) -> bool {
        &&& forall|i: int| 0 <= i < self.slots@.len() && self.slots@[i].live ==> self.slots@[i].token != 0
        &&& forall|i: int|
            #![trigger self.slots@[i]]
            0 <= i < self.slots@.len() && self.slots@[i].live && self.slots@[i].parent is Some
                ==> self.slot_live(self.slots@[i].parent->Some_0)
        &&& forall|i: int, j: int|
            0 <= i < self.slots@.len() && 0 <= j < self.slots@.len() && i != j
                && self.slots@[i].live && self.slots@[j].live ==> self.slots@[i].token
                != self.slots@[j].token
    }

    /// True when some live object holds the native handle `token`.
    pub open spec fn token_owned(&self, token: usize) -> bool {
        exists|id: HandleId| self.objects().contains_key(id) && self.objects()[id].token == token
    }

    /// True when some live object was created from `id`.
    pub open spec fn has_children(&self, id: HandleId) -> bool {
        exists|c: HandleId| self.objects().contains_key(c) && self.objects()[c].parent == Some(id)
    }

    /// An empty registry.
    pub fn new() -> (r: HandleRegistry)
        ensures
            r.wf(),
            r.objects() == Map::<HandleId, Owned>::empty(),
            forall|id: HandleId| !r.retired(id),
    {
        let r = HandleRegistry { slots: Vec::new() };
        assert(r.objects() =~= Map::<HandleId, Owned>::empty());
        r
    }

    /// The live object that `id` names, if any.
    pub fn get(&self, id: HandleId) -> (r: Option<Owned>)
        ensures
            r is Some <==> self.objects().contains_key(id),
            r is Some ==> r->Some_0 == self.objects()[id],
    {
        if id.slot < self.slots.len() {
            let s = &self.slots[id.slot];
            if s.live && s.generation == id.generation {
                return Some(Owned { kind: s.kind, token: s.token, parent: s.parent });
            }
        }
        None
    }

    /// Whether `id` names a live object.
    pub fn is_live(&self, id: HandleId) -> (r: bool)
        ensures
            r == self.objects().contains_key(id),
    {
        self.get(id).is_some()
    }

    /// Takes ownership of the native handle `token`, created from `parent`
    /// (`None` for a root), and returns the new object's identifier. The
    /// identifier was never handed out before.
    pub fn wrap(&mut self, parent: Option<HandleId>, kind: ObjectKind, token: usize) -> (id:
        HandleId)
        requires
            old(self).wf(),
            token != 0,
            !old(self).token_owned(token),
            parent is Some ==> old(self).objects().contains_key(parent->Some_0),
        ensures
            final(self).wf(),
            !old(self).objects().contains_key(id),
            !old(self).retired(id),
            final(self).objects() == old(self).objects().insert(
                id,
                Owned { kind: kind, token: token, parent: parent },
            ),
            forall|x: HandleId| old(self).retired(x) ==> final(self).retired(x),
    {
        let ghost before = *self;
        let n = self.slots.len();
        proof {
            assert forall|j: int| 0 <= j < before.slots@.len() && before.slots@[j].live implies
                before.slots@[j].token != token by {
                let hid = HandleId { slot: j as usize, generation: before.slots@[j].generation };
                assert(before.objects().contains_key(hid));
            }
        }
        let slot = Slot { kind, token, parent, generation: 0, live: true };
        let mut i: usize = 0;
        while i < n
            invariant
                n == self.slots@.len(),
                *self == before,
                before == *old(self),
                before.wf(),
                token != 0,
                parent is Some ==> before.objects().contains_key(parent->Some_0),
                forall|j: int|
                    0 <= j < before.slots@.len() && before.slots@[j].live ==> before.slots@[j].token
                        != token,
                i <= self.slots@.len(),
                forall|j: int|
                    0 <= j < i ==> self.slots@[j].live || self.slots@[j].generation == u64::MAX,
            decreases self.slots@.len() - i,
        {
            if !self.slots[i].live && self.slots[i].generation < u64::MAX {
                let g = self.slots[i].generation + 1;
                let id = HandleId { slot: i, generation: g };
                self.slots.set(i, Slot { kind, token, parent, generation: g, live: true });
                proof {
                    assert(forall|j: int|
                        0 <= j < before.slots@.len() && j != i ==> self.slots@[j]
                            == before.slots@[j]);
                    assert forall|j: int|
                        #![trigger self.slots@[j]]
                        0 <= j < self.slots@.len() && self.slots@[j].live
                            && self.slots@[j].parent is Some implies self.slot_live(
                            self.slots@[j].parent->Some_0,
                        ) by {
                        if j != i {
                            assert(before.slots@[j] == self.slots@[j]);
                            assert(before.slot_live(before.slots@[j].parent->Some_0));
                        } else {
                            assert(before.objects().contains_key(parent->Some_0));
                        }
                    }
                    assert forall|a: int| 0 <= a < self.slots@.len() && self.slots@[a].live implies self.slots@[a].token != 0 by {
                        if a != i {
                            assert(before.slots@[a] == self.slots@[a]);
                        }
                    }
                    assert forall|a: int, b: int|
                        0 <= a < self.slots@.len() && 0 <= b < self.slots@.len() && a != b
                            && self.slots@[a].live && self.slots@[b].live implies self.slots@[a].token
                        != self.slots@[b].token by {
                        if a != i && b != i {
                            assert(before.slots@[a] == self.slots@[a]);
                            assert(before.slots@[b] == self.slots@[b]);
                        } else if a == i {
                            assert(before.slots@[b] == self.slots@[b]);
                        } else {
                            assert(before.slots@[a] == self.slots@[a]);
                        }
                    }
                    assert(self.objects() =~= before.objects().insert(
                        id,
                        Owned { kind: kind, token: token, parent: parent },
                    ));
                }
                return id;
            }
            i = i + 1;
        }
        let id = HandleId { slot: self.slots.len(), generation: 0 };
        self.slots.push(slot);
        proof {
            assert(forall|j: int| 0 <= j < before.slots@.len() ==> self.slots@[j] == before.slots@[j]);
            assert forall|j: int|
                #![trigger self.slots@[j]]
                0 <= j < self.slots@.len() && self.slots@[j].live && self.slots@[j].parent is Some
                    implies self.slot_live(self.slots@[j].parent->Some_0) by {
                if j < before.slots@.len() {
                    assert(before.slot_live(before.slots@[j].parent->Some_0));
                } else {
                    assert(before.objects().contains_key(parent->Some_0));
                }
            }
            assert(self.objects() =~= before.objects().insert(
                id,
                Owned { kind: kind, token: token, parent: parent },
            ));
        }
        id
    }

    /// Releases the object that `id` names, once: it succeeds only for a
    /// live object none of whose children is live, and hands back the native
    /// handle that the caller must now free.
    pub fn release(&mut self, id: HandleId) -> (r: Release)
        requires
            old(self).wf(),
        ensures
            final(self).wf(),
            forall|x: HandleId| old(self).retired(x) ==> final(self).retired(x),
            !old(self).objects().contains_key(id) ==> r is NotLive && final(self).objects()
                == old(self).objects(),
            old(self).objects().contains_key(id) && old(self).has_children(id) ==> r is ChildrenAlive
                && final(self).objects() == old(self).objects(),
            old(self).objects().contains_key(id) && !old(self).has_children(id) ==> r == Release::Freed(
                old(self).objects()[id].token,
            ) && final(self).objects() == old(self).objects().remove(id) && final(self).retired(id),
    {
        if !self.is_live(id) {
            return Release::NotLive;
        }
        if self.has_live_children(id) {
            return Release::ChildrenAlive;
        }
        let ghost before = *self;
        let len = self.slots.len();
        let token = self.slots[id.slot].token;
        let s = Slot {
            kind: self.slots[id.slot].kind,
            token,
            parent: self.slots[id.slot].parent,
            generation: id.generation,
            live: false,
        };
        self.slots.set(id.slot, s);
        proof {
            assert(before.slot_live(id));
            assert(forall|j: int|
                0 <= j < before.slots@.len() && j != id.slot ==> self.slots@[j] == before.slots@[j]);
            assert forall|j: int|
                #![trigger self.slots@[j]]
                0 <= j < self.slots@.len() && self.slots@[j].live && self.slots@[j].parent is Some
                    implies self.slot_live(self.slots@[j].parent->Some_0) by {
                assert(j != id.slot && j < len);
                assert(before.slots@[j] == self.slots@[j]);
                assert(before.slot_live(before.slots@[j].parent->Some_0));
                let c = HandleId { slot: j as usize, generation: before.slots@[j].generation };
                assert(before.objects().contains_key(c));
                assert(before.objects()[c].parent != Some(id));
            }
            assert(self.objects() =~= before.objects().remove(id));
        }
        Release::Freed(token)
    }

    /// Whether some live object holds the native handle `token`.
    pub fn owns_token(&self, token: usize) -> (r: bool)
        ensures
            r == self.token_owned(token),
    {
        let mut i: usize = 0;
        while i < self.slots.len()
            invariant
                i <= self.slots@.len(),
                forall|j: int|
                    0 <= j < i ==> !(self.slots@[j].live && self.slots@[j].token == token),
            decreases self.slots@.len() - i,
        {
            let s = &self.slots[i];
            if s.live && s.token == token {
                let id = HandleId { slot: i, generation: s.generation };
                assert(self.objects().contains_key(id));
                return true;
            }
            i = i + 1;
        }
        assert forall|id: HandleId|
            self.objects().contains_key(id) implies self.objects()[id].token != token by {
            assert(self.slot_live(id));
        }
        false
    }

    /// Whether some live object was created from `id`.
    pub fn has_live_children(&self, id: HandleId) -> (r: bool)
        ensures
            r == self.has_children(id),
    {
        let mut i: usize = 0;
        while i < self.slots.len()
            invariant
                i <= self.slots@.len(),
                forall|j: int|
                    0 <= j < i ==> !(self.slots@[j].live && self.slots@[j].parent == Some(id)),
            decreases self.slots@.len() - i,
        {
            let s = &self.slots[i];
            if s.live {
                match s.parent {
                    Some(p) => {
                        if p.slot == id.slot && p.generation == id.generation {
                            let c = HandleId { slot: i, generation: s.generation };
                            assert(self.objects().contains_key(c));
                            return true;
                        }
                    },
                    None => {},
                }
            }
            i = i + 1;
        }
        assert forall|c: HandleId|
            self.objects().contains_key(c) implies self.objects()[c].parent != Some(id) by {
            assert(self.slot_live(c));
        }
        false
    }
}

/// No two live objects own the same native handle.
pub proof fn lemma_one_owner_per_handle(reg: &HandleRegistry, a: HandleId, b: HandleId)
    requires
        reg.wf(),
        reg.objects().contains_key(a),
        reg.objects().contains_key(b),
        a != b,
    ensures
        reg.objects()[a].token != reg.objects()[b].token,
{
    assert(reg.slot_live(a) && reg.slot_live(b));
}

/// The object that a live object was created from is live too: a parent
/// outlives each of its children.
pub proof fn lemma_parent_outlives_child(reg: &HandleRegistry, child: HandleId)
    requires
        reg.wf(),
        reg.objects().contains_key(child),
        reg.objects()[child].parent is Some,
    ensures
        reg.objects().contains_key(reg.objects()[child].parent->Some_0),
{
    assert(reg.slot_live(child));
    let p = reg.slots@[child.slot as int].parent->Some_0;
    assert(reg.slot_live(p));
}

/// An identifier whose object was released names no live object. Since every
/// operation keeps released identifiers released, a handle is freed at most
/// once and a stale identifier is never taken for a live object.
pub proof fn lemma_released_stays_released(reg: &HandleRegistry, id: HandleId)
    requires
        reg.retired(id),
    ensures
        !reg.objects().contains_key(id),
{
}

} // verus!
