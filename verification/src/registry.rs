//! A location-keyed, reference-counted store of resources.
//!
//! A registry hands out a [`Handle`] for every resource it stores. Resources
//! created under equal shared locations are stored once and counted; a
//! resource leaves the registry when its count drops to zero, and its handle
//! is never handed out again.

use vstd::prelude::*;
use crate::handle::Handle;
use crate::location::{Location, LocationAtom};

verus! {

/// What the registry keeps for one live handle.
pub struct Record<T> {
    /// The stored resource.
    pub value: T,
    /// How many owners the resource has; at least one.
    pub rc: u32,
    /// The atom the resource is shared under, or `None` for a resource
    /// created under a unique location.
    pub atom: Option<LocationAtom>,
}

/// The bookkeeping of one slot.
#[derive(Clone, Copy)]
struct Meta {
    /// The generation of the present occupant, or of the next one if the slot
    /// is vacant.
    version: u32,
    /// Set once the last generation of the slot has been used up.
    retired: bool,
    /// The reference count of the occupant; zero if the slot is vacant.
    rc: u32,
    /// The atom the occupant is shared under.
    atom: Option<LocationAtom>,
}

/// The store itself. Its view maps every live handle to its record.
pub struct Registry<T> {
    values: Vec<Option<T>>,
    metas: Vec<Meta>,
    frees: Vec<u32>,
}

/// The records after one more owner of `h` has been counted.
pub open spec fn counted_up<T>(m: Map<Handle, Record<T>>, h: Handle) -> Map<Handle, Record<T>> {
    if m.dom().contains(h) {
        m.insert(h, Record { value: m[h].value, rc: (m[h].rc + 1) as u32, atom: m[h].atom })
    } else {
        m
    }
}

/// The records after one owner of `h` has let go: the count drops by one, and
/// the record leaves with its last owner.
pub open spec fn counted_down<T>(m: Map<Handle, Record<T>>, h: Handle) -> Map<Handle, Record<T>> {
    if !m.dom().contains(h) {
        m
    } else if m[h].rc > 1 {
        m.insert(h, Record { value: m[h].value, rc: (m[h].rc - 1) as u32, atom: m[h].atom })
    } else {
        m.remove(h)
    }
}

/// The records after `n` owners of `h` have let go, one after the other.
pub open spec fn counted_down_times<T>(m: Map<Handle, Record<T>>, h: Handle, n: nat) -> Map<
    Handle,
    Record<T>,
>
    decreases n,
{
    if n == 0 {
        m
    } else {
        counted_down_times(counted_down(m, h), h, (n - 1) as nat)
    }
}

/// The handle among `m` whose record is shared under `atom`, if there is one.
pub open spec fn shared_under<T>(m: Map<Handle, Record<T>>, atom: LocationAtom) -> Option<Handle> {
    if atom.is_shared() && exists|h: Handle| #[trigger] m.dom().contains(h) && m[h].atom == Some(atom) {
        Some(choose|h: Handle| #[trigger] m.dom().contains(h) && m[h].atom == Some(atom))
    } else {
        None
    }
}

/// No two records of `m` are shared under the same atom, every count is at
/// least one, and only shared atoms are recorded.
pub open spec fn records_wf<T>(m: Map<Handle, Record<T>>) -> bool {
    &&& forall|h: Handle| #[trigger] m.dom().contains(h) ==> m[h].rc >= 1
    &&& forall|h: Handle| #[trigger]
        m.dom().contains(h) && m[h].atom is Some ==> m[h].atom.unwrap().is_shared()
    &&& forall|h1: Handle, h2: Handle|
        #![trigger m.dom().contains(h1), m.dom().contains(h2)]
        m.dom().contains(h1) && m.dom().contains(h2) && m[h1].atom is Some && m[h1].atom
            == m[h2].atom ==> h1 == h2
}

impl<T> View for Registry<T> {
    type V = Map<Handle, Record<T>>;

    closed spec fn view(&self) -> Map<Handle, Record<T>> {
        Map::new(
            |h: Handle| self.live(h),
            |h: Handle|
                Record {
                    value: self.values@[h.index() as int].unwrap(),
                    rc: self.metas@[h.index() as int].rc,
                    atom: self.metas@[h.index() as int].atom,
                },
        )
    }
}

impl<T> Registry<T> {
    /// Whether `h` names the present occupant of its slot.
    closed spec fn live(&self, h: Handle) -> bool {
        &&& h.index() < self.metas@.len()
        &&& self.metas@[h.index() as int].rc > 0
        &&& self.metas@[h.index() as int].version == h.version()
    }

    /// Whether `h` has ever been handed out by this registry. A handle that
    /// was handed out stays so for good, live or not.
    pub closed spec fn issued(&self, h: Handle) -> bool {
        &&& h.index() < self.metas@.len()
        &&& {
            let m = self.metas@[h.index() as int];
            h.version() < m.version || (h.version() == m.version && (m.rc > 0 || m.retired))
        }
    }

    /// How many slots the registry has opened so far.
    pub closed spec fn slot_count(&self) -> nat {
        self.metas@.len()
    }

    /// How many opened slots wait for a new occupant.
    pub closed spec fn vacancies(&self) -> nat {
        self.frees@.len()
    }

    /// The internal invariant of the registry.
    pub closed spec fn wf(&self) -> bool {
        &&& self.values@.len() == self.metas@.len()
        &&& self.metas@.len() <= u32::MAX
        &&& forall|i: int|
            0 <= i < self.metas@.len() ==> ((#[trigger] self.values@[i]) is Some <==> self.metas@[i].rc
                > 0)
        &&& forall|i: int|
            0 <= i < self.metas@.len() && (#[trigger] self.metas@[i]).retired ==> self.metas@[i].rc
                == 0
        &&& forall|i: int|
            0 <= i < self.metas@.len() && (#[trigger] self.metas@[i]).atom is Some
                ==> self.metas@[i].rc > 0 && self.metas@[i].atom.unwrap().is_shared()
        &&& forall|i: int, j: int|
            0 <= i < self.metas@.len() && 0 <= j < self.metas@.len() && (
            #[trigger] self.metas@[i]).atom is Some && self.metas@[i].atom == (
            #[trigger] self.metas@[j]).atom ==> i == j
        &&& forall|k: int|
            0 <= k < self.frees@.len() ==> (#[trigger] self.frees@[k]) < self.metas@.len()
                && self.metas@[self.frees@[k] as int].rc == 0
                && !self.metas@[self.frees@[k] as int].retired
        &&& forall|k: int, l: int|
            0 <= k < self.frees@.len() && 0 <= l < self.frees@.len() && k != l
                ==> #[trigger] self.frees@[k] != #[trigger] self.frees@[l]
    }

    /// Whether the registry has a slot for a new record within the limits of
    /// the machine.
    pub open spec fn has_room(&self) -> bool {
        self.vacancies() > 0 || self.slot_count() < u32::MAX
    }

    /// Whether the registry can take a resource under `atom` within the
    /// limits of the machine: a count that has room for one more owner, or a
    /// slot for a new record.
    pub open spec fn admits(&self, atom: LocationAtom) -> bool {
        match shared_under(self@, atom) {
            Some(h) => self@[h].rc < u32::MAX,
            None => self.has_room(),
        }
    }

    /// The records of a well-formed registry are well-formed, and every live
    /// handle has been issued.
    pub proof fn lemma_records(&self)
        requires
            self.wf(),
        ensures
            records_wf(self@),
            forall|h: Handle| #[trigger] self@.dom().contains(h) ==> self.issued(h),
    {
        broadcast use Handle::lemma_identity;

        assert forall|h1: Handle, h2: Handle|
            self@.dom().contains(h1) && self@.dom().contains(h2) && self@[h1].atom is Some
                && self@[h1].atom == self@[h2].atom implies h1 == h2 by {
            let i = h1.index() as int;
            let j = h2.index() as int;
            assert(self.metas@[i].atom == self.metas@[j].atom);
        }
    }

    /// A record shared under an atom is the one that a lookup of the atom
    /// finds, and a lookup finds nothing else.
    pub proof fn lemma_lookup(&self, h: Handle, atom: LocationAtom)
        requires
            self.wf(),
        ensures
            shared_under(self@, atom) == Some(h) <==> self@.dom().contains(h) && self@[h].atom
                == Some(atom),
    {
        self.lemma_records();
    }

    /// Creates an empty registry.
    pub fn new() -> (r: Self)
        ensures
            r.wf(),
            r@ == Map::<Handle, Record<T>>::empty(),
            r.slot_count() == 0,
            forall|h: Handle| !r.issued(h),
    {
        let r = Registry { values: Vec::new(), metas: Vec::new(), frees: Vec::new() };
        proof {
            assert(r@ =~= Map::<Handle, Record<T>>::empty());
        }
        r
    }

    /// Tells whether the registry has a slot for a new record.
    pub fn can_open(&self) -> (r: bool)
        ensures
            r == self.has_room(),
    {
        self.frees.len() > 0 || self.metas.len() < 0xffff_ffff
    }

    /// Tells whether `create` can take a resource under `location`.
    pub fn can_create(&self, location: Location) -> (r: bool)
        requires
            self.wf(),
        ensures
            r == self.admits(location.atom()),
    {
        match self.lookup(location) {
            Some(h) => self.metas[h.index() as usize].rc < u32::MAX,
            None => self.can_open(),
        }
    }

    /// Tells whether `h` names a record of this registry.
    pub fn is_alive(&self, h: Handle) -> (r: bool)
        ensures
            r == self@.dom().contains(h),
    {
        let i = h.index() as usize;
        i < self.metas.len() && self.metas[i].rc > 0 && self.metas[i].version == h.version()
    }

    /// Finds the handle of the record shared under `atom`, if there is one.
    pub fn lookup_atom(&self, atom: LocationAtom) -> (r: Option<Handle>)
        requires
            self.wf(),
        ensures
            r == shared_under(self@, atom),
            r is Some ==> self@.dom().contains(r.unwrap()) && self@[r.unwrap()].atom == Some(atom),
            r is None ==> forall|h: Handle| #[trigger]
                self@.dom().contains(h) ==> self@[h].atom != Some(atom),
    {
        broadcast use Handle::lemma_identity;

        if !atom.is_shared() {
            proof {
                self.lemma_records();
            }
            return None;
        }
        let mut i: usize = 0;
        while i < self.metas.len()
            invariant
                self.wf(),
                i <= self.metas@.len(),
                forall|k: int| 0 <= k < i ==> (#[trigger] self.metas@[k]).atom != Some(atom),
            decreases self.metas@.len() - i,
        {
            let m = self.metas[i];
            let hit = match m.atom {
                Some(a) => a.identical(&atom),
                None => false,
            };
            if hit {
                let h = Handle::new(i as u32, m.version);
                proof {
                    self.lemma_records();
                    assert(self@.dom().contains(h) && self@[h].atom == Some(atom));
                }
                return Some(h);
            }
            i += 1;
        }
        proof {
            assert forall|h: Handle| #[trigger] self@.dom().contains(h) implies self@[h].atom
                != Some(atom) by {
                assert(self.metas@[h.index() as int].atom != Some(atom));
            }
        }
        None
    }

    /// Finds the handle of the resource created under a location equal to
    /// `location`. A unique location equals nothing, so it finds nothing.
    pub fn lookup(&self, location: Location) -> (r: Option<Handle>)
        requires
            self.wf(),
        ensures
            r == shared_under(self@, location.atom()),
            !location.is_shared() ==> r is None,
            r is Some ==> self@.dom().contains(r.unwrap()) && self@[r.unwrap()].atom == Some(
                location.atom(),
            ),
            r is None ==> forall|h: Handle| #[trigger]
                self@.dom().contains(h) ==> self@[h].atom != Some(location.atom()),
    {
        broadcast use LocationAtom::lemma_parts;

        self.lookup_atom(location.hash())
    }

    /// Returns the resource that `h` names, or `None` if `h` is stale.
    pub fn get(&self, h: Handle) -> (r: Option<&T>)
        requires
            self.wf(),
        ensures
            r is Some == self@.dom().contains(h),
            r is Some ==> *r.unwrap() == self@[h].value,
    {
        if self.is_alive(h) {
            self.values[h.index() as usize].as_ref()
        } else {
            None
        }
    }

    /// Returns how many owners the resource that `h` names has, or `None` if
    /// `h` is stale.
    pub fn rc(&self, h: Handle) -> (r: Option<u32>)
        ensures
            r == (if self@.dom().contains(h) {
                Some(self@[h].rc)
            } else {
                None
            }),
    {
        if self.is_alive(h) {
            Some(self.metas[h.index() as usize].rc)
        } else {
            None
        }
    }

    /// What `create` promises: under an atom that is already shared, the
    /// existing handle with one more owner, and `value` is dropped; otherwise
    /// a handle never issued before, holding `value` with one owner.
    pub open spec fn created(
        pre: &Self,
        location: Location,
        value: T,
        post: &Self,
        h: Handle,
    ) -> bool {
        match shared_under(pre@, location.atom()) {
            Some(h0) => h == h0 && post@ == counted_up(pre@, h0),
            None => {
                &&& !pre.issued(h)
                &&& post@ == pre@.insert(
                    h,
                    Record {
                        value,
                        rc: 1,
                        atom: if location.is_shared() {
                            Some(location.atom())
                        } else {
                            None
                        },
                    },
                )
            },
        }
    }

    /// Opens a slot for a new occupant and returns its index.
    fn open_slot(&mut self) -> (idx: u32)
        requires
            old(self).wf(),
            old(self).has_room(),
        ensures
            final(self).wf(),
            final(self)@ == old(self)@,
            idx < final(self).metas@.len(),
            final(self).metas@[idx as int].rc == 0,
            !final(self).metas@[idx as int].retired,
            final(self).metas@[idx as int].atom is None,
            forall|k: int| 0 <= k < final(self).frees@.len() ==> final(self).frees@[k] != idx,
            forall|h: Handle| old(self).issued(h) == final(self).issued(h),
            forall|i: int|
                0 <= i < old(self).metas@.len() ==> final(self).metas@[i] == old(self).metas@[i],
            final(self).slot_count() <= old(self).slot_count() + 1,
            old(self).slot_count() <= final(self).slot_count(),
    {
        if self.frees.len() > 0 {
            let idx = self.frees.pop().unwrap();
            proof {
                assert(old(self).frees@[old(self).frees@.len() - 1] == idx);
                assert(final(self)@ =~= old(self)@);
            }
            idx
        } else {
            let idx = self.metas.len() as u32;
            self.metas.push(Meta { version: 0, retired: false, rc: 0, atom: None });
            self.values.push(None);
            proof {
                assert(final(self)@ =~= old(self)@);
            }
            idx
        }
    }

    /// Stores `value` under `location` and returns its handle. Under a shared
    /// location that equals one already stored, the stored resource gets one
    /// more owner and its handle is returned; `value` is then dropped.
    pub fn create(&mut self, location: Location, value: T) -> (h: Handle)
        requires
            old(self).wf(),
            old(self).admits(location.atom()),
        ensures
            final(self).wf(),
            Self::created(old(self), location, value, final(self), h),
            final(self)@.dom().contains(h),
            shared_under(final(self)@, location.atom()) == (if location.is_shared() {
                Some(h)
            } else {
                None
            }),
            forall|x: Handle| old(self).issued(x) ==> final(self).issued(x),
            final(self).issued(h),
            old(self).slot_count() <= final(self).slot_count() <= old(self).slot_count() + 1,
    {
        broadcast use Handle::lemma_identity, Handle::lemma_parts, LocationAtom::lemma_parts;

        let atom = location.hash();
        if let Some(h0) = self.lookup_atom(atom) {
            self.inc_rc(h0);
            proof {
                old(self).lemma_records();
                self.lemma_records();
                assert(self@.dom().contains(h0) && self@[h0].atom == Some(atom));
            }
            return h0;
        }
        let idx = self.open_slot();
        let ghost mid = *self;
        let m = self.metas[idx as usize];
        let kept = if atom.is_shared() {
            Some(atom)
        } else {
            None
        };
        self.metas.set(idx as usize, Meta { version: m.version, retired: false, rc: 1, atom: kept });
        self.values.set(idx as usize, Some(value));
        let h = Handle::new(idx, m.version);
        proof {
            assert(!mid.issued(h));
            let rec = Record { value, rc: 1u32, atom: kept };
            assert forall|i: int, j: int|
                0 <= i < self.metas@.len() && 0 <= j < self.metas@.len() && (
                #[trigger] self.metas@[i]).atom is Some && self.metas@[i].atom == (
                #[trigger] self.metas@[j]).atom implies i == j by {
                if i != j && (i == idx || j == idx) {
                    let o = if i == idx {
                        j
                    } else {
                        i
                    };
                    let ho = Handle::new(o as u32, mid.metas@[o].version);
                    assert(mid.metas@[o].atom == Some(atom));
                    assert(mid@.dom().contains(ho));
                    assert(mid@[ho].atom == Some(atom));
                }
            }
            assert(final(self)@ =~= old(self)@.insert(h, rec));
            final(self).lemma_records();
            assert(final(self)@.dom().contains(h) && final(self)@[h].atom == kept);
        }
        h
    }

    /// Counts one more owner of the resource that `h` names. A stale handle is
    /// left alone.
    pub fn inc_rc(&mut self, h: Handle)
        requires
            old(self).wf(),
            old(self)@.dom().contains(h) ==> old(self)@[h].rc < u32::MAX,
        ensures
            final(self).wf(),
            final(self)@ == counted_up(old(self)@, h),
            forall|x: Handle| old(self).issued(x) == final(self).issued(x),
            final(self).slot_count() == old(self).slot_count(),
            final(self).vacancies() == old(self).vacancies(),
    {
        broadcast use Handle::lemma_identity;

        if self.is_alive(h) {
            let i = h.index() as usize;
            let m = self.metas[i];
            self.metas.set(i, Meta { version: m.version, retired: m.retired, rc: m.rc + 1, atom: m.atom });
            proof {
                assert(final(self)@ =~= counted_up(old(self)@, h));
            }
        }
    }

    /// Lets one owner of the resource that `h` names go. The resource leaves
    /// the registry with its last owner, and `h` is stale from then on. A
    /// stale handle is left alone.
    pub fn dec_rc(&mut self, h: Handle)
        requires
            old(self).wf(),
        ensures
            final(self).wf(),
            final(self)@ == counted_down(old(self)@, h),
            forall|x: Handle| old(self).issued(x) == final(self).issued(x),
            final(self).slot_count() == old(self).slot_count(),
            final(self).vacancies() >= old(self).vacancies(),
    {
        broadcast use Handle::lemma_identity;

        if !self.is_alive(h) {
            return ;
        }
        let i = h.index() as usize;
        let m = self.metas[i];
        if m.rc > 1 {
            self.metas.set(i, Meta { version: m.version, retired: m.retired, rc: m.rc - 1, atom: m.atom });
            proof {
                assert(final(self)@ =~= counted_down(old(self)@, h));
            }
        } else {
            self.values.set(i, None);
            if m.version < u32::MAX {
                self.metas.set(i, Meta { version: m.version + 1, retired: false, rc: 0, atom: None });
                self.frees.push(h.index());
                proof {
                    assert forall|k: int| 0 <= k < old(self).frees@.len() implies old(
                        self,
                    ).frees@[k] != h.index() by {
                        assert(old(self).metas@[old(self).frees@[k] as int].rc == 0);
                    }
                }
            } else {
                self.metas.set(i, Meta { version: m.version, retired: true, rc: 0, atom: None });
            }
            proof {
                assert(final(self)@ =~= counted_down(old(self)@, h));
            }
        }
    }

    /// Returns the resource that `h` names for writing, or `None` if `h` is
    /// stale. What the caller writes through the reference is the new value
    /// of the record; its count and atom stay.
    pub fn get_mut(&mut self, h: Handle) -> (r: Option<&mut T>)
        requires
            old(self).wf(),
        ensures
            r is Some == old(self)@.dom().contains(h),
            match r {
                Some(v) => *v == old(self)@[h].value && final(self)@ == old(self)@.insert(
                    h,
                    Record { value: *final(v), rc: old(self)@[h].rc, atom: old(self)@[h].atom },
                ),
                None => final(self)@ == old(self)@,
            },
            final(self).wf(),
            forall|x: Handle| old(self).issued(x) == final(self).issued(x),
            final(self).slot_count() == old(self).slot_count(),
            final(self).vacancies() == old(self).vacancies(),
    {
        broadcast use Handle::lemma_identity;

        if self.is_alive(h) {
            let r = self.values[h.index() as usize].as_mut();
            r
        } else {
            None
        }
    }
}

/// Creating twice under equal shared locations gives the same handle both
/// times. If nothing was stored under the location before, the record holds
/// the first value, not the second, and has two owners; otherwise it holds
/// what it held and has two owners more.
pub proof fn lemma_create_twice<T>(
    r0: &Registry<T>,
    r1: &Registry<T>,
    r2: &Registry<T>,
    a: Location,
    b: Location,
    v1: T,
    v2: T,
    h1: Handle,
    h2: Handle,
)
    requires
        r0.wf(),
        r1.wf(),
        r0.admits(a.atom()),
        r1.admits(b.atom()),
        a.same(&b),
        Registry::created(r0, a, v1, r1, h1),
        Registry::created(r1, b, v2, r2, h2),
    ensures
        h1 == h2,
        r2@.dom().contains(h1),
        r2@[h1].atom == Some(a.atom()),
        shared_under(r0@, a.atom()) is None ==> r2@[h1].value == v1 && r2@[h1].rc == 2,
        shared_under(r0@, a.atom()) is Some ==> r2@[h1].value == r0@[h1].value && r2@[h1].rc
            == r0@[h1].rc + 2,
{
    broadcast use LocationAtom::lemma_parts;

    crate::location::lemma_atom_respects_equality(a, b);
    r0.lemma_records();
    r1.lemma_records();
    assert(r1@.dom().contains(h1) && r1@[h1].atom == Some(a.atom()));
    assert(shared_under(r1@, b.atom()) == Some(h1));
}

/// When as many owners let go of a record as it has, one after the other,
/// the record stays until the last of them and is gone after it. The other
/// records are as they were.
pub proof fn lemma_release_all<T>(m: Map<Handle, Record<T>>, h: Handle)
    requires
        m.dom().contains(h),
        m[h].rc >= 1,
    ensures
        !counted_down_times(m, h, m[h].rc as nat).dom().contains(h),
        forall|n: nat|
            n < m[h].rc ==> {
                let after = #[trigger] counted_down_times(m, h, n);
                after.dom().contains(h) && after[h].rc == m[h].rc - n && after[h].value
                    == m[h].value
            },
        counted_down_times(m, h, m[h].rc as nat) == m.remove(h),
    decreases m[h].rc,
{
    let next = counted_down(m, h);
    if m[h].rc > 1 {
        lemma_release_all(next, h);
        assert forall|n: nat| n < m[h].rc implies {
            let after = #[trigger] counted_down_times(m, h, n);
            after.dom().contains(h) && after[h].rc == m[h].rc - n && after[h].value == m[h].value
        } by {
            if n > 0 {
                assert(counted_down_times(m, h, n) == counted_down_times(next, h, (n - 1) as nat));
            }
        }
        assert(counted_down_times(m, h, m[h].rc as nat) == counted_down_times(
            next,
            h,
            next[h].rc as nat,
        ));
        assert(next.remove(h) =~= m.remove(h));
    } else {
        assert(counted_down_times(next, h, 0) == next);
        assert(counted_down_times(m, h, 1) == next);
        assert forall|n: nat| n < m[h].rc implies {
            let after = #[trigger] counted_down_times(m, h, n);
            after.dom().contains(h) && after[h].rc == m[h].rc - n && after[h].value == m[h].value
        } by {
            assert(n == 0);
        }
    }
}

/// A handle that was issued and is stale stays stale: no later `create`
/// returns it, whatever is created.
pub proof fn lemma_no_reuse<T>(
    pre: &Registry<T>,
    post: &Registry<T>,
    gone: Handle,
    location: Location,
    value: T,
    h: Handle,
)
    requires
        pre.wf(),
        pre.issued(gone),
        !pre@.dom().contains(gone),
        Registry::created(pre, location, value, post, h),
    ensures
        h != gone,
        !post@.dom().contains(gone),
{
    pre.lemma_records();
}

/// Counting owners up or down brings no handle into the registry: a handle
/// that names no record names none afterwards, whichever handle was counted.
pub proof fn lemma_counts_add_nothing<T>(m: Map<Handle, Record<T>>, h: Handle, x: Handle)
    requires
        !m.dom().contains(x),
    ensures
        !counted_up(m, h).dom().contains(x),
        !counted_down(m, h).dom().contains(x),
{
}

} // verus!
