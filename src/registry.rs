//! The registry of loaded kernel objects.
//!
//! A guest never holds a native reference to a kernel object: it holds an
//! integer handle, which the registry maps to the object together with the
//! buffer poller and the attachments that belong to it. Dropping an entry
//! releases all of them.
use std::collections::HashMap;
use vstd::prelude::*;

verus! {

broadcast use vstd::std_specs::hash::group_hash_axioms;

/// The handle that the first loaded object receives.
pub const FIRST_OBJECT_ID: u64 = 1;

/// The handle that reports a failed load to the guest.
pub const LOAD_FAILED: u64 = 0;

/// What `close` returns for a handle that was closed.
pub const CLOSE_OK: i32 = 0;

/// What `close` returns for a handle that names no object.
pub const INVALID_HANDLE: i32 = -1;

/// A loaded kernel object, its buffer poller once one was created, and the
/// attachments (links, opened files) that live as long as it does. Fields
/// drop in order, so the poller and the attachments go before the object.
pub struct KernelObject<O, P, A> {
    pub poller: Option<P>,
    pub attachments: Vec<A>,
    pub object: O,
}

/// The model of a registry entry.
pub struct EntryModel<O, P, A> {
    pub object: O,
    pub poller: Option<P>,
    pub attachments: Seq<A>,
}

impl<O, P, A> View for KernelObject<O, P, A> {
    type V = EntryModel<O, P, A>;

    open spec fn view(&self) -> EntryModel<O, P, A> {
        EntryModel { object: self.object, poller: self.poller, attachments: self.attachments@ }
    }
}

/// The model of a registry: the next handle to hand out and the live entries.
pub struct RegistryModel<O, P, A> {
    pub next_id: u64,
    pub objects: Map<u64, EntryModel<O, P, A>>,
}

impl<O, P, A> RegistryModel<O, P, A> {
    /// The registry before any load.
    pub open spec fn initial() -> Self {
        RegistryModel { next_id: FIRST_OBJECT_ID, objects: Map::empty() }
    }

    /// Handles start at one, and every live handle was handed out before the
    /// next one, so no handle is handed out twice.
    pub open spec fn wf(self) -> bool {
        &&& self.next_id >= FIRST_OBJECT_ID
        &&& forall|h: u64| #[trigger]
            self.objects.contains_key(h) ==> FIRST_OBJECT_ID <= h < self.next_id
    }

    /// A freshly loaded object: no poller, no attachments.
    pub open spec fn fresh(object: O) -> EntryModel<O, P, A> {
        EntryModel { object, poller: None, attachments: Seq::empty() }
    }

    /// Registering a loaded object: it receives the next handle, unless the
    /// handles are used up, in which case the load fails.
    pub open spec fn register(self, object: O) -> (Self, u64) {
        if self.next_id == u64::MAX {
            (self, LOAD_FAILED)
        } else {
            (
                RegistryModel {
                    next_id: (self.next_id + 1) as u64,
                    objects: self.objects.insert(self.next_id, Self::fresh(object)),
                },
                self.next_id,
            )
        }
    }

    /// Closing a handle: the entry goes, with all it owns; an unknown handle
    /// changes nothing.
    pub open spec fn close(self, handle: u64) -> (Self, i32) {
        if self.objects.contains_key(handle) {
            (RegistryModel { next_id: self.next_id, objects: self.objects.remove(handle) }, CLOSE_OK)
        } else {
            (self, INVALID_HANDLE)
        }
    }

    /// Giving the object of `handle` a poller: only an object without one
    /// takes it; otherwise nothing changes.
    pub open spec fn installed(self, handle: u64, poller: P) -> Self {
        if self.objects.contains_key(handle) && self.objects[handle].poller is None {
            self.with_entry(handle, EntryModel { poller: Some(poller), ..self.objects[handle] })
        } else {
            self
        }
    }

    /// Replacing the entry of a live handle.
    pub open spec fn with_entry(self, handle: u64, e: EntryModel<O, P, A>) -> Self {
        RegistryModel { next_id: self.next_id, objects: self.objects.insert(handle, e) }
    }
}

/// Maps handles to loaded kernel objects.
pub struct ObjectRegistry<O, P, A> {
    next_object_id: u64,
    object_map: HashMap<u64, KernelObject<O, P, A>>,
}

impl<O, P, A> View for ObjectRegistry<O, P, A> {
    type V = RegistryModel<O, P, A>;

    closed spec fn view(&self) -> RegistryModel<O, P, A> {
        RegistryModel {
            next_id: self.next_object_id,
            objects: self.object_map@.map_values(|e: KernelObject<O, P, A>| e@),
        }
    }
}

impl<O, P, A> ObjectRegistry<O, P, A> {
    /// An empty registry.
    pub fn new() -> (r: Self)
        ensures
            r@ == RegistryModel::<O, P, A>::initial(),
            r@.wf(),
    {
        let r = ObjectRegistry { next_object_id: FIRST_OBJECT_ID, object_map: HashMap::new() };
        assert(r@.objects =~= Map::empty());
        r
    }

    /// Takes ownership of a loaded object and returns its handle, or
    /// `LOAD_FAILED` where no handle is left.
    pub fn register(&mut self, object: O) -> (h: u64)
        requires
            old(self)@.wf(),
        ensures
            (final(self)@, h) == old(self)@.register(object),
            final(self)@.wf(),
    {
        let ghost before = self@;
        if self.next_object_id == u64::MAX {
            return LOAD_FAILED;
        }
        let id = self.next_object_id;
        let entry = KernelObject { object, poller: None, attachments: Vec::new() };
        assert(entry@ == RegistryModel::<O, P, A>::fresh(object));
        self.object_map.insert(id, entry);
        self.next_object_id = id + 1;
        assert(self@.objects =~= before.objects.insert(id, RegistryModel::<O, P, A>::fresh(object)));
        id
    }

    /// Removes and drops the object of `handle`, with its poller and its
    /// attachments. Returns `CLOSE_OK`, or `INVALID_HANDLE` (changing nothing)
    /// where the handle names no object.
    pub fn close(&mut self, handle: u64) -> (r: i32)
        requires
            old(self)@.wf(),
        ensures
            (final(self)@, r) == old(self)@.close(handle),
            final(self)@.wf(),
    {
        let ghost before = self@;
        match self.object_map.remove(&handle) {
            Some(_) => {
                assert(self@.objects =~= before.objects.remove(handle));
                CLOSE_OK
            },
            None => {
                assert(self@.objects =~= before.objects);
                INVALID_HANDLE
            },
        }
    }

    /// Whether `handle` names a live object.
    pub fn contains(&self, handle: u64) -> (r: bool)
        ensures
            r == self@.objects.contains_key(handle),
    {
        self.object_map.contains_key(&handle)
    }

    /// The entry of `handle`, if it is live.
    pub fn get(&self, handle: u64) -> (r: Option<&KernelObject<O, P, A>>)
        ensures
            match r {
                Some(e) => self@.objects.contains_key(handle) && e@ == self@.objects[handle],
                None => !self@.objects.contains_key(handle),
            },
    {
        self.object_map.get(&handle)
    }

    /// Whether the object of `handle` already has a buffer poller.
    pub fn has_poller(&self, handle: u64) -> (r: bool)
        ensures
            r == (self@.objects.contains_key(handle) && self@.objects[handle].poller is Some),
    {
        match self.object_map.get(&handle) {
            Some(e) => e.poller.is_some(),
            None => false,
        }
    }

    /// Gives the object of `handle` its buffer poller. A poller that is
    /// already there stays, and the new one is dropped: an object never has
    /// more than one. Returns whether the handle is live.
    pub fn install_poller(&mut self, handle: u64, poller: P) -> (r: bool)
        requires
            old(self)@.wf(),
        ensures
            r == old(self)@.objects.contains_key(handle),
            final(self)@.wf(),
            final(self)@ == old(self)@.installed(handle, poller),
    {
        let ghost before = self@;
        match self.object_map.remove(&handle) {
            Some(mut e) => {
                let ghost old_e = e@;
                if e.poller.is_none() {
                    e.poller = Some(poller);
                }
                let ghost new_e = e@;
                self.object_map.insert(handle, e);
                assert(self@.objects =~= before.objects.insert(handle, new_e));
                proof {
                    if old_e.poller is Some {
                        assert(before.objects.insert(handle, new_e) =~= before.objects);
                    }
                }
                true
            },
            None => {
                assert(self@.objects =~= before.objects);
                false
            },
        }
    }

    /// Keeps `attachment` with the object of `handle`, so that it is released
    /// when the object is closed. Returns whether the handle is live; where it
    /// is not, the attachment is dropped at once.
    pub fn record_attachment(&mut self, handle: u64, attachment: A) -> (r: bool)
        requires
            old(self)@.wf(),
        ensures
            r == old(self)@.objects.contains_key(handle),
            final(self)@.wf(),
            r ==> final(self)@ == old(self)@.with_entry(
                handle,
                EntryModel {
                    attachments: old(self)@.objects[handle].attachments.push(attachment),
                    ..old(self)@.objects[handle]
                },
            ),
            !r ==> final(self)@ == old(self)@,
    {
        let ghost before = self@;
        match self.object_map.remove(&handle) {
            Some(mut e) => {
                e.attachments.push(attachment);
                let ghost new_e = e@;
                self.object_map.insert(handle, e);
                assert(self@.objects =~= before.objects.insert(handle, new_e));
                true
            },
            None => {
                assert(self@.objects =~= before.objects);
                false
            },
        }
    }
}

} // verus!
