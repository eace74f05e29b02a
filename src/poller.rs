//! Polling a kernel event buffer on a guest's behalf.
//!
//! Perf-event arrays and ring buffers differ inside the kernel, but a guest
//! sees one contract: poll with a timeout, receive at most one event in its
//! own memory, truncated to the size it asked for, and have its callback
//! invoked on it. The callback is either a named export of the guest or an
//! entry of its indirect function table.
//!
//! A perf-event array's keys and values are not resized here: a map is polled
//! only after its object was loaded, when its layout can no longer change, and
//! the kernel already fixes that layout for perf-event arrays when it creates
//! them.
use crate::memory::{range_in_memory, range_within, truncated_len, write_truncated, written};
use crate::registry::{ObjectRegistry, RegistryModel, INVALID_HANDLE};
use crate::{INVALID_ARGUMENT, NOT_FOUND};
use vstd::prelude::*;

verus! {

/// The kernel's number for a perf-event array.
pub const BPF_MAP_TYPE_PERF_EVENT_ARRAY: u32 = 4;

/// The kernel's number for a ring buffer.
pub const BPF_MAP_TYPE_RINGBUF: u32 = 27;

/// What a poll call returns where the guest's callback could not be invoked
/// (no such export or table entry, a wrong signature, or a trap): a failure
/// like any other host-side one, never success.
pub const CALLBACK_FAILED: i32 = -1;

/// The two kernel event buffers a poller can sit on.
#[derive(Clone, Copy, Debug, PartialEq, Eq, Structural)]
pub enum BufferKind {
    PerfEvent,
    RingBuf,
}

/// How the guest's callback is reached: through its indirect function
/// table, or, once the guest has gone through the poll wrapper, as the
/// export of this name.
#[derive(Clone, Debug)]
pub enum PollWrapper {
    Disabled,
    Enabled { callback_function_name: String },
}

/// What the guest exports under the configured callback name.
#[derive(Clone, Copy, Debug, PartialEq, Eq, Structural)]
pub enum ExportKind {
    Missing,
    NotFunction,
    Function,
}

/// A map of a kernel object, as far as polling needs it.
#[derive(Clone, Copy, Debug, PartialEq, Eq, Structural)]
pub struct MapSummary {
    pub fd: i32,
    pub map_type: u32,
}

/// What a poll call does once its arguments were checked.
#[derive(Clone, Copy, Debug, PartialEq, Eq, Structural)]
pub enum PollStart {
    /// Poll with the object's poller.
    Reuse,
    /// Create the object's poller, of this kind, then poll with it.
    Create(BufferKind),
}

/// Where the guest's callback is.
#[derive(Clone, Debug, PartialEq, Eq)]
pub enum CallbackTarget {
    Export(String),
    Table(u32),
}

/// A call of the guest's callback with its fixed arguments: the guest's
/// context, where the event was written, and how many bytes it has.
#[derive(Clone, Debug, PartialEq, Eq)]
pub struct CallbackCall {
    pub target: CallbackTarget,
    pub ctx: u32,
    pub data: u32,
    pub size: u32,
}

/// The buffer that a map of kernel type `map_type` is polled through.
pub open spec fn kind_of(map_type: u32) -> Option<BufferKind> {
    if map_type == BPF_MAP_TYPE_PERF_EVENT_ARRAY {
        Some(BufferKind::PerfEvent)
    } else if map_type == BPF_MAP_TYPE_RINGBUF {
        Some(BufferKind::RingBuf)
    } else {
        None
    }
}

/// `i` is the first map of `maps` with descriptor `fd`.
pub open spec fn first_with_fd(maps: Seq<MapSummary>, fd: i32, i: int) -> bool {
    &&& 0 <= i < maps.len()
    &&& maps[i].fd == fd
    &&& forall|j: int| 0 <= j < i ==> #[trigger] maps[j].fd != fd
}

/// Whether some map of `maps` has descriptor `fd`.
pub open spec fn has_fd(maps: Seq<MapSummary>, fd: i32) -> bool {
    exists|i: int| 0 <= i < maps.len() && #[trigger] maps[i].fd == fd
}

/// The outcome of the checks that open a poll call, in their order: the
/// guest's data buffer must fit its memory, the handle must be live, the
/// object must hold a map with descriptor `fd`; then an existing poller is
/// reused, and a new one is made for a perf-event array or a ring buffer.
pub open spec fn poll_start<O, P, A>(
    reg: RegistryModel<O, P, A>,
    mem_len: int,
    handle: u64,
    maps: Seq<MapSummary>,
    fd: i32,
    data: u32,
    max_size: i32,
) -> Result<PollStart, i32> {
    if max_size < 0 || !range_within(mem_len, data as int, max_size as int) {
        Err(INVALID_ARGUMENT)
    } else if !reg.objects.contains_key(handle) {
        Err(INVALID_HANDLE)
    } else if !has_fd(maps, fd) {
        Err(NOT_FOUND)
    } else if reg.objects[handle].poller is Some {
        Ok(PollStart::Reuse)
    } else {
        let i = choose|i: int| first_with_fd(maps, fd, i);
        match kind_of(maps[i].map_type) {
            Some(k) => Ok(PollStart::Create(k)),
            None => Err(INVALID_ARGUMENT),
        }
    }
}

/// The callback that a poll call invokes, given the dispatch mode and the
/// table index that the guest passed.
pub open spec fn target_of(dispatch: PollWrapper, cb_index: u32) -> CallbackTarget {
    match dispatch {
        PollWrapper::Enabled { callback_function_name } => CallbackTarget::Export(callback_function_name),
        PollWrapper::Disabled => CallbackTarget::Table(cb_index),
    }
}

/// The buffer that a map of kernel type `map_type` is polled through, if any.
pub fn buffer_kind(map_type: u32) -> (r: Option<BufferKind>)
    ensures
        r == kind_of(map_type),
{
    if map_type == BPF_MAP_TYPE_PERF_EVENT_ARRAY {
        Some(BufferKind::PerfEvent)
    } else if map_type == BPF_MAP_TYPE_RINGBUF {
        Some(BufferKind::RingBuf)
    } else {
        None
    }
}

/// The position of the first map with descriptor `fd`.
pub fn find_map(maps: &[MapSummary], fd: i32) -> (r: Option<usize>)
    ensures
        match r {
            Some(i) => first_with_fd(maps@, fd, i as int),
            None => !has_fd(maps@, fd),
        },
{
    let mut i: usize = 0;
    while i < maps.len()
        invariant
            i <= maps@.len(),
            forall|j: int| 0 <= j < i ==> #[trigger] maps@[j].fd != fd,
        decreases maps.len() - i,
    {
        if maps[i].fd == fd {
            return Some(i);
        }
        i = i + 1;
    }
    None
}

/// The first map with descriptor `fd` is unique.
pub proof fn lemma_first_with_fd_unique(maps: Seq<MapSummary>, fd: i32, i: int, k: int)
    requires
        first_with_fd(maps, fd, i),
        first_with_fd(maps, fd, k),
    ensures
        i == k,
{
    if i < k {
        assert(maps[i].fd != fd);
    } else if k < i {
        assert(maps[k].fd != fd);
    }
}

/// Opens a poll call on the object of `handle`, whose maps are `maps`:
/// checks the guest's data buffer, the handle and the descriptor, and says
/// whether the object's poller is reused or must be created.
pub fn begin_poll<O, P, A>(
    reg: &ObjectRegistry<O, P, A>,
    mem_len: usize,
    handle: u64,
    maps: &[MapSummary],
    fd: i32,
    data: u32,
    max_size: i32,
) -> (r: Result<PollStart, i32>)
    ensures
        r == poll_start(reg@, mem_len as int, handle, maps@, fd, data, max_size),
{
    if max_size < 0 || !range_in_memory(mem_len, data, max_size as usize) {
        return Err(INVALID_ARGUMENT);
    }
    if !reg.contains(handle) {
        return Err(INVALID_HANDLE);
    }
    let i = match find_map(maps, fd) {
        None => return Err(NOT_FOUND),
        Some(i) => i,
    };
    if reg.has_poller(handle) {
        return Ok(PollStart::Reuse);
    }
    proof {
        let c = choose|c: int| first_with_fd(maps@, fd, c);
        lemma_first_with_fd_unique(maps@, fd, i as int, c);
    }
    match buffer_kind(maps[i].map_type) {
        Some(k) => Ok(PollStart::Create(k)),
        None => Err(INVALID_ARGUMENT),
    }
}

/// The single slot in which a kernel buffer's callback leaves the event that
/// a poll call then hands to the guest.
pub struct EventSlot {
    event: Option<Vec<u8>>,
}

impl View for EventSlot {
    type V = Option<Seq<u8>>;

    closed spec fn view(&self) -> Option<Seq<u8>> {
        match self.event {
            Some(v) => Some(v@),
            None => None,
        }
    }
}

impl EventSlot {
    /// An empty slot.
    pub fn new() -> (r: Self)
        ensures
            r@ is None,
    {
        EventSlot { event: None }
    }

    /// Empties the slot, before a poll, of any event that nobody read.
    pub fn clear(&mut self)
        ensures
            final(self)@ is None,
    {
        self.event = None;
    }

    /// Keeps a copy of `data`, in place of any event already there.
    pub fn store(&mut self, data: &[u8])
        ensures
            final(self)@ == Some(data@),
    {
        self.event = Some(vstd::slice::slice_to_vec(data));
    }

    /// Hands out the event, if any, and leaves the slot empty.
    pub fn take(&mut self) -> (r: Option<Vec<u8>>)
        ensures
            final(self)@ is None,
            match r {
                Some(v) => old(self)@ == Some(v@),
                None => old(self)@ is None,
            },
    {
        self.event.take()
    }
}

/// Hands an event to the guest: writes its first `max_size` bytes at `data`
/// in guest memory, and says which callback to invoke on them. Where no
/// event came, nothing is written and there is nothing to invoke. Where
/// `max_size` is negative or the bytes do not fit the memory, nothing is
/// written and `INVALID_ARGUMENT` comes back.
pub fn deliver_event(
    mem: &mut [u8],
    event: Option<Vec<u8>>,
    data: u32,
    max_size: i32,
    dispatch: &PollWrapper,
    cb_index: u32,
    ctx: u32,
) -> (r: Result<Option<CallbackCall>, i32>)
    ensures
        match event {
            None => r == Ok::<Option<CallbackCall>, i32>(None) && final(mem)@ == old(mem)@,
            Some(ev) => {
                let n = truncated_len(ev@.len() as int, max_size as int);
                if max_size >= 0 && range_within(old(mem)@.len() as int, data as int, n) {
                    &&& final(mem)@ == written(old(mem)@, data as int, ev@.subrange(0, n))
                    &&& r == Ok::<Option<CallbackCall>, i32>(
                        Some(
                            CallbackCall {
                                target: target_of(*dispatch, cb_index),
                                ctx,
                                data,
                                size: n as u32,
                            },
                        ),
                    )
                } else {
                    &&& final(mem)@ == old(mem)@
                    &&& r == Err::<Option<CallbackCall>, i32>(INVALID_ARGUMENT)
                }
            },
        },
{
    let ev = match event {
        None => return Ok(None),
        Some(ev) => ev,
    };
    if max_size < 0 {
        return Err(INVALID_ARGUMENT);
    }
    match write_truncated(mem, data, ev.as_slice(), max_size as usize) {
        None => Err(INVALID_ARGUMENT),
        Some(n) => {
            let target = match dispatch {
                PollWrapper::Enabled { callback_function_name } => CallbackTarget::Export(
                    callback_function_name.clone(),
                ),
                PollWrapper::Disabled => CallbackTarget::Table(cb_index),
            };
            Ok(Some(CallbackCall { target, ctx, data, size: n as u32 }))
        },
    }
}

/// The result of a poll call from the callback's outcome: the status the
/// guest returned, or `CALLBACK_FAILED` where the call itself failed.
pub fn callback_status(outcome: Option<i32>) -> (r: i32)
    ensures
        r == match outcome {
            Some(s) => s,
            None => CALLBACK_FAILED,
        },
{
    match outcome {
        Some(s) => s,
        None => CALLBACK_FAILED,
    }
}

/// Switches polling to the named export `callback_function_name`, as the
/// poll wrapper does, where the guest exports a function of that name.
/// Otherwise the dispatch stays as it was and `INVALID_ARGUMENT` comes back.
pub fn enable_wrapper(dispatch: &mut PollWrapper, callback_function_name: String, export: ExportKind) -> (r:
    Result<(), i32>)
    ensures
        export == ExportKind::Function ==> (r == Ok::<(), i32>(()) && *final(dispatch)
            == (PollWrapper::Enabled { callback_function_name })),
        export != ExportKind::Function ==> (r == Err::<(), i32>(INVALID_ARGUMENT)
            && *final(dispatch) == *old(dispatch)),
{
    match export {
        ExportKind::Function => {
            *dispatch = PollWrapper::Enabled { callback_function_name };
            Ok(())
        },
        _ => Err(INVALID_ARGUMENT),
    }
}

} // verus!
