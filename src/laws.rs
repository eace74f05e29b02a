//! Properties that relate several operations of the library.
use crate::control::{
    deadline_outcome, pause_model, resume_model, terminate_model, ControlAction, ControlError,
    ControlState, ExecError, HandleModel, ProgramOperation,
};
use crate::map_ops::{access_outcome, MapCommand, MapSizes};
use crate::memory::range_within;
use crate::poller::{first_with_fd, has_fd, kind_of, poll_start, MapSummary, PollStart};
use crate::registry::{EntryModel, RegistryModel, CLOSE_OK, FIRST_OBJECT_ID, INVALID_HANDLE, LOAD_FAILED};
use crate::{INVALID_ARGUMENT, NOT_FOUND};
use vstd::prelude::*;

verus! {

/// Loading an object and closing its handle at once gives back the registry's
/// entries as they were; from an empty registry, nothing is left, so every
/// link and file that the object held was released.
pub proof fn load_then_close_releases_all<O, P, A>(reg: RegistryModel<O, P, A>, object: O)
    requires
        reg.wf(),
    ensures
        ({
            let (loaded, h) = reg.register(object);
            let (closed, status) = loaded.close(h);
            &&& closed.objects == reg.objects
            &&& h != LOAD_FAILED ==> status == CLOSE_OK
            &&& reg.objects.is_empty() ==> closed.objects.is_empty()
        }),
{
    let (loaded, h) = reg.register(object);
    let (closed, status) = loaded.close(h);
    if h != LOAD_FAILED {
        assert(!reg.objects.contains_key(h));
        assert(closed.objects =~= reg.objects);
    } else {
        assert(!reg.objects.contains_key(LOAD_FAILED));
    }
}

/// A handle that was handed out and is no longer live.
pub open spec fn retired<O, P, A>(reg: RegistryModel<O, P, A>, handle: u64) -> bool {
    FIRST_OBJECT_ID <= handle < reg.next_id && !reg.objects.contains_key(handle)
}

/// Closing a handle succeeds at most once. A successful close retires the
/// handle; every operation that changes the registry (a load, a close, a
/// poller installed, an attachment recorded on a live handle) keeps it
/// retired, and no load hands it out again; so after any sequence of calls,
/// closing it again reports an invalid handle and changes nothing.
pub proof fn close_succeeds_once<O, P, A>(
    reg: RegistryModel<O, P, A>,
    handle: u64,
    object: O,
    other: u64,
    poller: P,
    entry: EntryModel<O, P, A>,
)
    requires
        reg.wf(),
    ensures
        reg.objects.contains_key(handle) ==> reg.close(handle).1 == CLOSE_OK && retired(
            reg.close(handle).0,
            handle,
        ),
        !reg.objects.contains_key(handle) ==> reg.close(handle).1 == INVALID_HANDLE,
        retired(reg, handle) ==> reg.close(handle) == (reg, INVALID_HANDLE),
        retired(reg, handle) ==> retired(reg.register(object).0, handle) && reg.register(object).1
            != handle,
        retired(reg, handle) ==> retired(reg.close(other).0, handle),
        retired(reg, handle) ==> retired(reg.installed(other, poller), handle),
        retired(reg, handle) && reg.objects.contains_key(other) ==> retired(
            reg.with_entry(other, entry),
            handle,
        ),
{
    if reg.objects.contains_key(handle) {
        assert(handle < reg.next_id);
    }
}

/// The sizes of a map operation's buffers are the kernel's: a guest buffer
/// that is too short for the map's key, or for its value, is refused with
/// `-EINVAL`, and an accepted operation carries the kernel's sizes.
pub proof fn map_buffers_sized_by_kernel(
    mem_len: int,
    fd: i32,
    command: MapCommand,
    sizes: MapSizes,
    key: u32,
    value: u32,
    next_key: u32,
    flags: u64,
)
    ensures
        !range_within(mem_len, key as int, sizes.key_size as int) ==> access_outcome(
            mem_len,
            fd,
            command,
            Some(sizes),
            key,
            value,
            next_key,
            flags,
        ) == Err::<crate::map_ops::MapAccess, i32>(INVALID_ARGUMENT),
        (command == MapCommand::LookupElem || command == MapCommand::UpdateElem) && !range_within(
            mem_len,
            value as int,
            sizes.value_size as int,
        ) ==> access_outcome(mem_len, fd, command, Some(sizes), key, value, next_key, flags)
            == Err::<crate::map_ops::MapAccess, i32>(INVALID_ARGUMENT),
        command == MapCommand::GetNextKey && !range_within(mem_len, next_key as int, sizes.key_size as int)
            ==> access_outcome(mem_len, fd, command, Some(sizes), key, value, next_key, flags)
            == Err::<crate::map_ops::MapAccess, i32>(INVALID_ARGUMENT),
        access_outcome(mem_len, fd, command, Some(sizes), key, value, next_key, flags) matches Ok(a)
            ==> a.key_size == sizes.key_size && (a.second_size == sizes.value_size || a.second_size
            == sizes.key_size || a.second is None),
{
}

/// A poll on a descriptor that the object does not hold reports `-ENOENT`
/// and asks for no poller; a poll on a perf-event array or a ring buffer
/// asks for one, and once it is installed every later poll reuses it, and a
/// second one is never installed.
pub proof fn poller_made_once<O, P, A>(
    reg: RegistryModel<O, P, A>,
    mem_len: int,
    handle: u64,
    maps: Seq<MapSummary>,
    fd: i32,
    data: u32,
    max_size: i32,
    poller: P,
    other: P,
)
    requires
        reg.wf(),
        0 <= max_size,
        range_within(mem_len, data as int, max_size as int),
        reg.objects.contains_key(handle),
    ensures
        !has_fd(maps, fd) ==> poll_start(reg, mem_len, handle, maps, fd, data, max_size) == Err::<
            PollStart,
            i32,
        >(NOT_FOUND),
        has_fd(maps, fd) && reg.objects[handle].poller is None ==> {
            let made = reg.installed(handle, poller);
            &&& poll_start(made, mem_len, handle, maps, fd, data, max_size) == Ok::<PollStart, i32>(
                PollStart::Reuse,
            )
            &&& made.installed(handle, other) == made
            &&& made.objects[handle].poller == Some(poller)
        },
        forall|i: int|
            first_with_fd(maps, fd, i) && reg.objects[handle].poller is None && kind_of(
                #[trigger] maps[i].map_type,
            ) is Some ==> poll_start(reg, mem_len, handle, maps, fd, data, max_size) == Ok::<
                PollStart,
                i32,
            >(PollStart::Create(kind_of(maps[i].map_type).unwrap())),
{
    assert forall|i: int|
        first_with_fd(maps, fd, i) && reg.objects[handle].poller is None && kind_of(
            #[trigger] maps[i].map_type,
        ) is Some implies poll_start(reg, mem_len, handle, maps, fd, data, max_size) == Ok::<
        PollStart,
        i32,
    >(PollStart::Create(kind_of(maps[i].map_type).unwrap())) by {
        assert(has_fd(maps, fd));
        let c = choose|c: int| first_with_fd(maps, fd, c);
        crate::poller::lemma_first_with_fd_unique(maps, fd, i, c);
    }
}

/// Pausing a running program and resuming it at once leaves it running, and
/// the controller did exactly two things: it raised the epoch once and sent
/// one `Resume`, on which the waiting guest goes on for another epoch.
pub proof fn pause_then_resume(m: HandleModel)
    requires
        m.state == ControlState::Running,
    ensures
        ({
            let (paused, r1) = pause_model(m);
            let (resumed, r2) = resume_model(paused, true);
            &&& r1 == Ok::<(), ControlError>(())
            &&& r2 == Ok::<(), ControlError>(())
            &&& resumed.state == ControlState::Running
            &&& resumed.actions == m.actions + seq![
                ControlAction::IncrementEpoch,
                ControlAction::Send(ProgramOperation::Resume, true),
            ]
        }),
        deadline_outcome(Some(ProgramOperation::Resume)) == Ok::<u64, ExecError>(1),
{
    let (paused, r1) = pause_model(m);
    let (resumed, r2) = resume_model(paused, true);
    assert(resumed.actions =~= m.actions + seq![
        ControlAction::IncrementEpoch,
        ControlAction::Send(ProgramOperation::Resume, true),
    ]);
}

/// Terminating a running or a paused program raises the epoch, so that a
/// running guest traps, and then sends `Terminate`; a guest that receives it
/// stops with `ExecError::Terminated`, and one whose channel closed stops
/// too, so it never waits for good.
pub proof fn terminate_stops_guest(m: HandleModel, sent: bool)
    requires
        m.state == ControlState::Running || m.state == ControlState::Paused,
    ensures
        ({
            let (t, _) = terminate_model(m, sent);
            &&& t.state == ControlState::Terminated
            &&& t.actions == m.actions + seq![
                ControlAction::IncrementEpoch,
                ControlAction::Send(ProgramOperation::Terminate, sent),
            ]
        }),
        deadline_outcome(Some(ProgramOperation::Terminate)) == Err::<u64, ExecError>(ExecError::Terminated),
        deadline_outcome(None) is Err,
{
    let (t, _) = terminate_model(m, sent);
    assert(t.actions =~= m.actions + seq![
        ControlAction::IncrementEpoch,
        ControlAction::Send(ProgramOperation::Terminate, sent),
    ]);
}

/// A second `pause` while paused, and a `resume` while running, are refused
/// with a state violation and change nothing: no action is taken.
pub proof fn out_of_order_control_refused(m: HandleModel, sent: bool)
    ensures
        m.state == ControlState::Running ==> pause_model(pause_model(m).0) == (
            pause_model(m).0,
            Err::<(), ControlError>(ControlError::AlreadyPaused),
        ),
        m.state == ControlState::Paused ==> pause_model(m) == (m, Err::<(), ControlError>(
            ControlError::AlreadyPaused,
        )),
        m.state == ControlState::Running ==> resume_model(m, sent) == (m, Err::<(), ControlError>(
            ControlError::AlreadyRunning,
        )),
{
}

} // verus!
