//! Map operations that a guest asks for.
//!
//! The sizes of a map's keys and values are never taken from the guest: they
//! come from the kernel's own description of the map, and both guest buffers
//! are checked against them before the kernel may touch guest memory.
use crate::memory::{range_in_memory, range_within};
use crate::{WasmPointer, INVALID_ARGUMENT};
use vstd::prelude::*;

verus! {

/// The kernel's number for a lookup.
pub const BPF_MAP_LOOKUP_ELEM: i32 = 1;

/// The kernel's number for an update.
pub const BPF_MAP_UPDATE_ELEM: i32 = 2;

/// The kernel's number for a deletion.
pub const BPF_MAP_DELETE_ELEM: i32 = 3;

/// The kernel's number for a step of key iteration.
pub const BPF_MAP_GET_NEXT_KEY: i32 = 4;

/// What `map_operate` returns where the kernel could not describe the map.
pub const MAP_INFO_FAILED: i32 = -1;

/// The map commands a guest may issue.
#[derive(Clone, Copy, Debug, PartialEq, Eq, Structural)]
pub enum MapCommand {
    LookupElem,
    UpdateElem,
    DeleteElem,
    GetNextKey,
}

/// The sizes of a map's keys and values, as the kernel reports them.
#[derive(Clone, Copy, Debug, PartialEq, Eq, Structural)]
pub struct MapSizes {
    pub key_size: u32,
    pub value_size: u32,
}

/// A map syscall whose guest buffers were checked. `second` is the offset of
/// the value buffer (lookup, update) or of the next-key buffer (key
/// iteration); a deletion has none.
#[derive(Clone, Copy, Debug, PartialEq, Eq, Structural)]
pub struct MapAccess {
    pub fd: i32,
    pub command: MapCommand,
    pub key: u32,
    pub key_size: u32,
    pub second: Option<u32>,
    pub second_size: u32,
    pub flags: u64,
}

/// The command that a guest's number stands for.
pub open spec fn command_of(cmd: i32) -> Option<MapCommand> {
    if cmd == BPF_MAP_LOOKUP_ELEM {
        Some(MapCommand::LookupElem)
    } else if cmd == BPF_MAP_UPDATE_ELEM {
        Some(MapCommand::UpdateElem)
    } else if cmd == BPF_MAP_DELETE_ELEM {
        Some(MapCommand::DeleteElem)
    } else if cmd == BPF_MAP_GET_NEXT_KEY {
        Some(MapCommand::GetNextKey)
    } else {
        None
    }
}

/// The second buffer of a command and its size: the value for a lookup or an
/// update, the next key for key iteration, none for a deletion.
pub open spec fn second_buffer(command: MapCommand, sizes: MapSizes, value: u32, next_key: u32) -> (
    Option<u32>,
    u32,
) {
    match command {
        MapCommand::LookupElem | MapCommand::UpdateElem => (Some(value), sizes.value_size),
        MapCommand::GetNextKey => (Some(next_key), sizes.key_size),
        MapCommand::DeleteElem => (None, 0),
    }
}

/// Both buffers of a command fit a guest memory of `mem_len` bytes.
pub open spec fn buffers_fit(
    mem_len: int,
    command: MapCommand,
    sizes: MapSizes,
    key: u32,
    value: u32,
    next_key: u32,
) -> bool {
    let (second, second_size) = second_buffer(command, sizes, value, next_key);
    &&& range_within(mem_len, key as int, sizes.key_size as int)
    &&& second matches Some(off) ==> range_within(mem_len, off as int, second_size as int)
}

/// The outcome of preparing a map operation.
pub open spec fn access_outcome(
    mem_len: int,
    fd: i32,
    command: MapCommand,
    sizes: Option<MapSizes>,
    key: u32,
    value: u32,
    next_key: u32,
    flags: u64,
) -> Result<MapAccess, i32> {
    match sizes {
        None => Err(MAP_INFO_FAILED),
        Some(s) => if buffers_fit(mem_len, command, s, key, value, next_key) {
            let (second, second_size) = second_buffer(command, s, value, next_key);
            Ok(
                MapAccess {
                    fd,
                    command,
                    key,
                    key_size: s.key_size,
                    second,
                    second_size,
                    flags,
                },
            )
        } else {
            Err(INVALID_ARGUMENT)
        },
    }
}

/// Decodes the guest's command number. An unknown number is refused with
/// `INVALID_ARGUMENT` before anything is asked of the kernel.
pub fn map_command(cmd: i32) -> (r: Result<MapCommand, i32>)
    ensures
        match command_of(cmd) {
            Some(c) => r == Ok::<MapCommand, i32>(c),
            None => r == Err::<MapCommand, i32>(INVALID_ARGUMENT),
        },
{
    if cmd == BPF_MAP_LOOKUP_ELEM {
        Ok(MapCommand::LookupElem)
    } else if cmd == BPF_MAP_UPDATE_ELEM {
        Ok(MapCommand::UpdateElem)
    } else if cmd == BPF_MAP_DELETE_ELEM {
        Ok(MapCommand::DeleteElem)
    } else if cmd == BPF_MAP_GET_NEXT_KEY {
        Ok(MapCommand::GetNextKey)
    } else {
        Err(INVALID_ARGUMENT)
    }
}

/// Prepares the syscall for `command` on the map `fd`, given the sizes that
/// the kernel reported for it (`None` where it could not describe the map).
/// Both guest buffers are checked against those sizes; the syscall may be
/// made only with what comes back.
pub fn prepare_map_access(
    mem_len: usize,
    fd: i32,
    command: MapCommand,
    sizes: Option<MapSizes>,
    key: WasmPointer,
    value: WasmPointer,
    next_key: WasmPointer,
    flags: u64,
) -> (r: Result<MapAccess, i32>)
    ensures
        r == access_outcome(mem_len as int, fd, command, sizes, key, value, next_key, flags),
{
    let s = match sizes {
        None => return Err(MAP_INFO_FAILED),
        Some(s) => s,
    };
    if !range_in_memory(mem_len, key, s.key_size as usize) {
        return Err(INVALID_ARGUMENT);
    }
    let (second, second_size) = match command {
        MapCommand::LookupElem | MapCommand::UpdateElem => (Some(value), s.value_size),
        MapCommand::GetNextKey => (Some(next_key), s.key_size),
        MapCommand::DeleteElem => (None, 0u32),
    };
    if let Some(off) = second {
        if !range_in_memory(mem_len, off, second_size as usize) {
            return Err(INVALID_ARGUMENT);
        }
    }
    Ok(MapAccess { fd, command, key, key_size: s.key_size, second, second_size, flags })
}

} // verus!
