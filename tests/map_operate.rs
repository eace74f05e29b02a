use wasm_bpf_rs::map_ops::{
    map_command, prepare_map_access, MapAccess, MapCommand, MapSizes, BPF_MAP_DELETE_ELEM,
    BPF_MAP_GET_NEXT_KEY, BPF_MAP_LOOKUP_ELEM, BPF_MAP_UPDATE_ELEM, MAP_INFO_FAILED,
};
use wasm_bpf_rs::{EINVAL, INVALID_ARGUMENT};

const SIZES: MapSizes = MapSizes { key_size: 4, value_size: 8 };

#[test]
fn known_commands_are_decoded() {
    assert_eq!(map_command(BPF_MAP_LOOKUP_ELEM), Ok(MapCommand::LookupElem));
    assert_eq!(map_command(BPF_MAP_UPDATE_ELEM), Ok(MapCommand::UpdateElem));
    assert_eq!(map_command(BPF_MAP_DELETE_ELEM), Ok(MapCommand::DeleteElem));
    assert_eq!(map_command(BPF_MAP_GET_NEXT_KEY), Ok(MapCommand::GetNextKey));
    assert_eq!(map_command(1), Ok(MapCommand::LookupElem));
    assert_eq!(map_command(4), Ok(MapCommand::GetNextKey));
}

#[test]
fn unknown_command_is_refused_with_einval() {
    assert_eq!(map_command(0), Err(-EINVAL));
    assert_eq!(map_command(5), Err(-22));
    assert_eq!(map_command(-1), Err(INVALID_ARGUMENT));
    assert_eq!(map_command(i32::MAX), Err(-22));
}

#[test]
fn lookup_checks_key_and_value_against_kernel_sizes() {
    let r = prepare_map_access(64, 3, MapCommand::LookupElem, Some(SIZES), 0, 16, 40, 0);
    assert_eq!(
        r,
        Ok(MapAccess {
            fd: 3,
            command: MapCommand::LookupElem,
            key: 0,
            key_size: 4,
            second: Some(16),
            second_size: 8,
            flags: 0,
        })
    );
}

#[test]
fn undersized_value_buffer_is_refused() {
    // the value would need 8 bytes at 60, but the memory ends at 64
    let r = prepare_map_access(64, 3, MapCommand::UpdateElem, Some(SIZES), 0, 60, 0, 0);
    assert_eq!(r, Err(-22));
}

#[test]
fn undersized_key_buffer_is_refused() {
    let r = prepare_map_access(64, 3, MapCommand::DeleteElem, Some(SIZES), 62, 0, 0, 0);
    assert_eq!(r, Err(-22));
}

#[test]
fn next_key_buffer_is_sized_by_the_key() {
    let ok = prepare_map_access(64, 5, MapCommand::GetNextKey, Some(SIZES), 0, 63, 60, 2);
    assert_eq!(ok.map(|a| (a.second, a.second_size)), Ok((Some(60), 4)));
    let bad = prepare_map_access(64, 5, MapCommand::GetNextKey, Some(SIZES), 0, 0, 61, 2);
    assert_eq!(bad, Err(-22));
}

#[test]
fn delete_has_no_second_buffer() {
    let r = prepare_map_access(8, 5, MapCommand::DeleteElem, Some(SIZES), 4, 1000, 1000, 1);
    assert_eq!(r.map(|a| a.second), Ok(None));
}

#[test]
fn undescribed_map_is_refused() {
    let r = prepare_map_access(64, 9, MapCommand::LookupElem, None, 0, 0, 0, 0);
    assert_eq!(r, Err(MAP_INFO_FAILED));
    assert_eq!(MAP_INFO_FAILED, -1);
}
