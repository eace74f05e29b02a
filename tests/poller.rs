use wasm_bpf_rs::poller::{
    begin_poll, buffer_kind, callback_status, deliver_event, enable_wrapper, find_map, BufferKind,
    CallbackCall, CallbackTarget, EventSlot, ExportKind, MapSummary, PollStart, PollWrapper,
    BPF_MAP_TYPE_PERF_EVENT_ARRAY, BPF_MAP_TYPE_RINGBUF,
};
use wasm_bpf_rs::registry::ObjectRegistry;
use wasm_bpf_rs::{EINVAL, ENOENT};

type Registry = ObjectRegistry<&'static str, &'static str, ()>;

fn maps() -> Vec<MapSummary> {
    vec![
        MapSummary { fd: 10, map_type: 1 },
        MapSummary { fd: 11, map_type: BPF_MAP_TYPE_PERF_EVENT_ARRAY },
        MapSummary { fd: 12, map_type: BPF_MAP_TYPE_RINGBUF },
    ]
}

#[test]
fn buffer_kinds() {
    assert_eq!(buffer_kind(4), Some(BufferKind::PerfEvent));
    assert_eq!(buffer_kind(27), Some(BufferKind::RingBuf));
    assert_eq!(buffer_kind(1), None);
}

#[test]
fn first_map_with_fd_is_found() {
    let mut m = maps();
    m.push(MapSummary { fd: 11, map_type: 1 });
    assert_eq!(find_map(&m, 11), Some(1));
    assert_eq!(find_map(&m, 99), None);
    assert_eq!(find_map(&[], 1), None);
}

#[test]
fn poll_on_unknown_fd_is_not_found_and_makes_no_poller() {
    let mut reg = Registry::new();
    let h = reg.register("object");
    assert_eq!(begin_poll(&reg, 64, h, &maps(), 99, 0, 16), Err(-ENOENT));
    assert!(!reg.has_poller(h));
}

#[test]
fn poll_creates_one_poller_then_reuses_it() {
    let mut reg = Registry::new();
    let h = reg.register("object");
    assert_eq!(
        begin_poll(&reg, 64, h, &maps(), 12, 0, 16),
        Ok(PollStart::Create(BufferKind::RingBuf))
    );
    assert!(reg.install_poller(h, "ring"));
    assert_eq!(begin_poll(&reg, 64, h, &maps(), 12, 0, 16), Ok(PollStart::Reuse));
    assert_eq!(begin_poll(&reg, 64, h, &maps(), 11, 0, 16), Ok(PollStart::Reuse));
    assert!(reg.install_poller(h, "another"));
    assert_eq!(reg.get(h).and_then(|e| e.poller), Some("ring"));
}

#[test]
fn poll_on_perf_array_creates_perf_buffer() {
    let mut reg = Registry::new();
    let h = reg.register("object");
    assert_eq!(
        begin_poll(&reg, 64, h, &maps(), 11, 0, 16),
        Ok(PollStart::Create(BufferKind::PerfEvent))
    );
}

#[test]
fn poll_on_other_map_type_is_refused() {
    let mut reg = Registry::new();
    let h = reg.register("object");
    assert_eq!(begin_poll(&reg, 64, h, &maps(), 10, 0, 16), Err(-EINVAL));
    assert!(!reg.has_poller(h));
}

#[test]
fn poll_checks_buffer_then_handle() {
    let mut reg = Registry::new();
    let h = reg.register("object");
    assert_eq!(begin_poll(&reg, 64, h, &maps(), 12, 60, 16), Err(-22));
    assert_eq!(begin_poll(&reg, 64, h, &maps(), 12, 0, -1), Err(-22));
    assert_eq!(begin_poll(&reg, 64, h + 1, &maps(), 12, 0, 16), Err(-1));
    assert_eq!(begin_poll(&reg, 64, h + 1, &maps(), 12, 60, 16), Err(-22));
}

#[test]
fn event_slot_holds_one_event() {
    let mut slot = EventSlot::new();
    assert_eq!(slot.take(), None);
    slot.store(&[1, 2]);
    slot.store(&[3]);
    assert_eq!(slot.take(), Some(vec![3]));
    assert_eq!(slot.take(), None);
    slot.store(&[4]);
    slot.clear();
    assert_eq!(slot.take(), None);
}

#[test]
fn no_event_means_no_callback() {
    let mut mem = vec![0u8; 8];
    let r = deliver_event(&mut mem, None, 0, 8, &PollWrapper::Disabled, 3, 7);
    assert_eq!(r, Ok(None));
    assert_eq!(mem, vec![0u8; 8]);
}

#[test]
fn event_is_truncated_and_dispatched_through_the_table() {
    let mut mem = vec![0u8; 8];
    let r = deliver_event(&mut mem, Some(vec![1, 2, 3, 4, 5]), 2, 3, &PollWrapper::Disabled, 3, 7);
    assert_eq!(
        r,
        Ok(Some(CallbackCall { target: CallbackTarget::Table(3), ctx: 7, data: 2, size: 3 }))
    );
    assert_eq!(mem, vec![0, 0, 1, 2, 3, 0, 0, 0]);
}

#[test]
fn event_is_dispatched_to_the_named_export() {
    let mut mem = vec![0u8; 4];
    let dispatch = PollWrapper::Enabled { callback_function_name: String::from("go-callback") };
    let r = deliver_event(&mut mem, Some(vec![9, 9]), 0, 4, &dispatch, 0, 1);
    assert_eq!(
        r,
        Ok(Some(CallbackCall {
            target: CallbackTarget::Export(String::from("go-callback")),
            ctx: 1,
            data: 0,
            size: 2,
        }))
    );
    assert_eq!(mem, vec![9, 9, 0, 0]);
}

#[test]
fn event_that_does_not_fit_is_refused() {
    let mut mem = vec![0u8; 4];
    let r = deliver_event(&mut mem, Some(vec![1, 2, 3]), 2, 3, &PollWrapper::Disabled, 0, 0);
    assert_eq!(r, Err(-EINVAL));
    assert_eq!(mem, vec![0u8; 4]);
}

#[test]
fn callback_outcome_becomes_poll_status() {
    assert_eq!(callback_status(Some(5)), 5);
    assert_eq!(callback_status(Some(0)), 0);
    assert_eq!(callback_status(None), -1);
}

#[test]
fn wrapper_needs_a_function_export() {
    let mut d = PollWrapper::Disabled;
    assert_eq!(enable_wrapper(&mut d, String::from("cb"), ExportKind::Missing), Err(-22));
    assert!(matches!(d, PollWrapper::Disabled));
    assert_eq!(enable_wrapper(&mut d, String::from("cb"), ExportKind::NotFunction), Err(-22));
    assert!(matches!(d, PollWrapper::Disabled));
    assert_eq!(enable_wrapper(&mut d, String::from("cb"), ExportKind::Function), Ok(()));
    match d {
        PollWrapper::Enabled { callback_function_name } => assert_eq!(callback_function_name, "cb"),
        PollWrapper::Disabled => panic!("dispatch was not switched"),
    }
}

#[test]
fn negative_max_size_is_refused() {
    let mut mem = vec![0u8; 4];
    let r = deliver_event(&mut mem, Some(vec![1]), 0, -1, &PollWrapper::Disabled, 0, 0);
    assert_eq!(r, Err(-EINVAL));
    assert_eq!(mem, vec![0u8; 4]);
}
