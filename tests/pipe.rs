use std::io::Write;
use wasm_bpf_rs::pipe::ReadableWritePipe;

#[test]
fn clones_share_one_buffer() {
    let pipe = ReadableWritePipe::new_vec_buf();
    let writer = pipe.clone();
    writer.borrow().unwrap().write_all(b"tick\ntick\n").unwrap();
    let guard = pipe.get_read_lock().unwrap();
    assert_eq!(guard.get_ref().as_slice(), b"tick\ntick\n");
    assert_eq!(guard.get_ref().iter().filter(|b| **b == b'\n').count(), 2);
}

#[test]
fn pipe_around_a_vec() {
    let pipe = ReadableWritePipe::new(Vec::<u8>::new());
    pipe.borrow().unwrap().extend_from_slice(&[1, 2, 3]);
    assert_eq!(*pipe.get_read_lock().unwrap(), vec![1, 2, 3]);
}

#[test]
fn busy_lock_is_not_waited_for() {
    let pipe = ReadableWritePipe::new(Vec::<u8>::new());
    let held = pipe.borrow().unwrap();
    assert!(pipe.borrow().is_none());
    assert!(pipe.get_read_lock().is_none());
    drop(held);
    let reading = pipe.get_read_lock().unwrap();
    assert!(pipe.get_read_lock().is_some());
    assert!(pipe.borrow().is_none());
    drop(reading);
    assert!(pipe.borrow().is_some());
}
