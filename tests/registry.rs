use wasm_bpf_rs::registry::{ObjectRegistry, CLOSE_OK, FIRST_OBJECT_ID, INVALID_HANDLE};

type Registry = ObjectRegistry<&'static str, u32, String>;

#[test]
fn load_then_close_leaves_registry_empty() {
    let mut reg = Registry::new();
    let h = reg.register("object");
    assert_eq!(h, FIRST_OBJECT_ID);
    assert!(reg.contains(h));
    assert_eq!(reg.close(h), CLOSE_OK);
    assert!(!reg.contains(h));
    assert!(reg.get(h).is_none());
}

#[test]
fn close_succeeds_exactly_once() {
    let mut reg = Registry::new();
    let h = reg.register("object");
    assert_eq!(reg.close(h), 0);
    assert_eq!(reg.close(h), -1);
    assert_eq!(reg.close(h), INVALID_HANDLE);
}

#[test]
fn close_of_unknown_handle_is_refused() {
    let mut reg = Registry::new();
    assert_eq!(reg.close(0), -1);
    assert_eq!(reg.close(42), -1);
    let h = reg.register("kept");
    assert_eq!(reg.close(h + 1), -1);
    assert!(reg.contains(h));
}

#[test]
fn handles_are_assigned_in_order_and_never_reused() {
    let mut reg = Registry::new();
    let a = reg.register("a");
    let b = reg.register("b");
    assert_eq!((a, b), (1, 2));
    assert_eq!(reg.close(a), 0);
    let c = reg.register("c");
    assert_eq!(c, 3);
    assert_eq!(reg.get(b).map(|e| e.object), Some("b"));
    assert_eq!(reg.get(c).map(|e| e.object), Some("c"));
}

#[test]
fn poller_is_installed_once() {
    let mut reg = Registry::new();
    let h = reg.register("object");
    assert!(!reg.has_poller(h));
    assert!(reg.install_poller(h, 7));
    assert!(reg.has_poller(h));
    assert!(reg.install_poller(h, 8));
    assert_eq!(reg.get(h).and_then(|e| e.poller), Some(7));
    assert!(!reg.install_poller(h + 1, 9));
}

#[test]
fn attachments_stay_with_their_object() {
    let mut reg = Registry::new();
    let h = reg.register("object");
    assert!(reg.record_attachment(h, String::from("link")));
    assert!(reg.record_attachment(h, String::from("file")));
    assert!(!reg.record_attachment(h + 1, String::from("lost")));
    let kept: Vec<String> = reg.get(h).map(|e| e.attachments.clone()).unwrap();
    assert_eq!(kept, vec![String::from("link"), String::from("file")]);
    assert_eq!(reg.close(h), 0);
    assert!(reg.get(h).is_none());
}
