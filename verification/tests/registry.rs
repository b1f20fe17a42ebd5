use kaphd::codec::decode;
use kaphd::message::Task;
use kaphd::registry::TaskRegistry;

fn task(payload: &str) -> Task {
    decode(payload.as_bytes()).expect("test payload must decode")
}

#[test]
fn delegation_hands_out_fresh_identifiers() {
    let mut registry = TaskRegistry::new();
    let a = registry.delegate(task("\"HealthCheck\""), String::from("node-a"));
    let b = registry.delegate(task("\"HealthCheck\""), String::from("node-a"));
    assert_ne!(a, b);
    assert_eq!(registry.outstanding(), 2);
}

#[test]
fn a_result_settles_its_handle() {
    let mut registry = TaskRegistry::new();
    let delegated = task("{\"Bpf\":{\"fn_name\":\"probe\"}}");
    let id = registry.delegate(delegated.clone(), String::from("node-a"));
    let handle = registry.complete(id).expect("the handle is outstanding");
    assert_eq!(handle.id, id);
    assert_eq!(handle.task, delegated);
    assert_eq!(handle.node_addr, "node-a");
    assert_eq!(registry.outstanding(), 0);
    assert!(registry.complete(id).is_none());
}

#[test]
fn an_unknown_identifier_settles_nothing() {
    let mut registry = TaskRegistry::new();
    registry.delegate(task("\"HealthCheck\""), String::from("node-a"));
    assert!(registry.complete(999).is_none());
    assert_eq!(registry.outstanding(), 1);
}

#[test]
fn a_node_disconnect_fails_every_handle_for_it() {
    let mut registry = TaskRegistry::new();
    let a1 = registry.delegate(task("\"HealthCheck\""), String::from("node-a"));
    let b1 = registry.delegate(task("\"HealthCheck\""), String::from("node-b"));
    let a2 = registry.delegate(
        task("{\"Workload\":{\"name\":\"w\",\"dataset\":\"d\"}}"),
        String::from("node-a"),
    );
    let failed = registry.node_disconnected(&String::from("node-a"));
    let mut failed_ids: Vec<u64> = failed.iter().map(|h| h.id).collect();
    failed_ids.sort();
    let mut expected = vec![a1, a2];
    expected.sort();
    assert_eq!(failed_ids, expected);
    assert!(failed.iter().all(|h| h.node_addr == "node-a"));
    // The other node's handle is untouched, never silently dropped.
    assert_eq!(registry.outstanding(), 1);
    assert!(registry.complete(b1).is_some());
}

#[test]
fn a_disconnect_of_an_unknown_node_changes_nothing() {
    let mut registry = TaskRegistry::new();
    registry.delegate(task("\"HealthCheck\""), String::from("node-a"));
    let failed = registry.node_disconnected(&String::from("node-z"));
    assert!(failed.is_empty());
    assert_eq!(registry.outstanding(), 1);
}
