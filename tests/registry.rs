use webrtc_stream_server::registry::SessionRegistry;

#[test]
fn registered_sink_is_found_and_removed() {
    let mut reg: SessionRegistry<u32> = SessionRegistry::new();
    assert_eq!(reg.register("A".to_string(), 7), None);
    assert_eq!(reg.lookup("A"), Some(&7));
    assert_eq!(reg.len(), 1);
    assert_eq!(reg.remove("A"), Some(7));
    assert_eq!(reg.lookup("A"), None);
    assert_eq!(reg.len(), 0);
}

#[test]
fn second_registration_is_authoritative() {
    let mut reg: SessionRegistry<u32> = SessionRegistry::new();
    reg.register("A".to_string(), 1);
    assert_eq!(reg.register("A".to_string(), 2), Some(1));
    assert_eq!(reg.lookup("A"), Some(&2));
    assert_eq!(reg.len(), 1);
}

#[test]
fn removing_an_absent_id_changes_nothing() {
    let mut reg: SessionRegistry<u32> = SessionRegistry::new();
    reg.register("x".to_string(), 1);
    assert_eq!(reg.remove("y"), None);
    assert_eq!(reg.lookup("x"), Some(&1));
    assert_eq!(reg.len(), 1);
}

#[test]
fn ids_are_distinct_keys() {
    let mut reg: SessionRegistry<u32> = SessionRegistry::new();
    reg.register("x".to_string(), 1);
    reg.register("y".to_string(), 2);
    reg.register("".to_string(), 3);
    assert_eq!(reg.lookup("x"), Some(&1));
    assert_eq!(reg.lookup("y"), Some(&2));
    assert_eq!(reg.lookup(""), Some(&3));
    assert_eq!(reg.lookup("z"), None);
    assert_eq!(reg.remove("x"), Some(1));
    assert_eq!(reg.lookup("y"), Some(&2));
    assert_eq!(reg.len(), 2);
}
