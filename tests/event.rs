use acap_vapix::{KeyValueSet, VMDEvent};

#[test]
fn vmd_base_key_value_set() {
    let s = VMDEvent::get_base_key_value_set();
    assert_eq!(s.len(), 3);
    assert_eq!(s.get(0).key, "topic1");
    assert_eq!(s.get(0).namespace.as_deref(), Some("tnsaxis"));
    assert_eq!(s.get(0).value.as_deref(), Some("VMD"));
    assert_eq!(s.get(1).key, "topic2");
    assert_eq!(s.get(1).value.as_deref(), Some("Camera1ProfileANY"));
    assert_eq!(s.get(2).key, "active");
    assert_eq!(s.get(2).namespace, None);
    assert_eq!(s.get(2).value, None);
}

#[test]
fn vmd_event_keeps_its_key_value_set() {
    let mut s = KeyValueSet::new();
    s.add_key_value("active", None, Some("1"));
    let e = VMDEvent::new(s);
    assert_eq!(e.key_value_set().len(), 1);
    assert_eq!(e.key_value_set().get(0).value.as_deref(), Some("1"));
}
