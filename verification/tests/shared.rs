use multi_agent_engine::Shared;

#[test]
fn every_handle_observes_the_same_value() {
    let original = Shared::new(String::from("configuration"));
    let first = original.clone();
    let second = first.clone();
    assert_eq!(original.get(), "configuration");
    assert_eq!(first.get(), "configuration");
    assert_eq!(second.get(), "configuration");
}

#[test]
fn cloning_does_not_deep_copy_the_value() {
    let original = Shared::new(vec![1u8, 2, 3]);
    let handle = original.clone();
    assert_eq!(handle.get().as_ptr(), original.get().as_ptr());
}

#[test]
fn the_value_survives_dropping_the_first_handle() {
    let original = Shared::new(17u32);
    let survivor = original.clone();
    drop(original);
    assert_eq!(*survivor.get(), 17);
}
