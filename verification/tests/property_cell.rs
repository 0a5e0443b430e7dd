use groupbox::Property;

#[test]
fn fresh_cell_is_clean_and_holds_its_value() {
    let p: Property<i32> = Property::new(7);
    assert!(!p.is_dirty());
    assert_eq!(*p.get(), 7);
}

#[test]
fn set_stores_and_cleans() {
    let mut p: Property<i32> = Property::new(0);
    p.mark_dirty();
    assert!(p.is_dirty());
    p.set(41);
    assert!(!p.is_dirty());
    assert_eq!(*p.get(), 41);
}

#[test]
fn mark_dirty_keeps_the_stored_value() {
    let mut p: Property<String> = Property::new(String::from("abc"));
    p.mark_dirty();
    assert!(p.is_dirty());
    p.set(String::from("abc"));
    assert_eq!(p.get().as_str(), "abc");
}
