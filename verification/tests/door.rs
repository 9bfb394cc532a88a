use rust_dsa::door::Door;
use rust_dsa::door::Openable;

#[test]
fn open_door() {
    let mut door = Door::new(false);
    door.open();
    assert!(door.is_open);
}

#[test]
fn new_door_keeps_the_given_state() {
    assert!(Door::new(true).is_open);
    assert!(!Door::new(false).is_open);
}
