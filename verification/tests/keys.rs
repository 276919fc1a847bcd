use tas_recording::key::{Key, Keys, Multiplier};

const ALL: [Key; 5] = [Key::Released, Key::Held, Key::Pressed, Key::Lifted, Key::Repressed];

#[test]
fn a_fresh_key_is_released() {
    let key = Key::default();
    assert_eq!(key, Key::Released);
    assert!(!key.is_down());
    assert_eq!(key.multiplier(), Multiplier::Full);
}

#[test]
fn down_sets_the_key_and_its_impulse() {
    let expected = [Key::Pressed, Key::Pressed, Key::Pressed, Key::Repressed, Key::Repressed];
    for (key, after) in ALL.iter().zip(expected.iter()) {
        let mut key = *key;
        key.down();
        assert_eq!(key, *after);
        assert!(key.is_down());
    }
}

#[test]
fn up_leaves_only_the_impulse_of_going_up() {
    for key in ALL.iter() {
        let mut key = *key;
        key.up();
        assert_eq!(key, Key::Lifted);
        assert!(!key.is_down());
    }
}

#[test]
fn is_down_tells_the_three_states_that_are_down() {
    assert!(!Key::Released.is_down());
    assert!(Key::Held.is_down());
    assert!(Key::Pressed.is_down());
    assert!(!Key::Lifted.is_down());
    assert!(Key::Repressed.is_down());
}

#[test]
fn update_without_a_change_does_nothing() {
    for key in ALL.iter() {
        let mut same = *key;
        same.update(key.is_down());
        assert_eq!(same, *key);
    }
}

#[test]
fn update_with_a_change_presses_or_releases() {
    let mut key = Key::Released;
    key.update(true);
    assert_eq!(key, Key::Pressed);
    key.update(false);
    assert_eq!(key, Key::Lifted);
    key.update(true);
    assert_eq!(key, Key::Repressed);
    key.update(false);
    assert_eq!(key, Key::Lifted);

    let mut held = Key::Held;
    held.update(false);
    assert_eq!(held, Key::Lifted);
}

#[test]
fn clear_impulses_keeps_only_whether_the_key_is_down() {
    let expected = [Key::Released, Key::Held, Key::Held, Key::Released, Key::Held];
    for (key, after) in ALL.iter().zip(expected.iter()) {
        let mut key = *key;
        key.clear_impulses();
        assert_eq!(key, *after);
    }
}

#[test]
fn multiplier_of_each_state() {
    assert_eq!(Key::Released.multiplier(), Multiplier::Full);
    assert_eq!(Key::Held.multiplier(), Multiplier::Full);
    assert_eq!(Key::Pressed.multiplier(), Multiplier::Half);
    assert_eq!(Key::Lifted.multiplier(), Multiplier::Full);
    assert_eq!(Key::Repressed.multiplier(), Multiplier::ThreeQuarters);
}

#[test]
fn multiplier_in_quarters() {
    assert_eq!(Multiplier::Full.quarters(), 4);
    assert_eq!(Multiplier::Half.quarters(), 2);
    assert_eq!(Multiplier::ThreeQuarters.quarters(), 3);
    assert_eq!(f64::from(Multiplier::Full.quarters()) / 4.0, 1.0);
    assert_eq!(f64::from(Multiplier::Half.quarters()) / 4.0, 0.5);
    assert_eq!(f64::from(Multiplier::ThreeQuarters.quarters()) / 4.0, 0.75);
}

#[test]
fn a_key_held_across_two_commands_is_full_in_both() {
    let mut key = Key::Held;
    key.update(true);
    assert_eq!(key.multiplier(), Multiplier::Full);
    key.clear_impulses();
    key.update(true);
    assert_eq!(key.multiplier(), Multiplier::Full);
    key.clear_impulses();
    assert_eq!(key, Key::Held);
}

#[test]
fn a_key_that_goes_down_is_half() {
    let mut key = Key::Released;
    key.update(true);
    assert_eq!(key.multiplier(), Multiplier::Half);
    key.update(false);
    assert!(!key.is_down());
    assert_eq!(key.multiplier(), Multiplier::Full);
    key.clear_impulses();
    assert_eq!(key, Key::Released);
}

#[test]
fn a_key_that_goes_down_up_and_down_is_three_quarters() {
    for key in ALL.iter() {
        let mut key = *key;
        key.update(true);
        key.update(false);
        key.update(true);
        assert_eq!(key.multiplier(), Multiplier::ThreeQuarters);
    }
    let mut held = Key::Held;
    held.update(false);
    held.update(true);
    assert_eq!(held.multiplier(), Multiplier::ThreeQuarters);
}

#[test]
fn fresh_keys_are_all_released() {
    let keys = Keys::default();
    assert_eq!(keys.forward, Key::Released);
    assert_eq!(keys.back, Key::Released);
    assert_eq!(keys.left, Key::Released);
    assert_eq!(keys.right, Key::Released);
}

#[test]
fn clearing_all_keys_keeps_what_is_down() {
    let mut keys = Keys::default();
    keys.forward.update(true);
    keys.left.update(true);
    keys.left.update(false);
    keys.right = Key::Repressed;
    keys.clear_impulses();
    assert_eq!(keys.forward, Key::Held);
    assert_eq!(keys.back, Key::Released);
    assert_eq!(keys.left, Key::Released);
    assert_eq!(keys.right, Key::Held);
}
