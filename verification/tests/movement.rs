use tas_recording::key::{Key, Multiplier};
use tas_recording::movement::{resolve_axis, Axis, AxisOutcome, Sign, SpeedRequest, SpeedVariable};

fn request(variable: SpeedVariable, negated: bool, multiplier: Multiplier) -> Option<SpeedRequest> {
    Some(SpeedRequest { variable, negated, multiplier })
}

#[test]
fn speed_variables_have_their_console_names() {
    assert_eq!(SpeedVariable::Forward.name(), "cl_forwardspeed");
    assert_eq!(SpeedVariable::Back.name(), "cl_backspeed");
    assert_eq!(SpeedVariable::Side.name(), "cl_sidespeed");
}

#[test]
fn each_axis_names_the_variables_of_its_two_keys() {
    assert_eq!(Axis::Forward.variable(false), SpeedVariable::Forward);
    assert_eq!(Axis::Forward.variable(true), SpeedVariable::Back);
    assert_eq!(Axis::Side.variable(false), SpeedVariable::Side);
    assert_eq!(Axis::Side.variable(true), SpeedVariable::Side);
}

#[test]
fn an_axis_at_rest_gives_nothing() {
    let outcome = resolve_axis(Axis::Forward, Sign::Zero, false, false, Key::Released, Key::Released);
    assert_eq!(
        outcome,
        AxisOutcome {
            positive_held: false,
            negative_held: false,
            positive_key: Key::Released,
            negative_key: Key::Released,
            speed: None,
        }
    );
}

#[test]
fn an_axis_at_rest_still_sees_its_keys_go_up() {
    let outcome = resolve_axis(Axis::Side, Sign::Zero, false, false, Key::Held, Key::Held);
    assert_eq!(outcome.positive_key, Key::Lifted);
    assert_eq!(outcome.negative_key, Key::Lifted);
    assert_eq!(outcome.speed, None);
    assert!(!outcome.positive_held);
    assert!(!outcome.negative_held);
}

#[test]
fn the_positive_key_alone_sets_its_speed() {
    let outcome = resolve_axis(Axis::Forward, Sign::Positive, true, false, Key::Released, Key::Released);
    assert!(outcome.positive_held);
    assert!(!outcome.negative_held);
    assert_eq!(outcome.positive_key, Key::Pressed);
    assert_eq!(outcome.negative_key, Key::Released);
    assert_eq!(outcome.speed, request(SpeedVariable::Forward, false, Multiplier::Half));
}

#[test]
fn the_positive_key_held_before_has_the_full_multiplier() {
    let outcome = resolve_axis(Axis::Forward, Sign::Positive, true, false, Key::Held, Key::Released);
    assert_eq!(outcome.positive_key, Key::Held);
    assert_eq!(outcome.speed, request(SpeedVariable::Forward, false, Multiplier::Full));
}

#[test]
fn the_negative_key_alone_sets_its_speed_negated() {
    let outcome = resolve_axis(Axis::Forward, Sign::Negative, false, true, Key::Released, Key::Held);
    assert!(!outcome.positive_held);
    assert!(outcome.negative_held);
    assert_eq!(outcome.negative_key, Key::Held);
    assert_eq!(outcome.speed, request(SpeedVariable::Back, true, Multiplier::Full));

    let side = resolve_axis(Axis::Side, Sign::Negative, false, true, Key::Released, Key::Released);
    assert_eq!(side.negative_key, Key::Pressed);
    assert_eq!(side.speed, request(SpeedVariable::Side, true, Multiplier::Half));
}

#[test]
fn the_negative_key_alone_wins_whatever_the_sign() {
    for sign in [Sign::Zero, Sign::Positive, Sign::Negative] {
        let outcome = resolve_axis(Axis::Forward, sign, false, true, Key::Released, Key::Held);
        assert!(outcome.negative_held);
        assert!(!outcome.positive_held);
        assert_eq!(outcome.speed, request(SpeedVariable::Back, true, Multiplier::Full));
    }
}

#[test]
fn a_speed_without_a_key_holds_the_positive_key() {
    for sign in [Sign::Positive, Sign::Negative] {
        let outcome = resolve_axis(Axis::Side, sign, false, false, Key::Released, Key::Released);
        assert!(outcome.positive_held);
        assert!(!outcome.negative_held);
        assert_eq!(outcome.positive_key, Key::Pressed);
        assert_eq!(outcome.speed, request(SpeedVariable::Side, false, Multiplier::Half));
    }
}

#[test]
fn a_speed_that_brings_a_lifted_key_down_again_has_three_quarters() {
    let outcome = resolve_axis(Axis::Forward, Sign::Positive, false, false, Key::Held, Key::Released);
    assert!(outcome.positive_held);
    assert_eq!(outcome.positive_key, Key::Repressed);
    assert_eq!(outcome.speed, request(SpeedVariable::Forward, false, Multiplier::ThreeQuarters));
}

#[test]
fn both_keys_with_a_speed_above_zero_hold_the_positive_key() {
    let outcome = resolve_axis(Axis::Forward, Sign::Positive, true, true, Key::Held, Key::Held);
    assert!(outcome.positive_held);
    assert!(!outcome.negative_held);
    assert_eq!(outcome.positive_key, Key::Held);
    assert_eq!(outcome.negative_key, Key::Lifted);
    assert!(!outcome.negative_key.is_down());
    assert_eq!(outcome.speed, request(SpeedVariable::Forward, false, Multiplier::Full));
}

#[test]
fn both_keys_with_a_speed_not_above_zero_hold_the_negative_key() {
    for sign in [Sign::Zero, Sign::Negative] {
        let outcome = resolve_axis(Axis::Forward, sign, true, true, Key::Released, Key::Released);
        assert!(!outcome.positive_held);
        assert!(outcome.negative_held);
        assert_eq!(outcome.positive_key, Key::Lifted);
        assert_eq!(outcome.negative_key, Key::Pressed);
        assert_eq!(outcome.speed, request(SpeedVariable::Back, true, Multiplier::Half));
    }
}

#[test]
fn both_side_keys_set_the_side_speed_either_way() {
    let right = resolve_axis(Axis::Side, Sign::Positive, true, true, Key::Held, Key::Held);
    assert_eq!(right.speed, request(SpeedVariable::Side, false, Multiplier::Full));
    let left = resolve_axis(Axis::Side, Sign::Negative, true, true, Key::Held, Key::Held);
    assert_eq!(left.speed, request(SpeedVariable::Side, true, Multiplier::Full));
    assert_eq!(left.positive_key, Key::Lifted);
}

#[test]
fn an_entry_never_holds_both_keys_of_an_axis() {
    let keys = [Key::Released, Key::Held, Key::Pressed, Key::Lifted, Key::Repressed];
    for axis in [Axis::Forward, Axis::Side] {
        for sign in [Sign::Zero, Sign::Positive, Sign::Negative] {
            for positive_down in [false, true] {
                for negative_down in [false, true] {
                    for positive_key in keys {
                        for negative_key in keys {
                            let outcome = resolve_axis(
                                axis,
                                sign,
                                positive_down,
                                negative_down,
                                positive_key,
                                negative_key,
                            );
                            assert!(!(outcome.positive_held && outcome.negative_held));
                            assert_eq!(outcome.positive_key.is_down(), outcome.positive_held);
                            assert_eq!(outcome.negative_key.is_down(), outcome.negative_held);
                            assert_eq!(
                                outcome.speed.is_some(),
                                outcome.positive_held || outcome.negative_held
                            );
                        }
                    }
                }
            }
        }
    }
}
