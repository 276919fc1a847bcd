//! How the keys of one axis and the speed along it become what a script
//! entry can say: one key held, and a command that sets the speed.

use vstd::prelude::*;
use crate::key::{Key, Multiplier};

verus! {

/// The sign of the speed along an axis. What is neither zero nor above zero
/// counts as negative.
#[derive(Clone, Copy, Debug, PartialEq, Eq, Structural)]
pub enum Sign {
    Zero,
    Positive,
    Negative,
}

/// A console variable that holds a speed.
#[derive(Clone, Copy, Debug, PartialEq, Eq, Structural)]
pub enum SpeedVariable {
    Forward,
    Back,
    Side,
}

impl SpeedVariable {
    /// The name of the variable.
    pub open spec fn spec_name(self) -> Seq<char> {
        match self {
            SpeedVariable::Forward => "cl_forwardspeed"@,
            SpeedVariable::Back => "cl_backspeed"@,
            SpeedVariable::Side => "cl_sidespeed"@,
        }
    }

    /// The name of the variable.
    pub fn name(self) -> (name: &'static str)
        ensures
            name@ == self.spec_name(),
    {
        match self {
            SpeedVariable::Forward => "cl_forwardspeed",
            SpeedVariable::Back => "cl_backspeed",
            SpeedVariable::Side => "cl_sidespeed",
        }
    }
}

/// An axis of movement. Each has a key for its positive direction and one
/// for its negative direction: forward and back, right and left.
#[derive(Clone, Copy, Debug, PartialEq, Eq, Structural)]
pub enum Axis {
    Forward,
    Side,
}

impl Axis {
    /// The variable that sets the speed of the key of a direction.
    pub open spec fn spec_variable(self, negative: bool) -> SpeedVariable {
        match self {
            Axis::Forward => if negative {
                SpeedVariable::Back
            } else {
                SpeedVariable::Forward
            },
            Axis::Side => SpeedVariable::Side,
        }
    }

    /// The variable that sets the speed of the key of a direction.
    pub fn variable(self, negative: bool) -> (variable: SpeedVariable)
        ensures
            variable == self.spec_variable(negative),
    {
        match self {
            Axis::Forward => if negative {
                SpeedVariable::Back
            } else {
                SpeedVariable::Forward
            },
            Axis::Side => SpeedVariable::Side,
        }
    }
}

/// The speed that an entry has to set: the variable, and how its value comes
/// from the speed along the axis. The value is that speed, with its sign
/// turned if `negated`, divided by the multiplier.
#[derive(Clone, Copy, Debug, PartialEq, Eq, Structural)]
pub struct SpeedRequest {
    pub variable: SpeedVariable,
    pub negated: bool,
    pub multiplier: Multiplier,
}

/// What one axis gives to a script entry.
#[derive(Clone, Copy, Debug, PartialEq, Eq, Structural)]
pub struct AxisOutcome {
    /// Whether the entry holds the key of the positive direction.
    pub positive_held: bool,
    /// Whether the entry holds the key of the negative direction.
    pub negative_held: bool,
    /// The automaton of the positive key afterwards.
    pub positive_key: Key,
    /// The automaton of the negative key afterwards.
    pub negative_key: Key,
    /// The speed that the entry sets, if any.
    pub speed: Option<SpeedRequest>,
}

/// Whether an axis is at rest: no speed along it and neither key down.
pub open spec fn at_rest(sign: Sign, positive_down: bool, negative_down: bool) -> bool {
    sign is Zero && !positive_down && !negative_down
}

/// Whether the positive key is the one that an entry holds, for an axis that
/// is not at rest. With both keys down the sign of the speed decides; else
/// it is the negative key only if that one alone is down.
pub open spec fn positive_wins(sign: Sign, positive_down: bool, negative_down: bool) -> bool {
    if positive_down && negative_down {
        sign is Positive
    } else {
        !negative_down
    }
}

/// What an axis gives to a script entry.
///
/// Each automaton first learns whether its button is down. At rest that is
/// all. Else one key wins: the entry holds it and no other, its automaton
/// learns that it is down and the other's that it is up, and the entry sets
/// the speed of the winning key, scaled by that key's multiplier.
pub open spec fn spec_resolve_axis(
    axis: Axis,
    sign: Sign,
    positive_down: bool,
    negative_down: bool,
    positive_key: Key,
    negative_key: Key,
) -> AxisOutcome {
    let moving = !at_rest(sign, positive_down, negative_down);
    let positive_held = moving && positive_wins(sign, positive_down, negative_down);
    let negative_held = moving && !positive_wins(sign, positive_down, negative_down);
    let positive_key = positive_key.spec_update(positive_down).spec_update(positive_held);
    let negative_key = negative_key.spec_update(negative_down).spec_update(negative_held);
    AxisOutcome {
        positive_held,
        negative_held,
        positive_key,
        negative_key,
        speed: if positive_held {
            Some(
                SpeedRequest {
                    variable: axis.spec_variable(false),
                    negated: false,
                    multiplier: positive_key.spec_multiplier(),
                },
            )
        } else if negative_held {
            Some(
                SpeedRequest {
                    variable: axis.spec_variable(true),
                    negated: true,
                    multiplier: negative_key.spec_multiplier(),
                },
            )
        } else {
            None
        },
    }
}

/// An entry never holds both keys of an axis, and it sets a speed exactly
/// when it holds one of them: the speed of the key that it holds. The
/// automaton of the key that it holds is down, the other one is up.
pub proof fn lemma_one_key_per_axis(
    axis: Axis,
    sign: Sign,
    positive_down: bool,
    negative_down: bool,
    positive_key: Key,
    negative_key: Key,
)
    ensures
        ({
            let outcome = spec_resolve_axis(
                axis,
                sign,
                positive_down,
                negative_down,
                positive_key,
                negative_key,
            );
            &&& !(outcome.positive_held && outcome.negative_held)
            &&& outcome.positive_key.spec_is_down() == outcome.positive_held
            &&& outcome.negative_key.spec_is_down() == outcome.negative_held
            &&& outcome.speed is Some <==> outcome.positive_held || outcome.negative_held
            &&& outcome.speed is None <==> at_rest(sign, positive_down, negative_down)
            &&& outcome.positive_held ==> outcome.speed == Some(
                SpeedRequest {
                    variable: axis.spec_variable(false),
                    negated: false,
                    multiplier: outcome.positive_key.spec_multiplier(),
                },
            )
            &&& outcome.negative_held ==> outcome.speed == Some(
                SpeedRequest {
                    variable: axis.spec_variable(true),
                    negated: true,
                    multiplier: outcome.negative_key.spec_multiplier(),
                },
            )
        }),
{
}

/// With both keys of an axis down and a speed above zero, the positive key
/// wins: the entry holds it and not the negative key, the automaton of the
/// negative key goes up, and the speed that is set is that of the positive
/// key, not negated, with the multiplier of the positive key as the button
/// left it.
pub proof fn lemma_opposite_keys_positive(axis: Axis, positive_key: Key, negative_key: Key)
    ensures
        ({
            let outcome = spec_resolve_axis(
                axis,
                Sign::Positive,
                true,
                true,
                positive_key,
                negative_key,
            );
            &&& outcome.positive_held
            &&& !outcome.negative_held
            &&& outcome.positive_key == positive_key.spec_update(true)
            &&& outcome.negative_key == Key::Lifted
            &&& outcome.negative_key.spec_clear_impulses() == Key::Released
            &&& outcome.speed == Some(
                SpeedRequest {
                    variable: axis.spec_variable(false),
                    negated: false,
                    multiplier: positive_key.spec_update(true).spec_multiplier(),
                },
            )
        }),
{
}

/// With both keys of an axis down and a speed that is not above zero, the
/// negative key wins in the same way, and the speed that is set is negated.
pub proof fn lemma_opposite_keys_negative(axis: Axis, sign: Sign, positive_key: Key, negative_key: Key)
    requires
        !(sign is Positive),
    ensures
        ({
            let outcome = spec_resolve_axis(axis, sign, true, true, positive_key, negative_key);
            &&& !outcome.positive_held
            &&& outcome.negative_held
            &&& outcome.positive_key == Key::Lifted
            &&& outcome.negative_key == negative_key.spec_update(true)
            &&& outcome.speed == Some(
                SpeedRequest {
                    variable: axis.spec_variable(true),
                    negated: true,
                    multiplier: negative_key.spec_update(true).spec_multiplier(),
                },
            )
        }),
{
}

/// The multiplier of the speed that an entry sets, for automatons that hold
/// no impulse when the command starts. A key that was down before and whose
/// button is down still has the full multiplier. A key that was up before
/// has half. A key that was down before, whose button is up, and that the
/// speed alone brings down again has three quarters.
pub proof fn lemma_multiplier(
    axis: Axis,
    sign: Sign,
    positive_down: bool,
    negative_down: bool,
    positive_key: Key,
    negative_key: Key,
)
    requires
        positive_key == positive_key.spec_clear_impulses(),
        negative_key == negative_key.spec_clear_impulses(),
    ensures
        ({
            let outcome = spec_resolve_axis(
                axis,
                sign,
                positive_down,
                negative_down,
                positive_key,
                negative_key,
            );
            &&& outcome.positive_held ==> outcome.speed->0.multiplier == if !positive_key.spec_is_down() {
                Multiplier::Half
            } else if positive_down {
                Multiplier::Full
            } else {
                Multiplier::ThreeQuarters
            }
            &&& outcome.negative_held ==> negative_down && outcome.speed->0.multiplier
                == if negative_key.spec_is_down() {
                Multiplier::Full
            } else {
                Multiplier::Half
            }
        }),
{
}

/// Works out what an axis gives to a script entry, from the sign of the speed
/// along it, its two buttons and its two automatons.
pub fn resolve_axis(
    axis: Axis,
    sign: Sign,
    positive_down: bool,
    negative_down: bool,
    positive_key: Key,
    negative_key: Key,
) -> (outcome: AxisOutcome)
    ensures
        outcome == spec_resolve_axis(
            axis,
            sign,
            positive_down,
            negative_down,
            positive_key,
            negative_key,
        ),
{
    let mut positive_key = positive_key;
    let mut negative_key = negative_key;
    positive_key.update(positive_down);
    negative_key.update(negative_down);
    let mut positive_held = positive_down;
    let mut negative_held = negative_down;
    let mut speed: Option<SpeedRequest> = None;

    let moving = match sign {
        Sign::Zero => positive_held || negative_held,
        _ => true,
    };
    if moving {
        if positive_held && negative_held {
            match sign {
                Sign::Positive => {
                    negative_held = false;
                    negative_key.update(false);
                    speed = Some(
                        SpeedRequest {
                            variable: axis.variable(false),
                            negated: false,
                            multiplier: positive_key.multiplier(),
                        },
                    );
                },
                _ => {
                    positive_held = false;
                    positive_key.update(false);
                    speed = Some(
                        SpeedRequest {
                            variable: axis.variable(true),
                            negated: true,
                            multiplier: negative_key.multiplier(),
                        },
                    );
                },
            }
        } else if negative_held {
            speed = Some(
                SpeedRequest {
                    variable: axis.variable(true),
                    negated: true,
                    multiplier: negative_key.multiplier(),
                },
            );
        } else {
            positive_held = true;
            positive_key.update(true);
            speed = Some(
                SpeedRequest {
                    variable: axis.variable(false),
                    negated: false,
                    multiplier: positive_key.multiplier(),
                },
            );
        }
    }
    AxisOutcome { positive_held, negative_held, positive_key, negative_key, speed }
}

} // verus!
