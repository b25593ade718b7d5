use vstd::prelude::*;

verus! {

/// The player's intents for one frame.
#[derive(Clone, Copy, Debug, PartialEq, Eq, Structural)]
pub struct Controls {
    pub turn_left: bool,
    pub turn_right: bool,
    pub accelerate: bool,
    pub decelerate: bool,
    pub launch_down: bool,
}

/// Forward or reverse thrust along the ship's heading.
#[derive(Clone, Copy, Debug, PartialEq, Eq, Structural)]
pub enum Thrust {
    Idle,
    Forward,
    Reverse,
}

/// Turning direction: left is counter-clockwise.
#[derive(Clone, Copy, Debug, PartialEq, Eq, Structural)]
pub enum Turn {
    Straight,
    Left,
    Right,
}

/// Deceleration is read after acceleration and so wins when both are held.
pub open spec fn thrust_spec(accelerate: bool, decelerate: bool) -> Thrust {
    if decelerate {
        Thrust::Reverse
    } else if accelerate {
        Thrust::Forward
    } else {
        Thrust::Idle
    }
}

/// A right turn is read after a left turn and so wins when both are held.
pub open spec fn turn_spec(turn_left: bool, turn_right: bool) -> Turn {
    if turn_right {
        Turn::Right
    } else if turn_left {
        Turn::Left
    } else {
        Turn::Straight
    }
}

pub open spec fn thrust_sign_spec(t: Thrust) -> int {
    match t {
        Thrust::Idle => 0,
        Thrust::Forward => 1,
        Thrust::Reverse => -1,
    }
}

pub open spec fn turn_sign_spec(t: Turn) -> int {
    match t {
        Turn::Straight => 0,
        Turn::Left => 1,
        Turn::Right => -1,
    }
}

pub fn thrust_intent(accelerate: bool, decelerate: bool) -> (r: Thrust)
    ensures
        r == thrust_spec(accelerate, decelerate),
{
    let mut thrust = Thrust::Idle;
    if accelerate {
        thrust = Thrust::Forward;
    }
    if decelerate {
        thrust = Thrust::Reverse;
    }
    thrust
}

pub fn turn_intent(turn_left: bool, turn_right: bool) -> (r: Turn)
    ensures
        r == turn_spec(turn_left, turn_right),
{
    let mut turn = Turn::Straight;
    if turn_left {
        turn = Turn::Left;
    }
    if turn_right {
        turn = Turn::Right;
    }
    turn
}

impl Thrust {
    /// The factor applied to the thrust acceleration.
    pub fn sign(self) -> (r: i8)
        ensures
            r == thrust_sign_spec(self),
    {
        match self {
            Thrust::Idle => 0,
            Thrust::Forward => 1,
            Thrust::Reverse => -1,
        }
    }
}

impl Turn {
    /// The factor applied to the turn rate: positive turns counter-clockwise.
    pub fn sign(self) -> (r: i8)
        ensures
            r == turn_sign_spec(self),
    {
        match self {
            Turn::Straight => 0,
            Turn::Left => 1,
            Turn::Right => -1,
        }
    }
}

} // verus!
