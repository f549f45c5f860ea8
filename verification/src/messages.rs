//! Vocabulary of the input-device messages carried on the bus: the buttons
//! and axes a gamepad state message reports. The producer that samples the
//! device and publishes these messages lives outside the engine; the
//! vocabulary is part of the bridged topics' data model.

use vstd::prelude::*;

verus! {

/// A gamepad button, as named in published input messages.
#[derive(Debug, PartialEq, Eq, PartialOrd, Ord, Hash, Clone, Copy, Structural)]
pub enum Button {
    South,
    East,
    North,
    West,
    C,
    Z,
    LeftTrigger,
    LeftTrigger2,
    RightTrigger,
    RightTrigger2,
    Select,
    Start,
    Mode,
    LeftThumb,
    RightThumb,
    DPadUp,
    DPadDown,
    DPadLeft,
    DPadRight,
    Unknown,
    LeftPaddle,
    RightPaddle,
}

/// A gamepad axis, as named in published input messages.
#[derive(Debug, PartialEq, Eq, PartialOrd, Ord, Hash, Clone, Copy, Structural)]
pub enum Axis {
    LeftStickX,
    LeftStickY,
    LeftZ,
    RightStickX,
    RightStickY,
    RightZ,
    DPadX,
    DPadY,
    Unknown,
}

/// The axes in declaration order, `Unknown` excluded.
pub open spec fn all_axes_seq() -> Seq<Axis> {
    seq![
        Axis::LeftStickX,
        Axis::LeftStickY,
        Axis::LeftZ,
        Axis::RightStickX,
        Axis::RightStickY,
        Axis::RightZ,
        Axis::DPadX,
        Axis::DPadY,
    ]
}

impl Axis {
    /// Every real axis an input message can report, in declaration order.
    pub fn all_axes() -> (r: Vec<Axis>)
        ensures
            r@ == all_axes_seq(),
    {
        let r: Vec<Axis> = vec![
            Axis::LeftStickX,
            Axis::LeftStickY,
            Axis::LeftZ,
            Axis::RightStickX,
            Axis::RightStickY,
            Axis::RightZ,
            Axis::DPadX,
            Axis::DPadY,
        ];
        proof {
            assert(r@ =~= all_axes_seq());
        }
        r
    }
}

} // verus!
