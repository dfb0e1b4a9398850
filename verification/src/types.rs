//! Shared types of the controller: machine states, commands, input
//! events, output commands and the timing configuration of the two door
//! leaves.

use vstd::prelude::*;

verus! {

/// The four states of the door state machine.
#[derive(Clone, Copy, PartialEq, Eq, Structural, Debug)]
pub enum GateState {
    Closed,
    Opening,
    Open,
    Closing,
}

/// Commands sent to the door state machine.
#[derive(Clone, Copy, PartialEq, Eq, Structural, Debug)]
pub enum FsmCommand {
    Open,
    Close,
    StopAutoClose,
}

/// Debounced input events produced by the input reader.
#[derive(Clone, Copy, PartialEq, Eq, Structural, Debug)]
pub enum GpiEvent {
    ControlPulse,
    ObstacleDetected,
    ObstacleCleared,
}

/// One of the two gate leaves.
#[derive(Clone, Copy, PartialEq, Eq, Structural, Debug)]
pub enum Door {
    Left,
    Right,
}

/// The signalling lamp is either off or blinking.
#[derive(Clone, Copy, PartialEq, Eq, Structural, Debug)]
pub enum LampState {
    Off,
    Blinking,
}

/// Commands sent to the output driver.
#[derive(Clone, Copy, PartialEq, Eq, Structural, Debug)]
pub enum GpoCommand {
    SetDoorOpen { door: Door, active: bool },
    SetDoorClose { door: Door, active: bool },
    SetLamp(LampState),
}

/// Timing parameters of one door leaf, in milliseconds.
///
/// Every value comes from a 32-bit configuration slot, which `wf` records:
/// sums of a few of them then fit comfortably in a `u64`.
#[derive(Clone, Copy, PartialEq, Eq, Structural, Debug)]
pub struct DoorConfig {
    pub open_delay: u64,
    pub close_delay: u64,
    pub open_duration: u64,
    pub close_duration: u64,
}

impl DoorConfig {
    /// Each field fits in 32 bits, as configuration slots are 32-bit values.
    pub open spec fn wf(self) -> bool {
        &&& self.open_delay <= u32::MAX
        &&& self.close_delay <= u32::MAX
        &&& self.open_duration <= u32::MAX
        &&& self.close_duration <= u32::MAX
    }

    pub fn new(open_delay: u32, close_delay: u32, open_duration: u32, close_duration: u32) -> (c:
        DoorConfig)
        ensures
            c.open_delay == open_delay,
            c.close_delay == close_delay,
            c.open_duration == open_duration,
            c.close_duration == close_duration,
            c.wf(),
    {
        DoorConfig {
            open_delay: open_delay as u64,
            close_delay: close_delay as u64,
            open_duration: open_duration as u64,
            close_duration: close_duration as u64,
        }
    }
}

/// Timing parameters of the whole gate, in milliseconds.
#[derive(Clone, Copy, PartialEq, Eq, Structural, Debug)]
pub struct GateConfig {
    pub left_door: DoorConfig,
    pub right_door: DoorConfig,
    /// `None` disables automatic closing.
    pub autoclose_delay: Option<u64>,
    pub lamp_prestart: u64,
}

impl GateConfig {
    pub open spec fn wf(self) -> bool {
        &&& self.left_door.wf()
        &&& self.right_door.wf()
        &&& self.lamp_prestart <= u32::MAX
        &&& (self.autoclose_delay matches Some(d) ==> d <= u32::MAX)
    }
}

} // verus!
