//! Decision logic of the state machine that coordinates the two door
//! leaves.
//!
//! The surrounding program runs the event loop: it waits on the command
//! queue, the input-event queue and the timers, and feeds what arrived into
//! the step functions here, which decide every state transition.  The door
//! and lamp sequences of the Opening and Closing states are produced as
//! schedules: lists of output commands, each with its offset in
//! milliseconds from the start of the sequence, which the program plays
//! back against the clock.

use vstd::prelude::*;

use crate::gpo::{
    GpoState, spec_apply_all, no_close_assert, no_open_assert, lemma_no_close_assert_keeps_safe,
    lemma_no_open_assert_keeps_safe,
};
use crate::types::{Door, FsmCommand, GateConfig, GateState, GpiEvent, GpoCommand, LampState};

verus! {

/// What the wait of a state completed with: a command from the queue or a
/// debounced input event.
#[derive(Clone, Copy, PartialEq, Eq, Structural, Debug)]
pub enum FsmInput {
    Cmd(FsmCommand),
    Event(GpiEvent),
}

/// Milliseconds after the third control pulse no longer counts as part of a
/// pulse train.
pub const PULSE_WINDOW_MS: u64 = 10000;

/// Pause between deasserting the close relays and reversing to Opening.
pub const REVERSAL_PAUSE_MS: u64 = 100;

/// The current gate state, held by the controller below.
pub struct GateFsm {
    state: GateState,
}

impl GateFsm {
    /// The controller starts closed.
    pub fn new() -> (fsm: GateFsm)
        ensures
            fsm.state() == GateState::Closed,
    {
        GateFsm { state: GateState::Closed }
    }

    pub closed spec fn state(self) -> GateState {
        self.state
    }

    /// The current gate state.
    pub fn get_state(&self) -> (s: GateState)
        ensures
            s == self.state(),
    {
        self.state
    }

    pub fn set_state(&mut self, s: GateState)
        ensures
            final(self).state() == s,
    {
        self.state = s;
    }
}

/// Decision of the Closed state: an `Open` command or a control pulse
/// starts the opening sequence; everything else is ignored.
pub fn closed_step(input: FsmInput) -> (r: Option<GateState>)
    ensures
        input == FsmInput::Cmd(FsmCommand::Open) || input == FsmInput::Event(
            GpiEvent::ControlPulse,
        ) ==> r == Some(GateState::Opening),
        input != FsmInput::Cmd(FsmCommand::Open) && input != FsmInput::Event(
            GpiEvent::ControlPulse,
        ) ==> r is None,
{
    match input {
        FsmInput::Cmd(FsmCommand::Open) => Some(GateState::Opening),
        FsmInput::Event(GpiEvent::ControlPulse) => Some(GateState::Opening),
        _ => None,
    }
}

/// Decision of the Closing state's obstacle monitor: an obstacle or an
/// incoming `Open` command aborts the close and reverses.
pub fn closing_monitor_step(input: FsmInput) -> (abort: bool)
    ensures
        abort == (input == FsmInput::Event(GpiEvent::ObstacleDetected) || input == FsmInput::Cmd(
            FsmCommand::Open,
        )),
{
    match input {
        FsmInput::Event(GpiEvent::ObstacleDetected) => true,
        FsmInput::Cmd(FsmCommand::Open) => true,
        _ => false,
    }
}

/// What the wait of the Open state completed with.
#[derive(Clone, Copy, PartialEq, Eq, Structural, Debug)]
pub enum OpenInput {
    /// The autoclose timer fired (only armed while autoclose is enabled).
    AutocloseTimeout,
    Cmd(FsmCommand),
    Event(GpiEvent),
}

/// Waiting state of the Open state: whether autoclose is still armed, and
/// the rolling-window count of control pulses seen while it is not.
pub struct OpenWait {
    pub autoclose_enabled: bool,
    pub pulses: u8,
    pub last_pulse_ms: u64,
}

impl OpenWait {
    /// The pulse counter stays at most 3: the third pulse starts the
    /// closing sequence.
    pub open spec fn wf(self) -> bool {
        self.pulses <= 3
    }

    /// Entry into the Open state.
    pub fn new(autoclose_enabled: bool, now_ms: u64) -> (w: OpenWait)
        ensures
            w.autoclose_enabled == autoclose_enabled,
            w.pulses == 0,
            w.last_pulse_ms == now_ms,
            w.wf(),
    {
        OpenWait { autoclose_enabled, pulses: 0, last_pulse_ms: now_ms }
    }

    /// Decision of the Open state.  While autoclose is armed, the timer, or
    /// a `Close` command, starts the closing sequence; `StopAutoClose`
    /// disarms the timer for the rest of this Open episode; anything else
    /// merely resets the timer
    /// (which the caller re-arms).  With autoclose disarmed, a `Close`
    /// command closes, and so does the third control pulse of a train whose
    /// gaps each stay below `PULSE_WINDOW_MS`.
    pub fn step(&mut self, input: OpenInput, now_ms: u64) -> (r: Option<GateState>)
        requires
            old(self).wf(),
            old(self).last_pulse_ms <= now_ms,
        ensures
            final(self).wf(),
            old(self).autoclose_enabled ==> {
                &&& (input == OpenInput::AutocloseTimeout || input == OpenInput::Cmd(
                    FsmCommand::Close,
                ) ==> r == Some(GateState::Closing))
                &&& (input != OpenInput::AutocloseTimeout && input != OpenInput::Cmd(
                    FsmCommand::Close,
                ) ==> r is None)
                &&& final(self).autoclose_enabled == (input != OpenInput::Cmd(
                    FsmCommand::StopAutoClose,
                ))
                &&& final(self).pulses == old(self).pulses
                &&& final(self).last_pulse_ms == old(self).last_pulse_ms
            },
            !old(self).autoclose_enabled ==> {
                &&& !final(self).autoclose_enabled
                &&& (input == OpenInput::Cmd(FsmCommand::Close) ==> r == Some(GateState::Closing)
                    && final(self).pulses == old(self).pulses)
                &&& (input == OpenInput::Event(GpiEvent::ControlPulse) ==> {
                    &&& final(self).pulses == if now_ms - old(self).last_pulse_ms
                        < PULSE_WINDOW_MS && old(self).pulses < 3 {
                        (old(self).pulses + 1) as u8
                    } else if now_ms - old(self).last_pulse_ms < PULSE_WINDOW_MS {
                        3u8
                    } else {
                        1u8
                    }
                    &&& final(self).last_pulse_ms == now_ms
                    &&& r == if final(self).pulses > 2 {
                        Some(GateState::Closing)
                    } else {
                        None::<GateState>
                    }
                })
                &&& (input != OpenInput::Cmd(FsmCommand::Close) && input != OpenInput::Event(
                    GpiEvent::ControlPulse,
                ) ==> r is None && final(self).pulses == old(self).pulses)
            },
    {
        if self.autoclose_enabled {
            match input {
                OpenInput::AutocloseTimeout => Some(GateState::Closing),
                OpenInput::Cmd(FsmCommand::Close) => Some(GateState::Closing),
                OpenInput::Cmd(FsmCommand::StopAutoClose) => {
                    self.autoclose_enabled = false;
                    None
                },
                _ => None,
            }
        } else {
            match input {
                OpenInput::Cmd(FsmCommand::Close) => Some(GateState::Closing),
                OpenInput::Event(GpiEvent::ControlPulse) => {
                    if now_ms - self.last_pulse_ms < PULSE_WINDOW_MS {
                        if self.pulses < 3 {
                            self.pulses = self.pulses + 1;
                        }
                    } else {
                        self.pulses = 1;
                    }
                    self.last_pulse_ms = now_ms;
                    if self.pulses > 2 {
                        Some(GateState::Closing)
                    } else {
                        None
                    }
                },
                _ => None,
            }
        }
    }
}

/// One output command with its offset, in milliseconds, from the start of
/// the sequence it belongs to.
#[derive(Clone, Copy, PartialEq, Eq, Structural, Debug)]
pub struct TimedCommand {
    pub at_ms: u64,
    pub cmd: GpoCommand,
}

/// The bare commands of a schedule, in order.
pub open spec fn cmds_of(sched: Seq<TimedCommand>) -> Seq<GpoCommand> {
    sched.map_values(|tc: TimedCommand| tc.cmd)
}

/// The opening sequence: lamp on, then after the prestart each door waits
/// its own delay, asserts its open relay for its duration and releases it;
/// the lamp goes out when the later door is done.
pub open spec fn spec_opening_schedule(c: GateConfig) -> Seq<TimedCommand> {
    let p = c.lamp_prestart;
    let l_on = p + c.left_door.open_delay;
    let l_off = l_on + c.left_door.open_duration;
    let r_on = p + c.right_door.open_delay;
    let r_off = r_on + c.right_door.open_duration;
    let end = if l_off >= r_off {
        l_off
    } else {
        r_off
    };
    seq![
        TimedCommand { at_ms: 0, cmd: GpoCommand::SetLamp(LampState::Blinking) },
        TimedCommand {
            at_ms: (l_on) as u64,
            cmd: GpoCommand::SetDoorOpen { door: Door::Left, active: true },
        },
        TimedCommand {
            at_ms: (l_off) as u64,
            cmd: GpoCommand::SetDoorOpen { door: Door::Left, active: false },
        },
        TimedCommand {
            at_ms: (r_on) as u64,
            cmd: GpoCommand::SetDoorOpen { door: Door::Right, active: true },
        },
        TimedCommand {
            at_ms: (r_off) as u64,
            cmd: GpoCommand::SetDoorOpen { door: Door::Right, active: false },
        },
        TimedCommand { at_ms: (end) as u64, cmd: GpoCommand::SetLamp(LampState::Off) },
    ]
}

/// The closing sequence, symmetric to the opening one, over the close
/// delays, durations and relays.
pub open spec fn spec_closing_schedule(c: GateConfig) -> Seq<TimedCommand> {
    let p = c.lamp_prestart;
    let l_on = p + c.left_door.close_delay;
    let l_off = l_on + c.left_door.close_duration;
    let r_on = p + c.right_door.close_delay;
    let r_off = r_on + c.right_door.close_duration;
    let end = if l_off >= r_off {
        l_off
    } else {
        r_off
    };
    seq![
        TimedCommand { at_ms: 0, cmd: GpoCommand::SetLamp(LampState::Blinking) },
        TimedCommand {
            at_ms: (l_on) as u64,
            cmd: GpoCommand::SetDoorClose { door: Door::Left, active: true },
        },
        TimedCommand {
            at_ms: (l_off) as u64,
            cmd: GpoCommand::SetDoorClose { door: Door::Left, active: false },
        },
        TimedCommand {
            at_ms: (r_on) as u64,
            cmd: GpoCommand::SetDoorClose { door: Door::Right, active: true },
        },
        TimedCommand {
            at_ms: (r_off) as u64,
            cmd: GpoCommand::SetDoorClose { door: Door::Right, active: false },
        },
        TimedCommand { at_ms: (end) as u64, cmd: GpoCommand::SetLamp(LampState::Off) },
    ]
}

/// The opening schedule of `c`.
pub fn opening_schedule(c: &GateConfig) -> (sched: Vec<TimedCommand>)
    requires
        c.wf(),
    ensures
        sched@ == spec_opening_schedule(*c),
{
    let p = c.lamp_prestart;
    let l_on = p + c.left_door.open_delay;
    let l_off = l_on + c.left_door.open_duration;
    let r_on = p + c.right_door.open_delay;
    let r_off = r_on + c.right_door.open_duration;
    let end = if l_off >= r_off {
        l_off
    } else {
        r_off
    };
    let mut sched: Vec<TimedCommand> = Vec::new();
    sched.push(TimedCommand { at_ms: 0, cmd: GpoCommand::SetLamp(LampState::Blinking) });
    sched.push(
        TimedCommand { at_ms: l_on, cmd: GpoCommand::SetDoorOpen { door: Door::Left, active: true } },
    );
    sched.push(
        TimedCommand {
            at_ms: l_off,
            cmd: GpoCommand::SetDoorOpen { door: Door::Left, active: false },
        },
    );
    sched.push(
        TimedCommand {
            at_ms: r_on,
            cmd: GpoCommand::SetDoorOpen { door: Door::Right, active: true },
        },
    );
    sched.push(
        TimedCommand {
            at_ms: r_off,
            cmd: GpoCommand::SetDoorOpen { door: Door::Right, active: false },
        },
    );
    sched.push(TimedCommand { at_ms: end, cmd: GpoCommand::SetLamp(LampState::Off) });
    proof {
        assert(sched@ =~= spec_opening_schedule(*c));
    }
    sched
}

/// The closing schedule of `c`.
pub fn closing_schedule(c: &GateConfig) -> (sched: Vec<TimedCommand>)
    requires
        c.wf(),
    ensures
        sched@ == spec_closing_schedule(*c),
{
    let p = c.lamp_prestart;
    let l_on = p + c.left_door.close_delay;
    let l_off = l_on + c.left_door.close_duration;
    let r_on = p + c.right_door.close_delay;
    let r_off = r_on + c.right_door.close_duration;
    let end = if l_off >= r_off {
        l_off
    } else {
        r_off
    };
    let mut sched: Vec<TimedCommand> = Vec::new();
    sched.push(TimedCommand { at_ms: 0, cmd: GpoCommand::SetLamp(LampState::Blinking) });
    sched.push(
        TimedCommand {
            at_ms: l_on,
            cmd: GpoCommand::SetDoorClose { door: Door::Left, active: true },
        },
    );
    sched.push(
        TimedCommand {
            at_ms: l_off,
            cmd: GpoCommand::SetDoorClose { door: Door::Left, active: false },
        },
    );
    sched.push(
        TimedCommand {
            at_ms: r_on,
            cmd: GpoCommand::SetDoorClose { door: Door::Right, active: true },
        },
    );
    sched.push(
        TimedCommand {
            at_ms: r_off,
            cmd: GpoCommand::SetDoorClose { door: Door::Right, active: false },
        },
    );
    sched.push(TimedCommand { at_ms: end, cmd: GpoCommand::SetLamp(LampState::Off) });
    proof {
        assert(sched@ =~= spec_closing_schedule(*c));
    }
    sched
}

/// The commands that abort a close: deassert both close relays at once.
pub open spec fn spec_abort_close_commands() -> Seq<GpoCommand> {
    seq![
        GpoCommand::SetDoorClose { door: Door::Left, active: false },
        GpoCommand::SetDoorClose { door: Door::Right, active: false },
    ]
}

/// Commands run when the obstacle monitor fires during Closing, before the
/// reversal to Opening.
pub fn abort_close_commands() -> (cmds: Vec<GpoCommand>)
    ensures
        cmds@ == spec_abort_close_commands(),
{
    let mut cmds: Vec<GpoCommand> = Vec::new();
    cmds.push(GpoCommand::SetDoorClose { door: Door::Left, active: false });
    cmds.push(GpoCommand::SetDoorClose { door: Door::Right, active: false });
    proof {
        assert(cmds@ =~= spec_abort_close_commands());
    }
    cmds
}

/// The opening sequence never asserts a close relay, so played from a state
/// whose close relays are off — as every entry into Opening is — no door
/// ever has both relays asserted, at any point of the sequence.
pub proof fn lemma_opening_schedule_safe(c: GateConfig, s: GpoState)
    requires
        s.closes_off(),
    ensures
        no_close_assert(cmds_of(spec_opening_schedule(c))),
        forall|k: int|
            0 <= k <= 6 ==> (#[trigger] spec_apply_all(
                s,
                cmds_of(spec_opening_schedule(c)).take(k),
            )).door_safe(),
{
    let cmds = cmds_of(spec_opening_schedule(c));
    assert(cmds.len() == 6);
    assert forall|i: int|
        0 <= i < cmds.len() implies !(#[trigger] cmds[i] matches GpoCommand::SetDoorClose {
        active: true,
        ..
    }) by {
        assert(cmds[i] == spec_opening_schedule(c)[i].cmd);
    }
    lemma_no_close_assert_keeps_safe(s, cmds);
}

/// The closing sequence never asserts an open relay; played from a state
/// whose open relays are off, no door ever has both relays asserted.
pub proof fn lemma_closing_schedule_safe(c: GateConfig, s: GpoState)
    requires
        s.opens_off(),
    ensures
        no_open_assert(cmds_of(spec_closing_schedule(c))),
        forall|k: int|
            0 <= k <= 6 ==> (#[trigger] spec_apply_all(
                s,
                cmds_of(spec_closing_schedule(c)).take(k),
            )).door_safe(),
{
    let cmds = cmds_of(spec_closing_schedule(c));
    assert(cmds.len() == 6);
    assert forall|i: int|
        0 <= i < cmds.len() implies !(#[trigger] cmds[i] matches GpoCommand::SetDoorOpen {
        active: true,
        ..
    }) by {
        assert(cmds[i] == spec_closing_schedule(c)[i].cmd);
    }
    lemma_no_open_assert_keeps_safe(s, cmds);
}

/// After the abort commands both close relays are off: the reversal from
/// Closing to Opening never happens while a close relay is still asserted.
pub proof fn lemma_abort_close_clears(s: GpoState)
    ensures
        spec_apply_all(s, spec_abort_close_commands()).closes_off(),
        spec_apply_all(s, spec_abort_close_commands()).left_open == s.left_open,
        spec_apply_all(s, spec_abort_close_commands()).right_open == s.right_open,
{
    let cmds = spec_abort_close_commands();
    let s1 = s.spec_apply(cmds[0]);
    let rest = cmds.drop_first();
    assert(rest.len() == 1 && rest[0] == cmds[1]);
    assert(rest.drop_first().len() == 0);
    assert(spec_apply_all(s, cmds) == spec_apply_all(s1, rest));
    assert(spec_apply_all(s1, rest) == spec_apply_all(s1.spec_apply(rest[0]), rest.drop_first()));
    assert(spec_apply_all(s1.spec_apply(rest[0]), rest.drop_first()) == s1.spec_apply(rest[0]));
}

} // verus!
