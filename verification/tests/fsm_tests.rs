use blue_gate::fsm::{abort_close_commands, closed_step, closing_monitor_step, closing_schedule,
    opening_schedule, FsmInput, GateFsm, OpenInput, OpenWait, PULSE_WINDOW_MS};
use blue_gate::gpo::GpoState;
use blue_gate::types::{Door, DoorConfig, FsmCommand, GateConfig, GateState, GpiEvent, GpoCommand,
    LampState};

fn config() -> GateConfig {
    GateConfig {
        left_door: DoorConfig::new(100, 800, 2000, 2000),
        right_door: DoorConfig::new(800, 100, 2000, 2000),
        autoclose_delay: Some(5000),
        lamp_prestart: 500,
    }
}

#[test]
fn controller_starts_closed() {
    let mut fsm = GateFsm::new();
    assert_eq!(fsm.get_state(), GateState::Closed);
    fsm.set_state(GateState::Opening);
    assert_eq!(fsm.get_state(), GateState::Opening);
}

#[test]
fn closed_state_opens_on_command_or_pulse() {
    assert_eq!(closed_step(FsmInput::Cmd(FsmCommand::Open)), Some(GateState::Opening));
    assert_eq!(closed_step(FsmInput::Event(GpiEvent::ControlPulse)), Some(GateState::Opening));
    assert_eq!(closed_step(FsmInput::Cmd(FsmCommand::Close)), None);
    assert_eq!(closed_step(FsmInput::Cmd(FsmCommand::StopAutoClose)), None);
    assert_eq!(closed_step(FsmInput::Event(GpiEvent::ObstacleDetected)), None);
    assert_eq!(closed_step(FsmInput::Event(GpiEvent::ObstacleCleared)), None);
}

#[test]
fn open_state_autocloses_on_timeout() {
    let mut w = OpenWait::new(true, 0);
    assert_eq!(w.step(OpenInput::AutocloseTimeout, 10), Some(GateState::Closing));
}

#[test]
fn open_state_close_command_closes() {
    let mut w = OpenWait::new(true, 0);
    assert_eq!(w.step(OpenInput::Cmd(FsmCommand::Close), 10), Some(GateState::Closing));
    let mut w2 = OpenWait::new(false, 0);
    assert_eq!(w2.step(OpenInput::Cmd(FsmCommand::Close), 10), Some(GateState::Closing));
}

#[test]
fn stop_autoclose_disarms_the_timer() {
    let mut w = OpenWait::new(true, 0);
    assert_eq!(w.step(OpenInput::Cmd(FsmCommand::StopAutoClose), 10), None);
    assert!(!w.autoclose_enabled);
    // A later timeout input is ignored once disarmed.
    assert_eq!(w.step(OpenInput::AutocloseTimeout, 20), None);
}

#[test]
fn open_command_resets_but_keeps_open() {
    let mut w = OpenWait::new(true, 0);
    assert_eq!(w.step(OpenInput::Cmd(FsmCommand::Open), 10), None);
    assert!(w.autoclose_enabled);
}

#[test]
fn three_pulses_within_window_close() {
    let mut w = OpenWait::new(false, 0);
    assert_eq!(w.step(OpenInput::Event(GpiEvent::ControlPulse), 1_000), None);
    assert_eq!(w.step(OpenInput::Event(GpiEvent::ControlPulse), 6_000), None);
    assert_eq!(
        w.step(OpenInput::Event(GpiEvent::ControlPulse), 14_000),
        Some(GateState::Closing)
    );
}

#[test]
fn pulse_train_resets_after_long_gap() {
    let mut w = OpenWait::new(false, 0);
    assert_eq!(w.step(OpenInput::Event(GpiEvent::ControlPulse), 1_000), None);
    assert_eq!(w.step(OpenInput::Event(GpiEvent::ControlPulse), 2_000), None);
    // The gap reaches the window: the train starts over.
    assert_eq!(
        w.step(OpenInput::Event(GpiEvent::ControlPulse), 2_000 + PULSE_WINDOW_MS),
        None
    );
    assert_eq!(w.pulses, 1);
    assert_eq!(w.step(OpenInput::Event(GpiEvent::ControlPulse), 13_000), None);
    assert_eq!(w.step(OpenInput::Event(GpiEvent::ControlPulse), 14_000), Some(GateState::Closing));
}

#[test]
fn obstacle_events_do_not_close_an_open_gate() {
    let mut w = OpenWait::new(false, 0);
    assert_eq!(w.step(OpenInput::Event(GpiEvent::ObstacleDetected), 10), None);
    assert_eq!(w.step(OpenInput::Event(GpiEvent::ObstacleCleared), 20), None);
    assert_eq!(w.pulses, 0);
}

#[test]
fn closing_monitor_aborts_on_obstacle_or_open() {
    assert!(closing_monitor_step(FsmInput::Event(GpiEvent::ObstacleDetected)));
    assert!(closing_monitor_step(FsmInput::Cmd(FsmCommand::Open)));
    assert!(!closing_monitor_step(FsmInput::Cmd(FsmCommand::Close)));
    assert!(!closing_monitor_step(FsmInput::Cmd(FsmCommand::StopAutoClose)));
    assert!(!closing_monitor_step(FsmInput::Event(GpiEvent::ControlPulse)));
    assert!(!closing_monitor_step(FsmInput::Event(GpiEvent::ObstacleCleared)));
}

#[test]
fn opening_schedule_times_and_commands() {
    let sched = opening_schedule(&config());
    assert_eq!(sched.len(), 6);
    assert_eq!(sched[0].at_ms, 0);
    assert_eq!(sched[0].cmd, GpoCommand::SetLamp(LampState::Blinking));
    assert_eq!(sched[1].at_ms, 600);
    assert_eq!(sched[1].cmd, GpoCommand::SetDoorOpen { door: Door::Left, active: true });
    assert_eq!(sched[2].at_ms, 2600);
    assert_eq!(sched[2].cmd, GpoCommand::SetDoorOpen { door: Door::Left, active: false });
    assert_eq!(sched[3].at_ms, 1300);
    assert_eq!(sched[3].cmd, GpoCommand::SetDoorOpen { door: Door::Right, active: true });
    assert_eq!(sched[4].at_ms, 3300);
    assert_eq!(sched[4].cmd, GpoCommand::SetDoorOpen { door: Door::Right, active: false });
    assert_eq!(sched[5].at_ms, 3300);
    assert_eq!(sched[5].cmd, GpoCommand::SetLamp(LampState::Off));
}

#[test]
fn opening_schedule_is_door_safe_at_every_step() {
    let sched = opening_schedule(&config());
    let mut s = GpoState::new();
    for tc in sched.iter() {
        s.apply_command(tc.cmd);
        assert!(!(s.left_open && s.left_close));
        assert!(!(s.right_open && s.right_close));
        assert!(!s.left_close && !s.right_close);
    }
    // Every relay is released again at the end of the sequence.
    assert!(!s.left_open && !s.right_open);
    assert_eq!(s.lamp_state, LampState::Off);
}

#[test]
fn closing_schedule_is_door_safe_at_every_step() {
    let sched = closing_schedule(&config());
    let mut s = GpoState::new();
    for tc in sched.iter() {
        s.apply_command(tc.cmd);
        assert!(!(s.left_open && s.left_close));
        assert!(!(s.right_open && s.right_close));
        assert!(!s.left_open && !s.right_open);
    }
    assert!(!s.left_close && !s.right_close);
    assert_eq!(s.lamp_state, LampState::Off);
}

#[test]
fn abort_commands_release_both_close_relays() {
    // Mid-close: both close relays asserted, lamp blinking.
    let mut s = GpoState::new();
    s.apply_command(GpoCommand::SetLamp(LampState::Blinking));
    s.apply_command(GpoCommand::SetDoorClose { door: Door::Left, active: true });
    s.apply_command(GpoCommand::SetDoorClose { door: Door::Right, active: true });
    for cmd in abort_close_commands().iter() {
        s.apply_command(*cmd);
    }
    assert!(!s.left_close && !s.right_close);
    assert!(!s.left_open && !s.right_open);
}

#[test]
fn gpo_state_applies_commands() {
    let mut s = GpoState::new();
    s.apply_command(GpoCommand::SetDoorOpen { door: Door::Left, active: true });
    assert!(s.left_open && !s.right_open && !s.left_close && !s.right_close);
    s.apply_command(GpoCommand::SetDoorOpen { door: Door::Left, active: false });
    s.apply_command(GpoCommand::SetDoorClose { door: Door::Right, active: true });
    assert!(!s.left_open && s.right_close);
    s.apply_command(GpoCommand::SetLamp(LampState::Blinking));
    assert_eq!(s.lamp_state, LampState::Blinking);
}
