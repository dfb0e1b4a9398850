//! Output-driver state: which door relays and which lamp state are currently
//! commanded.  The output task of the surrounding program receives
//! [`GpoCommand`]s from a queue and mirrors this state onto the pins; the
//! state transition itself is `apply_command` and is verified here.

use vstd::prelude::*;

use crate::types::{Door, GpoCommand, LampState};

verus! {

/// The commanded levels of the four door relays and the lamp.
#[derive(Clone, Copy, PartialEq, Eq, Structural, Debug)]
pub struct GpoState {
    pub left_open: bool,
    pub left_close: bool,
    pub right_open: bool,
    pub right_close: bool,
    pub lamp_state: LampState,
}

impl GpoState {
    /// No door has its open relay and its close relay asserted at once.
    pub open spec fn door_safe(self) -> bool {
        &&& !(self.left_open && self.left_close)
        &&& !(self.right_open && self.right_close)
    }

    /// Neither close relay is asserted.
    pub open spec fn closes_off(self) -> bool {
        !self.left_close && !self.right_close
    }

    /// Neither open relay is asserted.
    pub open spec fn opens_off(self) -> bool {
        !self.left_open && !self.right_open
    }

    /// All four relays are deasserted.
    pub open spec fn all_relays_off(self) -> bool {
        self.closes_off() && self.opens_off()
    }

    pub fn new() -> (s: GpoState)
        ensures
            s.all_relays_off(),
            s.lamp_state == LampState::Off,
    {
        GpoState {
            left_open: false,
            left_close: false,
            right_open: false,
            right_close: false,
            lamp_state: LampState::Off,
        }
    }

    /// The state after one command.
    pub open spec fn spec_apply(self, cmd: GpoCommand) -> GpoState {
        match cmd {
            GpoCommand::SetDoorOpen { door, active } => match door {
                Door::Left => GpoState { left_open: active, ..self },
                Door::Right => GpoState { right_open: active, ..self },
            },
            GpoCommand::SetDoorClose { door, active } => match door {
                Door::Left => GpoState { left_close: active, ..self },
                Door::Right => GpoState { right_close: active, ..self },
            },
            GpoCommand::SetLamp(state) => GpoState { lamp_state: state, ..self },
        }
    }

    pub fn apply_command(&mut self, cmd: GpoCommand)
        ensures
            *final(self) == old(self).spec_apply(cmd),
    {
        match cmd {
            GpoCommand::SetDoorOpen { door, active } => match door {
                Door::Left => self.left_open = active,
                Door::Right => self.right_open = active,
            },
            GpoCommand::SetDoorClose { door, active } => match door {
                Door::Left => self.left_close = active,
                Door::Right => self.right_close = active,
            },
            GpoCommand::SetLamp(state) => self.lamp_state = state,
        }
    }
}

/// The commands that release every relay: both open and both close
/// relays deasserted, as the state machine issues on startup.
pub fn stop_all_doors() -> (cmds: Vec<GpoCommand>)
    ensures
        cmds@ == seq![
            GpoCommand::SetDoorOpen { door: Door::Left, active: false },
            GpoCommand::SetDoorOpen { door: Door::Right, active: false },
            GpoCommand::SetDoorClose { door: Door::Left, active: false },
            GpoCommand::SetDoorClose { door: Door::Right, active: false },
        ],
{
    let mut cmds: Vec<GpoCommand> = Vec::new();
    cmds.push(GpoCommand::SetDoorOpen { door: Door::Left, active: false });
    cmds.push(GpoCommand::SetDoorOpen { door: Door::Right, active: false });
    cmds.push(GpoCommand::SetDoorClose { door: Door::Left, active: false });
    cmds.push(GpoCommand::SetDoorClose { door: Door::Right, active: false });
    proof {
        assert(cmds@ =~= seq![
            GpoCommand::SetDoorOpen { door: Door::Left, active: false },
            GpoCommand::SetDoorOpen { door: Door::Right, active: false },
            GpoCommand::SetDoorClose { door: Door::Left, active: false },
            GpoCommand::SetDoorClose { door: Door::Right, active: false },
        ]);
    }
    cmds
}

/// The level the lamp pin is driven to: the blinking phase drives the
/// active level, which bit 0 of the polarity word inverts.
pub fn lamp_pin_high(lamp: LampState, polarity: u32) -> (high: bool)
    ensures
        high == (if polarity & 1 == 0 {
            lamp == LampState::Blinking
        } else {
            lamp != LampState::Blinking
        }),
{
    match lamp {
        LampState::Off => polarity & 1 != 0,
        LampState::Blinking => polarity & 1 == 0,
    }
}

/// The state after a whole sequence of commands, first command first.
pub open spec fn spec_apply_all(s: GpoState, cmds: Seq<GpoCommand>) -> GpoState
    decreases cmds.len(),
{
    if cmds.len() == 0 {
        s
    } else {
        spec_apply_all(s.spec_apply(cmds[0]), cmds.drop_first())
    }
}

/// Apply every command of `cmds` in order.
pub fn apply_commands(s: &mut GpoState, cmds: &Vec<GpoCommand>)
    ensures
        *final(s) == spec_apply_all(*old(s), cmds@),
{
    let ghost orig = *s;
    let mut i: usize = 0;
    while i < cmds.len()
        invariant
            i <= cmds.len(),
            spec_apply_all(orig, cmds@.take(i as int)) == *s,
        decreases cmds.len() - i,
    {
        proof {
            assert(cmds@.take(i + 1).drop_last() =~= cmds@.take(i as int));
            assert(cmds@.take(i + 1).last() == cmds@[i as int]);
            lemma_apply_all_push(orig, cmds@.take(i + 1));
        }
        s.apply_command(cmds[i]);
        i += 1;
    }
    proof {
        assert(cmds@.take(cmds@.len() as int) =~= cmds@);
    }
}

/// Appending one command applies it last.
proof fn lemma_apply_all_push(s: GpoState, cmds: Seq<GpoCommand>)
    requires
        cmds.len() > 0,
    ensures
        spec_apply_all(s, cmds) == spec_apply_all(s, cmds.drop_last()).spec_apply(cmds.last()),
    decreases cmds.len(),
{
    if cmds.len() == 1 {
        assert(cmds.drop_first() =~= Seq::<GpoCommand>::empty());
        assert(cmds.drop_last() =~= Seq::<GpoCommand>::empty());
    } else {
        lemma_apply_all_push(s.spec_apply(cmds[0]), cmds.drop_first());
        assert(cmds.drop_first().drop_last() =~= cmds.drop_last().drop_first());
        assert(cmds.drop_first().last() == cmds.last());
    }
}

/// No command of the sequence asserts a close relay.
pub open spec fn no_close_assert(cmds: Seq<GpoCommand>) -> bool {
    forall|i: int|
        0 <= i < cmds.len() ==> !(#[trigger] cmds[i] matches GpoCommand::SetDoorClose {
            active: true,
            ..
        })
}

/// No command of the sequence asserts an open relay.
pub open spec fn no_open_assert(cmds: Seq<GpoCommand>) -> bool {
    forall|i: int|
        0 <= i < cmds.len() ==> !(#[trigger] cmds[i] matches GpoCommand::SetDoorOpen {
            active: true,
            ..
        })
}

/// While only commands that never assert a close relay are applied, the close
/// relays stay off, so no door ever has both relays asserted: the door-safety
/// invariant holds after every prefix of such a sequence.
pub proof fn lemma_no_close_assert_keeps_safe(s: GpoState, cmds: Seq<GpoCommand>)
    requires
        s.closes_off(),
        no_close_assert(cmds),
    ensures
        forall|k: int|
            0 <= k <= cmds.len() ==> (#[trigger] spec_apply_all(s, cmds.take(k))).closes_off()
                && spec_apply_all(s, cmds.take(k)).door_safe(),
    decreases cmds.len(),
{
    assert forall|k: int|
        0 <= k <= cmds.len() implies (#[trigger] spec_apply_all(s, cmds.take(k))).closes_off()
        && spec_apply_all(s, cmds.take(k)).door_safe() by {
        lemma_closes_stay_off(s, cmds.take(k));
    }
}

/// Symmetric statement for sequences that never assert an open relay.
pub proof fn lemma_no_open_assert_keeps_safe(s: GpoState, cmds: Seq<GpoCommand>)
    requires
        s.opens_off(),
        no_open_assert(cmds),
    ensures
        forall|k: int|
            0 <= k <= cmds.len() ==> (#[trigger] spec_apply_all(s, cmds.take(k))).opens_off()
                && spec_apply_all(s, cmds.take(k)).door_safe(),
{
    assert forall|k: int|
        0 <= k <= cmds.len() implies (#[trigger] spec_apply_all(s, cmds.take(k))).opens_off()
        && spec_apply_all(s, cmds.take(k)).door_safe() by {
        lemma_opens_stay_off(s, cmds.take(k));
    }
}

proof fn lemma_closes_stay_off(s: GpoState, cmds: Seq<GpoCommand>)
    requires
        s.closes_off(),
        no_close_assert(cmds),
    ensures
        spec_apply_all(s, cmds).closes_off(),
    decreases cmds.len(),
{
    if cmds.len() > 0 {
        assert(!(cmds[0] matches GpoCommand::SetDoorClose { active: true, .. }));
        lemma_closes_stay_off(s.spec_apply(cmds[0]), cmds.drop_first());
    }
}

proof fn lemma_opens_stay_off(s: GpoState, cmds: Seq<GpoCommand>)
    requires
        s.opens_off(),
        no_open_assert(cmds),
    ensures
        spec_apply_all(s, cmds).opens_off(),
    decreases cmds.len(),
{
    if cmds.len() > 0 {
        assert(!(cmds[0] matches GpoCommand::SetDoorOpen { active: true, .. }));
        lemma_opens_stay_off(s.spec_apply(cmds[0]), cmds.drop_first());
    }
}

} // verus!
