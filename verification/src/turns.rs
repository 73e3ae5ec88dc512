//! One turn of the event loop: a command that is waiting goes before the event.

use vstd::prelude::*;

use crate::actions::{actions_of, no_actions, Action};
use crate::client::{
    event_handler, on_event, BotClientState, ClientEvent, ClientEventView, ClientView, Outcome,
};
use crate::commands::{execute_command, on_command};
use crate::inventory::{Menu, MenuView};
use crate::types::{CommandType, CommandView};

verus! {

/// How far a turn has come.
#[derive(Debug, Clone, Copy, PartialEq, Eq, Structural)]
pub enum TurnPhase {
    /// Nothing is done yet.
    Begin,
    /// The command has been carried out, the event has not been handled.
    Event,
    Done,
}

/// What a turn does next: `actions`, and once they are done it goes on with `next`.
pub struct TurnStep {
    pub actions: Vec<Action>,
    pub next: TurnPhase,
}

/// The command that is waiting, as the contracts speak of it.
pub open spec fn opt_command(command: Option<CommandType>) -> Option<CommandView> {
    match command {
        Some(c) => Some(c@),
        None => None,
    }
}

/// What comes of a step of a turn: first the command, if one is waiting, and then the event.
pub open spec fn on_turn(
    s: ClientView,
    phase: TurnPhase,
    pending: Option<CommandView>,
    menu: MenuView,
    event: ClientEventView,
) -> Outcome {
    match phase {
        TurnPhase::Begin => match pending {
            Some(command) => on_command(s, command, menu),
            None => on_event(s, event),
        },
        TurnPhase::Event => on_event(s, event),
        TurnPhase::Done => Outcome { state: s, actions: Seq::empty() },
    }
}

/// What a step of a turn is followed by: the event follows the command, and nothing the event.
pub open spec fn next_in_turn(phase: TurnPhase, pending: Option<CommandView>) -> TurnPhase {
    if phase is Begin && pending is Some {
        TurnPhase::Event
    } else {
        TurnPhase::Done
    }
}

/// Take the next step of the turn that `event` has started: carry out `pending`, the command that
/// was waiting when the turn began, and handle the event once all that the command asks for is
/// done. `menu` is the menu that is open.
pub fn take_turn(
    state: &mut BotClientState,
    phase: TurnPhase,
    pending: &Option<CommandType>,
    menu: &Menu,
    event: &ClientEvent,
) -> (r: TurnStep)
    requires
        old(state)@.scoreboard.well_formed(),
        phase is Begin && opt_command(*pending) == Some(CommandView::UploadInventory)
            ==> menu@.well_formed(),
    ensures
        final(state)@ == on_turn(old(state)@, phase, opt_command(*pending), menu@, event@).state,
        final(state)@.scoreboard.well_formed(),
        actions_of(r.actions@) == on_turn(
            old(state)@,
            phase,
            opt_command(*pending),
            menu@,
            event@,
        ).actions,
        r.next == next_in_turn(phase, opt_command(*pending)),
{
    match phase {
        TurnPhase::Begin => match pending {
            Some(command) => {
                let actions = execute_command(state, command, menu);
                TurnStep { actions, next: TurnPhase::Event }
            },
            None => TurnStep { actions: event_handler(state, event), next: TurnPhase::Done },
        },
        TurnPhase::Event => TurnStep {
            actions: event_handler(state, event),
            next: TurnPhase::Done,
        },
        TurnPhase::Done => TurnStep { actions: no_actions(), next: TurnPhase::Done },
    }
}

/// The state and the actions of a whole turn, with nothing in between: those of the command that
/// was waiting, and then those of the event.
pub open spec fn whole_turn(
    s: ClientView,
    pending: Option<CommandView>,
    menu: MenuView,
    event: ClientEventView,
) -> Outcome {
    match pending {
        Some(command) => {
            let first = on_command(s, command, menu);
            let second = on_event(first.state, event);
            Outcome { state: second.state, actions: first.actions + second.actions }
        },
        None => on_event(s, event),
    }
}

/// What a command asks for sets nothing by itself: the command has left its state behind before.
proof fn lemma_command_actions_set_nothing(s: ClientView, command: CommandView, menu: MenuView)
    ensures
        on_command(s, command, menu).state.after_all(on_command(s, command, menu).actions)
            == on_command(s, command, menu).state,
{
    reveal_with_fuel(ClientView::after_all, 3);
}

/// A command that is waiting is carried out before the event, and at most one is in a turn: the
/// first step is the command's, the second is the event's, in the state that the command has led
/// to, and there is no third.
pub proof fn law_waiting_command_goes_first(
    s: ClientView,
    command: CommandView,
    menu: MenuView,
    later: MenuView,
    event: ClientEventView,
)
    ensures
        ({
            let pending = Some(command);
            let first = on_turn(s, TurnPhase::Begin, pending, menu, event);
            let phase = next_in_turn(TurnPhase::Begin, pending);
            let between = first.state.after_all(first.actions);
            let second = on_turn(between, phase, pending, later, event);
            &&& first == on_command(s, command, menu)
            &&& second == on_event(first.state, event)
            &&& next_in_turn(phase, pending) is Done
            &&& whole_turn(s, pending, menu, event) == (Outcome {
                state: second.state,
                actions: first.actions + second.actions,
            })
        }),
{
    lemma_command_actions_set_nothing(s, command, menu);
}

/// A turn without a command that is waiting is the event's alone.
pub proof fn law_turn_without_command_is_the_event(
    s: ClientView,
    menu: MenuView,
    event: ClientEventView,
)
    ensures
        on_turn(s, TurnPhase::Begin, None, menu, event) == on_event(s, event),
        whole_turn(s, None, menu, event) == on_event(s, event),
        next_in_turn(TurnPhase::Begin, None) is Done,
{
}

} // verus!
