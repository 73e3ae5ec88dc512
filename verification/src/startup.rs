//! The way from the lobby to a bot that is ready to flip.

use vstd::prelude::*;

use crate::actions::{
    actions_of, both, chat, just, no_actions, then_do, three, Action, ActionView, Background,
    BotEvent, BotEventView,
};
use crate::client::{BotClientState, ClientView, Outcome};
use crate::flows::lemma_after_all;
use crate::types::BotState;

verus! {

/// How long the bot stays in the lobby before it asks for SkyBlock, in milliseconds.
pub const LOBBY_COMMAND_DELAY_MS: u64 = 3000;

/// How long it waits in SkyBlock before it goes to its island, in milliseconds.
pub const ISLAND_TELEPORT_DELAY_MS: u64 = 2000;

/// How long the way to the island takes, in milliseconds.
pub const TELEPORT_COMPLETION_WAIT_MS: u64 = 3000;

/// How long SkyBlock takes to load, in milliseconds.
pub const SKYBLOCK_LOAD_MS: u64 = 5000;

/// When the watchdog completes the startup, in milliseconds after the login.
pub const WATCHDOG_DELAY_MS: u64 = 30000;

/// How long the startup workflow waits for the claims, in milliseconds.
pub const CLAIM_LIMIT_MS: u64 = 30000;

/// How often it looks whether they are done, in milliseconds.
pub const CLAIM_POLL_MS: u64 = 500;

/// How far the startup workflow has come.
#[derive(Clone, Copy, Debug, PartialEq, Eq, Structural)]
pub enum StartupPhase {
    Begin,
    /// Sold items are being claimed.
    Claiming,
    Done,
}

/// What to do, and the phase to go on with afterwards.
#[derive(Debug, PartialEq)]
pub struct StartupStep {
    pub actions: Vec<Action>,
    pub next: StartupPhase,
}

/// What the startup workflow does, and the phase it goes on with: commands are blocked, the sold
/// items are claimed, and once that is done or has taken too long the bot is idle and ready.
pub open spec fn startup_step(bot_state: BotState, phase: StartupPhase, elapsed_ms: u64) -> (
    Seq<ActionView>,
    StartupPhase,
) {
    match phase {
        StartupPhase::Begin => (
            seq![
                ActionView::SetState(BotState::Startup),
                ActionView::Chat("/ah"@),
                ActionView::SetState(BotState::ClaimingSold),
                ActionView::Wait(CLAIM_POLL_MS),
            ],
            StartupPhase::Claiming,
        ),
        StartupPhase::Claiming => if bot_state is Idle || elapsed_ms >= CLAIM_LIMIT_MS {
            (
                seq![
                    ActionView::SetState(BotState::Idle),
                    ActionView::Emit(BotEventView::StartupComplete),
                ],
                StartupPhase::Done,
            )
        } else {
            (seq![ActionView::Wait(CLAIM_POLL_MS)], StartupPhase::Claiming)
        },
        StartupPhase::Done => (Seq::empty(), StartupPhase::Done),
    }
}

/// Shared startup workflow: claim sold items, then report that the startup is complete.
/// `elapsed_ms` is the time since the claim began.
pub fn run_startup_workflow(bot_state: BotState, phase: StartupPhase, elapsed_ms: u64) -> (r:
    StartupStep)
    ensures
        (actions_of(r.actions@), r.next) == startup_step(bot_state, phase, elapsed_ms),
{
    match phase {
        StartupPhase::Begin => {
            let begun = three(
                Action::SetState(BotState::Startup),
                chat("/ah"),
                Action::SetState(BotState::ClaimingSold),
            );
            let actions = then_do(begun, Action::Wait(CLAIM_POLL_MS));
            proof {
                assert(actions_of(actions@) =~= startup_step(bot_state, phase, elapsed_ms).0);
            }
            StartupStep { actions, next: StartupPhase::Claiming }
        },
        StartupPhase::Claiming => {
            if bot_state == BotState::Idle || elapsed_ms >= CLAIM_LIMIT_MS {
                StartupStep {
                    actions: both(
                        Action::SetState(BotState::Idle),
                        Action::Emit(BotEvent::StartupComplete),
                    ),
                    next: StartupPhase::Done,
                }
            } else {
                StartupStep {
                    actions: just(Action::Wait(CLAIM_POLL_MS)),
                    next: StartupPhase::Claiming,
                }
            }
        },
        StartupPhase::Done => StartupStep { actions: no_actions(), next: StartupPhase::Done },
    }
}

/// Going to the island and running the startup workflow there, after `delay_ms`.
pub open spec fn island_trip(delay_ms: u64) -> Seq<ActionView> {
    seq![
        ActionView::Wait(delay_ms),
        ActionView::Chat("/is"@),
        ActionView::Wait(TELEPORT_COMPLETION_WAIT_MS),
        ActionView::RunStartup,
    ]
}

/// What a piece of background work begins with. For all but the watchdog that is all of it.
pub open spec fn background_actions(work: Background) -> Seq<ActionView> {
    match work {
        Background::StartupWatchdog => seq![ActionView::Wait(WATCHDOG_DELAY_MS)],
        Background::JoinSkyblock => seq![
            ActionView::Wait(LOBBY_COMMAND_DELAY_MS),
            ActionView::Chat("/play sb"@),
        ],
        Background::GoToIsland => island_trip(ISLAND_TELEPORT_DELAY_MS),
    }
}

/// Go to the island and run the startup workflow there, behind `actions` and after `delay_ms`.
fn then_go_to_island(actions: Vec<Action>, delay_ms: u64) -> (r: Vec<Action>)
    ensures
        actions_of(r@) == actions_of(actions@) + island_trip(delay_ms),
{
    let waited = then_do(actions, Action::Wait(delay_ms));
    let told = then_do(waited, chat("/is"));
    let there = then_do(told, Action::Wait(TELEPORT_COMPLETION_WAIT_MS));
    let r = then_do(there, Action::RunStartup);
    proof {
        assert(actions_of(r@) =~= actions_of(actions@) + island_trip(delay_ms));
    }
    r
}

/// Begin a piece of background work.
pub fn begin_background(work: Background) -> (r: Vec<Action>)
    ensures
        actions_of(r@) == background_actions(work),
{
    match work {
        Background::StartupWatchdog => just(Action::Wait(WATCHDOG_DELAY_MS)),
        Background::JoinSkyblock => both(Action::Wait(LOBBY_COMMAND_DELAY_MS), chat("/play sb")),
        Background::GoToIsland => {
            let r = then_go_to_island(no_actions(), ISLAND_TELEPORT_DELAY_MS);
            proof {
                assert(actions_of(r@) =~= background_actions(work));
            }
            r
        },
    }
}

/// What the watchdog does when its time has come: nothing, if the bot has been sent to its island;
/// otherwise it asks for SkyBlock once more and sends the bot there.
pub open spec fn on_watchdog(s: ClientView) -> Outcome {
    if s.teleported_to_island {
        Outcome { state: s, actions: Seq::empty() }
    } else {
        Outcome {
            state: ClientView { joined_skyblock: true, teleported_to_island: true, ..s },
            actions: seq![ActionView::Chat("/play sb"@)] + island_trip(
                (SKYBLOCK_LOAD_MS + ISLAND_TELEPORT_DELAY_MS) as u64,
            ),
        }
    }
}

/// Complete the startup if nothing else has done so by now.
pub fn expire_watchdog(state: &mut BotClientState) -> (r: Vec<Action>)
    ensures
        final(state)@ == on_watchdog(old(state)@).state,
        actions_of(r@) == on_watchdog(old(state)@).actions,
{
    if state.teleported_to_island {
        no_actions()
    } else {
        state.joined_skyblock = true;
        state.teleported_to_island = true;
        then_go_to_island(just(chat("/play sb")), SKYBLOCK_LOAD_MS + ISLAND_TELEPORT_DELAY_MS)
    }
}

/// The workflow keeps commands off until it is done: the state that it leaves while it claims takes
/// none, and the one that it ends with takes them. It ends, with its report, at the latest when the
/// limit has passed, whatever the state of the bot is by then.
pub proof fn law_startup_blocks_commands_and_ends(
    s: ClientView,
    bot_state: BotState,
    elapsed_ms: u64,
)
    ensures
        !s.after_all(startup_step(bot_state, StartupPhase::Begin, elapsed_ms).0).bot_state.takes_commands(),
        elapsed_ms >= CLAIM_LIMIT_MS || bot_state is Idle ==> {
            let (actions, next) = startup_step(bot_state, StartupPhase::Claiming, elapsed_ms);
            &&& next is Done
            &&& actions.last() == ActionView::Emit(BotEventView::StartupComplete)
            &&& s.after_all(actions).bot_state is Idle
            &&& s.after_all(actions).bot_state.takes_commands()
        },
        elapsed_ms < CLAIM_LIMIT_MS && !(bot_state is Idle) ==> startup_step(
            bot_state,
            StartupPhase::Claiming,
            elapsed_ms,
        ) == (seq![ActionView::Wait(CLAIM_POLL_MS)], StartupPhase::Claiming),
{
    reveal_with_fuel(ClientView::after_all, 5);
    let begin = startup_step(bot_state, StartupPhase::Begin, elapsed_ms).0;
    assert(begin.drop_last().last() == ActionView::SetState(BotState::ClaimingSold));
    assert(begin.last() == ActionView::Wait(CLAIM_POLL_MS));
    let end = startup_step(BotState::Idle, StartupPhase::Claiming, elapsed_ms).0;
    assert(end.last() == ActionView::Emit(BotEventView::StartupComplete));
    assert(end.drop_last().last() == ActionView::SetState(BotState::Idle));
}

/// The bot is sent to its island once: when the watchdog has run, or has found the bot sent there,
/// it does nothing more.
pub proof fn law_watchdog_runs_once(s: ClientView)
    ensures
        on_watchdog(s).state.teleported_to_island,
        on_watchdog(on_watchdog(s).state) == (Outcome {
            state: on_watchdog(s).state,
            actions: Seq::empty(),
        }),
{
}

/// What the actions say in the chat, in their order.
pub open spec fn said(actions: Seq<ActionView>) -> Seq<Seq<char>>
    decreases actions.len(),
{
    if actions.len() == 0 {
        Seq::empty()
    } else {
        match actions.last() {
            ActionView::Chat(message) => said(actions.drop_last()).push(message),
            _ => said(actions.drop_last()),
        }
    }
}

/// How long the actions wait in all, in milliseconds.
pub open spec fn waited(actions: Seq<ActionView>) -> nat
    decreases actions.len(),
{
    if actions.len() == 0 {
        0
    } else {
        match actions.last() {
            ActionView::Wait(ms) => waited(actions.drop_last()) + ms as nat,
            _ => waited(actions.drop_last()),
        }
    }
}

/// One more action.
proof fn lemma_said_one_more(actions: Seq<ActionView>, action: ActionView)
    ensures
        said(actions.push(action)) == (match action {
            ActionView::Chat(message) => said(actions).push(message),
            _ => said(actions),
        }),
        waited(actions.push(action)) == (match action {
            ActionView::Wait(ms) => waited(actions) + ms as nat,
            _ => waited(actions),
        }),
{
    assert(actions.push(action).drop_last() =~= actions);
}

/// What a few actions say and how long they wait.
proof fn lemma_said_few(actions: Seq<ActionView>)
    ensures
        forall|k: int|
            0 < k <= actions.len() && k <= 6 ==> {
                &&& (#[trigger] actions.take(k)) == actions.take(k - 1).push(actions[k - 1])
                &&& said(actions.take(k)) == (match actions[k - 1] {
                    ActionView::Chat(message) => said(actions.take(k - 1)).push(message),
                    _ => said(actions.take(k - 1)),
                })
                &&& waited(actions.take(k)) == (match actions[k - 1] {
                    ActionView::Wait(ms) => waited(actions.take(k - 1)) + ms as nat,
                    _ => waited(actions.take(k - 1)),
                })
            },
        said(actions.take(0)) == Seq::<Seq<char>>::empty(),
        waited(actions.take(0)) == 0,
        actions.take(actions.len() as int) == actions,
{
    assert forall|k: int| 0 < k <= actions.len() && k <= 6 implies {
        &&& (#[trigger] actions.take(k)) == actions.take(k - 1).push(actions[k - 1])
        &&& said(actions.take(k)) == (match actions[k - 1] {
            ActionView::Chat(message) => said(actions.take(k - 1)).push(message),
            _ => said(actions.take(k - 1)),
        })
        &&& waited(actions.take(k)) == (match actions[k - 1] {
            ActionView::Wait(ms) => waited(actions.take(k - 1)) + ms as nat,
            _ => waited(actions.take(k - 1)),
        })
    } by {
        assert(actions.take(k) =~= actions.take(k - 1).push(actions[k - 1]));
        lemma_said_one_more(actions.take(k - 1), actions[k - 1]);
    }
    assert(actions.take(0) =~= Seq::empty());
    assert(actions.take(actions.len() as int) =~= actions);
}

/// The way to the island: three seconds in the lobby before SkyBlock is asked for, two in SkyBlock
/// before the island is, three until the bot is there, and then the startup workflow. The watchdog
/// waits for half a minute, and then asks for SkyBlock and, after seven seconds, for the island.
pub proof fn law_way_to_the_island(s: ClientView)
    requires
        !s.teleported_to_island,
    ensures
        said(background_actions(Background::JoinSkyblock)) == seq!["/play sb"@],
        background_actions(Background::JoinSkyblock)[0] == ActionView::Wait(3_000),
        said(background_actions(Background::GoToIsland)) == seq!["/is"@],
        background_actions(Background::GoToIsland)[0] == ActionView::Wait(2_000),
        waited(background_actions(Background::GoToIsland)) == 5_000,
        background_actions(Background::GoToIsland).last() == ActionView::RunStartup,
        said(background_actions(Background::StartupWatchdog)).len() == 0,
        waited(background_actions(Background::StartupWatchdog)) == 30_000,
        said(on_watchdog(s).actions) == seq!["/play sb"@, "/is"@],
        waited(on_watchdog(s).actions) == 10_000,
        on_watchdog(s).actions[1] == ActionView::Wait(7_000),
        on_watchdog(s).actions.last() == ActionView::RunStartup,
        on_watchdog(s).state == (ClientView {
            joined_skyblock: true,
            teleported_to_island: true,
            ..s
        }),
{
    let join = background_actions(Background::JoinSkyblock);
    let go = background_actions(Background::GoToIsland);
    let dog = background_actions(Background::StartupWatchdog);
    let late = on_watchdog(s).actions;
    lemma_said_few(join);
    lemma_said_few(go);
    lemma_said_few(dog);
    lemma_said_few(late);
    assert(join.take(1).len() == 1 && join.take(2).len() == 2);
    assert(go.take(1).len() == 1 && go.take(2).len() == 2 && go.take(3).len() == 3 && go.take(
        4,
    ).len() == 4);
    assert(dog.take(1).len() == 1);
    assert(late.take(1).len() == 1 && late.take(2).len() == 2 && late.take(3).len() == 3
        && late.take(4).len() == 4 && late.take(5).len() == 5);
    assert(said(join) =~= seq!["/play sb"@]);
    assert(said(go) =~= seq!["/is"@]);
    assert(said(late) =~= seq!["/play sb"@, "/is"@]);
}

/// The startup workflow claims what was sold: it opens the auction house in the state of that claim,
/// looks twice a second whether the claim is done, and waits for half a minute at most.
pub proof fn law_startup_claims_what_was_sold(s: ClientView, state: BotState, elapsed_ms: u64)
    ensures
        ({
            let (begin, claiming) = startup_step(state, StartupPhase::Begin, elapsed_ms);
            let (then, next) = startup_step(state, claiming, elapsed_ms);
            &&& said(begin) == seq!["/ah"@]
            &&& s.after_all(begin) == (ClientView { bot_state: BotState::ClaimingSold, ..s })
            &&& waited(begin) == 500
            &&& if state is Idle || elapsed_ms >= 30_000 {
                &&& then == seq![
                    ActionView::SetState(BotState::Idle),
                    ActionView::Emit(BotEventView::StartupComplete),
                ]
                &&& next is Done
            } else {
                then == seq![ActionView::Wait(500)] && next == claiming
            }
            &&& startup_step(state, StartupPhase::Done, elapsed_ms).0.len() == 0
        }),
{
    let (begin, claiming) = startup_step(state, StartupPhase::Begin, elapsed_ms);
    lemma_said_few(begin);
    assert(begin.take(1).len() == 1 && begin.take(2).len() == 2 && begin.take(3).len() == 3
        && begin.take(4).len() == 4);
    assert(said(begin) =~= seq!["/ah"@]);
    lemma_after_all(s, begin);
}

} // verus!
