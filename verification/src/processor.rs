//! How long a command is given before the next one is taken from the queue.

use vstd::prelude::*;

use crate::types::{BotState, CommandType, CommandView};

verus! {

/// How often the bot's state is looked at while a command runs, in milliseconds.
pub const STATE_POLL_MS: u64 = 250;

/// How long a command is given that leaves no state to look at, in milliseconds.
pub const FIXED_WAIT_MS: u64 = 5000;

/// How often the command queue is looked at, in milliseconds.
pub const QUEUE_POLL_MS: u64 = 50;

/// What is waited for after a command.
#[derive(Clone, Copy, Debug, PartialEq, Eq, Structural)]
pub enum Busy {
    /// Claiming what was bought or sold.
    Claiming,
    /// Placing a bazaar order.
    Bazaar,
    /// Putting an item up for auction.
    Selling,
    /// Checking, and perhaps buying, the cookie.
    Cookie,
    /// Nothing in particular: only some time passes.
    Anything,
}

/// What is waited for after this command.
pub open spec fn busy_with(command: CommandView) -> Busy {
    match command {
        CommandView::ClaimPurchasedItem | CommandView::ClaimSoldItem => Busy::Claiming,
        CommandView::BazaarBuyOrder(_) | CommandView::BazaarSellOrder(_) => Busy::Bazaar,
        CommandView::SellToAuction(_) => Busy::Selling,
        CommandView::CheckCookie => Busy::Cookie,
        _ => Busy::Anything,
    }
}

impl Busy {
    /// The bot is at it in this state.
    pub open spec fn shows_in(self, state: BotState) -> bool {
        match self {
            Busy::Claiming => state is ClaimingPurchased || state is ClaimingSold,
            Busy::Bazaar => state is Bazaar,
            Busy::Selling => state is Selling,
            Busy::Cookie => state is CheckingCookie || state is BuyingCookie,
            Busy::Anything => false,
        }
    }

    /// How long it is waited for at most, in milliseconds.
    pub open spec fn limit_ms(self) -> u64 {
        match self {
            Busy::Claiming => 30000,
            Busy::Bazaar => 20000,
            Busy::Selling => 15000,
            Busy::Cookie => 30000,
            Busy::Anything => FIXED_WAIT_MS,
        }
    }

    /// The bot is set idle if it is still at it when the time is up.
    pub open spec fn is_cut_short(self) -> bool {
        self is Bazaar || self is Selling || self is Cookie
    }

    /// How long to wait before the bot's state is looked at.
    pub open spec fn poll_ms(self) -> u64 {
        if self is Anything {
            FIXED_WAIT_MS
        } else {
            STATE_POLL_MS
        }
    }
}

/// What to do about a command that runs.
#[derive(Clone, Copy, Debug, PartialEq, Eq, Structural)]
pub enum Progress {
    /// Wait this many milliseconds and look again.
    Wait(u64),
    /// The command is done. If asked for, the bot is set idle first.
    Done { reset_to_idle: bool },
}

/// What to do about a command that has run for `elapsed_ms`, with the bot in `state`, once the first
/// wait is over.
pub open spec fn progress_of(busy: Busy, state: BotState, elapsed_ms: u64) -> Progress {
    if busy.shows_in(state) && elapsed_ms < busy.limit_ms() {
        Progress::Wait(STATE_POLL_MS)
    } else {
        Progress::Done { reset_to_idle: busy.is_cut_short() && busy.shows_in(state) }
    }
}

/// What is waited for after this command.
pub fn busy_kind(command: &CommandType) -> (r: Busy)
    ensures
        r == busy_with(command@),
{
    match command {
        CommandType::ClaimPurchasedItem => Busy::Claiming,
        CommandType::ClaimSoldItem => Busy::Claiming,
        CommandType::BazaarBuyOrder { .. } => Busy::Bazaar,
        CommandType::BazaarSellOrder { .. } => Busy::Bazaar,
        CommandType::SellToAuction { .. } => Busy::Selling,
        CommandType::CheckCookie => Busy::Cookie,
        _ => Busy::Anything,
    }
}

/// How long to wait before the bot's state is first looked at, in milliseconds.
pub fn first_wait(busy: Busy) -> (r: u64)
    ensures
        r == busy.poll_ms(),
{
    match busy {
        Busy::Anything => FIXED_WAIT_MS,
        _ => STATE_POLL_MS,
    }
}

/// What to do about a command that has run for `elapsed_ms`, with the bot in `state`.
pub fn check_progress(busy: Busy, state: BotState, elapsed_ms: u64) -> (r: Progress)
    ensures
        r == progress_of(busy, state, elapsed_ms),
{
    let at_it = match busy {
        Busy::Claiming => state == BotState::ClaimingPurchased || state == BotState::ClaimingSold,
        Busy::Bazaar => state == BotState::Bazaar,
        Busy::Selling => state == BotState::Selling,
        Busy::Cookie => state == BotState::CheckingCookie || state == BotState::BuyingCookie,
        Busy::Anything => false,
    };
    let limit: u64 = match busy {
        Busy::Claiming => 30000,
        Busy::Bazaar => 20000,
        Busy::Selling => 15000,
        Busy::Cookie => 30000,
        Busy::Anything => FIXED_WAIT_MS,
    };
    if at_it && elapsed_ms < limit {
        Progress::Wait(STATE_POLL_MS)
    } else {
        let cut_short = match busy {
            Busy::Bazaar => true,
            Busy::Selling => true,
            Busy::Cookie => true,
            _ => false,
        };
        Progress::Done { reset_to_idle: cut_short && at_it }
    }
}

/// No command blocks the queue: it is done when the bot is no longer at it, and in any case once
/// its time is up. An order, a listing or a cookie check that got stuck is then cut short, so that
/// the bot is not left at it; a claim is not.
pub proof fn law_no_command_blocks_the_queue(busy: Busy, state: BotState, elapsed_ms: u64)
    ensures
        !busy.shows_in(state) ==> progress_of(busy, state, elapsed_ms) == (Progress::Done {
            reset_to_idle: false,
        }),
        elapsed_ms >= busy.limit_ms() ==> progress_of(busy, state, elapsed_ms) is Done,
        progress_of(busy, state, elapsed_ms) matches Progress::Done { reset_to_idle } ==> {
            let left_in = if reset_to_idle {
                BotState::Idle
            } else {
                state
            };
            busy.is_cut_short() ==> !busy.shows_in(left_in)
        },
        busy is Claiming ==> progress_of(busy, state, elapsed_ms) != (Progress::Done {
            reset_to_idle: true,
        }),
{
}

/// A command is waited for while the bot is at it: a claim and a cookie check for half a minute, an
/// order for twenty seconds and a listing for fifteen, looked at four times a second. Any other
/// command is given five seconds.
pub proof fn law_commands_are_given_their_time(
    command: CommandView,
    state: BotState,
    elapsed_ms: u64,
)
    ensures
        ({
            let busy = busy_with(command);
            let claiming = command is ClaimPurchasedItem || command is ClaimSoldItem;
            let ordering = command is BazaarBuyOrder || command is BazaarSellOrder;
            let selling = command is SellToAuction;
            let checking = command is CheckCookie;
            let goes_on = {
                ||| claiming && (state is ClaimingPurchased || state is ClaimingSold) && elapsed_ms
                    < 30_000
                ||| ordering && state is Bazaar && elapsed_ms < 20_000
                ||| selling && state is Selling && elapsed_ms < 15_000
                ||| checking && (state is CheckingCookie || state is BuyingCookie) && elapsed_ms
                    < 30_000
            };
            let cut_short = !goes_on && {
                ||| ordering && state is Bazaar
                ||| selling && state is Selling
                ||| checking && (state is CheckingCookie || state is BuyingCookie)
            };
            &&& busy.poll_ms() == (if claiming || ordering || selling || checking {
                250u64
            } else {
                5_000u64
            })
            &&& progress_of(busy, state, elapsed_ms) == (if goes_on {
                Progress::Wait(250)
            } else {
                Progress::Done { reset_to_idle: cut_short }
            })
        }),
{
}

} // verus!
