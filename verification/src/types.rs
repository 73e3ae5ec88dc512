//! The states of the bot, the commands it runs, and the flips it is offered.

use vstd::prelude::*;

use crate::scoreboard::opt_text;

verus! {

/// What the bot is doing.
#[derive(Clone, Copy, Debug, PartialEq, Eq, Structural)]
pub enum BotState {
    /// Connected, but not known to be ready.
    GracePeriod,
    /// The startup workflow runs.
    Startup,
    Idle,
    Purchasing,
    Bazaar,
    ClaimingPurchased,
    ClaimingSold,
    Selling,
    ManagingOrders,
    CheckingCookie,
    BuyingCookie,
}

impl BotState {
    /// New commands are taken: no startup workflow and no claim is under way.
    pub open spec fn takes_commands(self) -> bool {
        !(self is Startup || self is ManagingOrders || self is ClaimingPurchased
            || self is ClaimingSold)
    }

    /// Whether new commands are taken in this state. The grace period takes them; only the startup
    /// workflow with its order management, and the claims, block them.
    pub fn allows_commands(self) -> (r: bool)
        ensures
            r == self.takes_commands(),
    {
        match self {
            BotState::Startup => false,
            BotState::ManagingOrders => false,
            BotState::ClaimingPurchased => false,
            BotState::ClaimingSold => false,
            _ => true,
        }
    }

    /// The name under which the state is reported.
    pub open spec fn reported_name(self) -> Seq<char> {
        match self {
            BotState::GracePeriod => "GracePeriod"@,
            BotState::Startup => "Startup"@,
            BotState::Idle => "Idle"@,
            BotState::Purchasing => "Purchasing"@,
            BotState::Bazaar => "Bazaar"@,
            BotState::ClaimingPurchased => "ClaimingPurchased"@,
            BotState::ClaimingSold => "ClaimingSold"@,
            BotState::Selling => "Selling"@,
            BotState::ManagingOrders => "ManagingOrders"@,
            BotState::CheckingCookie => "CheckingCookie"@,
            BotState::BuyingCookie => "BuyingCookie"@,
        }
    }

    /// The name under which the state is reported.
    pub fn name(self) -> (r: &'static str)
        ensures
            r@ == self.reported_name(),
    {
        match self {
            BotState::GracePeriod => "GracePeriod",
            BotState::Startup => "Startup",
            BotState::Idle => "Idle",
            BotState::Purchasing => "Purchasing",
            BotState::Bazaar => "Bazaar",
            BotState::ClaimingPurchased => "ClaimingPurchased",
            BotState::ClaimingSold => "ClaimingSold",
            BotState::Selling => "Selling",
            BotState::ManagingOrders => "ManagingOrders",
            BotState::CheckingCookie => "CheckingCookie",
            BotState::BuyingCookie => "BuyingCookie",
        }
    }
}

/// An auction that can be bought below its expected value.
#[derive(Debug, PartialEq)]
pub struct Flip {
    /// The item's name, with color codes.
    pub item_name: String,
    pub starting_bid: u64,
    /// The price at which the item is expected to sell.
    pub target: u64,
    pub uuid: Option<String>,
}

/// A flip, as the contracts speak of it.
#[verifier::ext_equal]
pub struct FlipView {
    pub item_name: Seq<char>,
    pub starting_bid: u64,
    pub target: u64,
    pub uuid: Option<Seq<char>>,
}

impl View for Flip {
    type V = FlipView;

    open spec fn view(&self) -> FlipView {
        FlipView {
            item_name: self.item_name@,
            starting_bid: self.starting_bid,
            target: self.target,
            uuid: opt_text(self.uuid),
        }
    }
}

/// A copy of an optional text.
pub fn copy_opt(s: &Option<String>) -> (r: Option<String>)
    ensures
        opt_text(r) == opt_text(*s),
{
    match s {
        Some(t) => Some(t.clone()),
        None => None,
    }
}

impl Flip {
    /// A copy that says the same.
    pub fn copy(&self) -> (r: Flip)
        ensures
            r@ == self@,
    {
        Flip {
            item_name: self.item_name.clone(),
            starting_bid: self.starting_bid,
            target: self.target,
            uuid: copy_opt(&self.uuid),
        }
    }
}

/// An order that is recommended for the bazaar.
#[derive(Debug, PartialEq)]
pub struct BazaarFlip {
    pub item_name: String,
    /// The item's tag, under which the bazaar shows the item directly.
    pub item_tag: Option<String>,
    pub amount: u64,
    /// The price per unit, written in decimal.
    pub price_per_unit: String,
    /// The price per unit in whole coins, the fraction cut off.
    pub price_in_coins: i64,
    pub is_buy_order: bool,
}

/// What the bot is told to do.
#[derive(Debug, PartialEq)]
pub enum CommandType {
    SendChat { message: String },
    PurchaseAuction { flip: Flip },
    BazaarBuyOrder {
        item_name: String,
        item_tag: Option<String>,
        amount: u64,
        /// Written in decimal.
        price_per_unit: String,
    },
    BazaarSellOrder {
        item_name: String,
        item_tag: Option<String>,
        amount: u64,
        /// Written in decimal.
        price_per_unit: String,
    },
    ClickSlot { slot: i16 },
    SwapProfile { profile_name: String },
    AcceptTrade { player_name: String },
    SellToAuction {
        item_name: String,
        starting_bid: u64,
        duration_hours: u64,
        item_slot: Option<u64>,
        item_id: Option<String>,
    },
    UploadInventory,
    ClaimSoldItem,
    ClaimPurchasedItem,
    CheckCookie,
    DiscoverOrders,
    ExecuteOrders,
}

/// What the bot is told to do, as the contracts speak of it.
#[verifier::ext_equal]
pub enum CommandView {
    SendChat(Seq<char>),
    PurchaseAuction(FlipView),
    BazaarBuyOrder(OrderView),
    BazaarSellOrder(OrderView),
    ClickSlot(i16),
    SwapProfile(Seq<char>),
    AcceptTrade(Seq<char>),
    SellToAuction(ListingView),
    UploadInventory,
    ClaimSoldItem,
    ClaimPurchasedItem,
    CheckCookie,
    DiscoverOrders,
    ExecuteOrders,
}

/// A bazaar order, as the contracts speak of it.
#[verifier::ext_equal]
pub struct OrderView {
    pub item_name: Seq<char>,
    pub item_tag: Option<Seq<char>>,
    pub amount: u64,
    pub price_per_unit: Seq<char>,
}

/// An item to be put up for auction, as the contracts speak of it.
#[verifier::ext_equal]
pub struct ListingView {
    pub item_name: Seq<char>,
    pub starting_bid: u64,
    pub duration_hours: u64,
    pub item_slot: Option<u64>,
    pub item_id: Option<Seq<char>>,
}

impl View for CommandType {
    type V = CommandView;

    open spec fn view(&self) -> CommandView {
        match self {
            CommandType::SendChat { message } => CommandView::SendChat(message@),
            CommandType::PurchaseAuction { flip } => CommandView::PurchaseAuction(flip@),
            CommandType::BazaarBuyOrder { item_name, item_tag, amount, price_per_unit } =>
                CommandView::BazaarBuyOrder(
                OrderView {
                    item_name: item_name@,
                    item_tag: opt_text(*item_tag),
                    amount: *amount,
                    price_per_unit: price_per_unit@,
                },
            ),
            CommandType::BazaarSellOrder { item_name, item_tag, amount, price_per_unit } =>
                CommandView::BazaarSellOrder(
                OrderView {
                    item_name: item_name@,
                    item_tag: opt_text(*item_tag),
                    amount: *amount,
                    price_per_unit: price_per_unit@,
                },
            ),
            CommandType::ClickSlot { slot } => CommandView::ClickSlot(*slot),
            CommandType::SwapProfile { profile_name } => CommandView::SwapProfile(profile_name@),
            CommandType::AcceptTrade { player_name } => CommandView::AcceptTrade(player_name@),
            CommandType::SellToAuction {
                item_name,
                starting_bid,
                duration_hours,
                item_slot,
                item_id,
            } => CommandView::SellToAuction(
                ListingView {
                    item_name: item_name@,
                    starting_bid: *starting_bid,
                    duration_hours: *duration_hours,
                    item_slot: *item_slot,
                    item_id: opt_text(*item_id),
                },
            ),
            CommandType::UploadInventory => CommandView::UploadInventory,
            CommandType::ClaimSoldItem => CommandView::ClaimSoldItem,
            CommandType::ClaimPurchasedItem => CommandView::ClaimPurchasedItem,
            CommandType::CheckCookie => CommandView::CheckCookie,
            CommandType::DiscoverOrders => CommandView::DiscoverOrders,
            CommandType::ExecuteOrders => CommandView::ExecuteOrders,
        }
    }
}

/// How urgent a command is.
#[derive(Clone, Copy, Debug, PartialEq, Eq, Structural)]
pub enum CommandPriority {
    High,
    Normal,
}

/// A command with its place in the queue.
#[derive(Debug, PartialEq)]
pub struct QueuedCommand {
    pub command_type: CommandType,
    pub priority: CommandPriority,
    /// Whether an auction flip may go first.
    pub interruptible: bool,
}

/// A command with its place in the queue, as the contracts speak of it.
#[verifier::ext_equal]
pub struct QueuedView {
    pub command: CommandView,
    pub priority: CommandPriority,
    pub interruptible: bool,
}

impl View for QueuedCommand {
    type V = QueuedView;

    open spec fn view(&self) -> QueuedView {
        QueuedView {
            command: self.command_type@,
            priority: self.priority,
            interruptible: self.interruptible,
        }
    }
}

/// Commands are held back by the startup workflow, by the management of orders and by the claims, and
/// by nothing else.
pub proof fn law_only_startup_and_claims_hold_commands_back(state: BotState)
    ensures
        !state.takes_commands() <==> state == BotState::Startup || state == BotState::ManagingOrders
            || state == BotState::ClaimingPurchased || state == BotState::ClaimingSold,
{
}

/// A state is reported under its own name, and no two states under the same.
pub proof fn law_states_are_reported_by_name(a: BotState, b: BotState)
    ensures
        a != b ==> a.reported_name() != b.reported_name(),
        BotState::Idle.reported_name() == "Idle"@,
        BotState::GracePeriod.reported_name() == "GracePeriod"@,
        BotState::Startup.reported_name() == "Startup"@,
        BotState::Purchasing.reported_name() == "Purchasing"@,
        BotState::Bazaar.reported_name() == "Bazaar"@,
        BotState::Selling.reported_name() == "Selling"@,
        BotState::ClaimingSold.reported_name() == "ClaimingSold"@,
        BotState::ClaimingPurchased.reported_name() == "ClaimingPurchased"@,
        BotState::ManagingOrders.reported_name() == "ManagingOrders"@,
        BotState::CheckingCookie.reported_name() == "CheckingCookie"@,
        BotState::BuyingCookie.reported_name() == "BuyingCookie"@,
{
    reveal_strlit("GracePeriod");
    reveal_strlit("Startup");
    reveal_strlit("Idle");
    reveal_strlit("Purchasing");
    reveal_strlit("Bazaar");
    reveal_strlit("ClaimingPurchased");
    reveal_strlit("ClaimingSold");
    reveal_strlit("Selling");
    reveal_strlit("ManagingOrders");
    reveal_strlit("CheckingCookie");
    reveal_strlit("BuyingCookie");
    let (x, y) = (a.reported_name(), b.reported_name());
    assert("GracePeriod"@.len() == 11 && "Startup"@.len() == 7 && "Idle"@.len() == 4
        && "Purchasing"@.len() == 10 && "Bazaar"@.len() == 6 && "ClaimingPurchased"@.len() == 17
        && "ClaimingSold"@.len() == 12 && "Selling"@.len() == 7 && "ManagingOrders"@.len() == 14
        && "CheckingCookie"@.len() == 14 && "BuyingCookie"@.len() == 12);
    assert("Startup"@[1] == 't' && "Selling"@[1] == 'e');
    assert("ManagingOrders"@[0] == 'M' && "CheckingCookie"@[0] == 'C');
    assert("ClaimingSold"@[0] == 'C' && "BuyingCookie"@[0] == 'B');
}

} // verus!
