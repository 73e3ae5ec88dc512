//! What the bot does to the outside: the actions that the event loop performs, and the events that
//! it reports.

use vstd::prelude::*;

use crate::text::texts;
use crate::types::BotState;

verus! {

/// Events that can be emitted by the bot.
#[derive(Debug, PartialEq)]
pub enum BotEvent {
    /// Bot logged in successfully.
    Login,
    /// Bot spawned in the world.
    Spawn,
    /// Chat message received.
    ChatMessage(String),
    /// Window opened: its id, its type and its title.
    WindowOpen(u8, String, String),
    WindowClose,
    /// Bot disconnected, with the reason.
    Disconnected(String),
    /// Bot kicked, with the reason.
    Kicked(String),
    /// Startup workflow completed: the bot is ready to accept flips.
    StartupComplete,
    /// Item purchased from the auction house.
    ItemPurchased { item_name: String, price: u64 },
    /// Item sold on the auction house.
    ItemSold { item_name: String, price: u64, buyer: String },
    /// Bazaar order placed successfully. The price per unit is written in decimal.
    BazaarOrderPlaced {
        item_name: String,
        amount: u64,
        price_per_unit: String,
        is_buy_order: bool,
    },
    /// Auction listed successfully.
    AuctionListed { item_name: String, starting_bid: u64, duration_hours: u64 },
}

/// An event, as the contracts speak of it.
#[verifier::ext_equal]
pub enum BotEventView {
    Login,
    Spawn,
    ChatMessage(Seq<char>),
    WindowOpen(u8, Seq<char>, Seq<char>),
    WindowClose,
    Disconnected(Seq<char>),
    Kicked(Seq<char>),
    StartupComplete,
    ItemPurchased(Seq<char>, u64),
    ItemSold(Seq<char>, u64, Seq<char>),
    BazaarOrderPlaced(Seq<char>, u64, Seq<char>, bool),
    AuctionListed(Seq<char>, u64, u64),
}

impl View for BotEvent {
    type V = BotEventView;

    open spec fn view(&self) -> BotEventView {
        match self {
            BotEvent::Login => BotEventView::Login,
            BotEvent::Spawn => BotEventView::Spawn,
            BotEvent::ChatMessage(m) => BotEventView::ChatMessage(m@),
            BotEvent::WindowOpen(id, kind, title) => BotEventView::WindowOpen(*id, kind@, title@),
            BotEvent::WindowClose => BotEventView::WindowClose,
            BotEvent::Disconnected(reason) => BotEventView::Disconnected(reason@),
            BotEvent::Kicked(reason) => BotEventView::Kicked(reason@),
            BotEvent::StartupComplete => BotEventView::StartupComplete,
            BotEvent::ItemPurchased { item_name, price } => BotEventView::ItemPurchased(
                item_name@,
                *price,
            ),
            BotEvent::ItemSold { item_name, price, buyer } => BotEventView::ItemSold(
                item_name@,
                *price,
                buyer@,
            ),
            BotEvent::BazaarOrderPlaced { item_name, amount, price_per_unit, is_buy_order } =>
                BotEventView::BazaarOrderPlaced(
                item_name@,
                *amount,
                price_per_unit@,
                *is_buy_order,
            ),
            BotEvent::AuctionListed { item_name, starting_bid, duration_hours } =>
                BotEventView::AuctionListed(item_name@, *starting_bid, *duration_hours),
        }
    }
}

/// Which step of the auction creation flow the bot is in.
#[derive(Clone, Copy, Debug, PartialEq, Eq, Structural)]
pub enum AuctionStep {
    /// Just sent /ah, waiting for "Auction House".
    Initial,
    /// Clicked through to "Manage Auctions", waiting for it.
    OpenManage,
    /// Clicked "Create Auction", waiting for "Create Auction".
    ClickCreate,
    /// Chose the auction type, waiting for "Create BIN Auction".
    SelectBIN,
    /// Clicked the item and the price setter; a sign is expected for the price.
    PriceSign,
    /// The price is written; "Create BIN Auction" opens again.
    SetDuration,
    /// Clicked the duration; a sign is expected for it.
    DurationSign,
    /// The duration is written; "Create BIN Auction" opens again.
    ConfirmSell,
    /// In "Confirm BIN Auction".
    FinalConfirm,
}

/// Which step of the bazaar order flow the bot is in.
#[derive(Clone, Copy, Debug, PartialEq, Eq, Structural)]
pub enum BazaarStep {
    Initial,
    SearchResults,
    SelectOrderType,
    SetAmount,
    SetPrice,
    Confirm,
}

impl Default for AuctionStep {
    fn default() -> (r: AuctionStep)
        ensures
            r == AuctionStep::Initial,
    {
        AuctionStep::Initial
    }
}

impl Default for BazaarStep {
    fn default() -> (r: BazaarStep)
        ensures
            r == BazaarStep::Initial,
    {
        BazaarStep::Initial
    }
}

/// How a slot is clicked.
#[derive(Clone, Copy, Debug, PartialEq, Eq, Structural)]
pub enum ClickType {
    Pickup,
    QuickMove,
    Swap,
    Clone,
    Throw,
    QuickCraft,
    PickupAll,
}

/// A click on a slot of a window, as it is sent to the server. No changed slots are reported.
#[derive(Clone, Copy, Debug, PartialEq, Eq)]
pub struct ContainerClick {
    pub container_id: i32,
    pub state_id: u32,
    pub slot_num: i16,
    pub button_num: u8,
    pub click_type: ClickType,
    /// The slot from which the item on the cursor was taken, if the click reports one.
    pub carried_from: Option<usize>,
}

/// A left click on `slot` of the window `window_id`, with the item of the slot `carried` on the
/// cursor.
pub open spec fn click(window_id: u8, slot: i16, carried: Option<usize>) -> ContainerClick {
    ContainerClick {
        container_id: window_id as i32,
        state_id: 0,
        slot_num: slot,
        button_num: 0,
        click_type: ClickType::Pickup,
        carried_from: carried,
    }
}

/// Click a window slot.
pub fn click_window_slot(window_id: u8, slot: i16) -> (r: ContainerClick)
    ensures
        r == click(window_id, slot, None),
{
    ContainerClick {
        container_id: window_id as i32,
        state_id: 0,
        slot_num: slot,
        button_num: 0,
        click_type: ClickType::Pickup,
        carried_from: None,
    }
}

/// Click a window slot while reporting the item currently on the cursor: the one that an earlier
/// click took from the slot `carried`.
pub fn click_window_slot_carrying(window_id: u8, slot: i16, carried: usize) -> (r: ContainerClick)
    ensures
        r == click(window_id, slot, Some(carried)),
{
    ContainerClick {
        container_id: window_id as i32,
        state_id: 0,
        slot_num: slot,
        button_num: 0,
        click_type: ClickType::Pickup,
        carried_from: Some(carried),
    }
}

/// Work that goes on beside the event loop.
#[derive(Clone, Copy, Debug, PartialEq, Eq, Structural)]
pub enum Background {
    /// Completes the startup if nothing else has done so in time.
    StartupWatchdog,
    /// Joins SkyBlock from the lobby.
    JoinSkyblock,
    /// Goes to the island and runs the startup workflow.
    GoToIsland,
}

/// A window that the server has opened.
#[derive(Debug, PartialEq)]
pub struct Window {
    pub id: u8,
    pub title: String,
}

/// A window, as the contracts speak of it.
#[verifier::ext_equal]
pub struct WindowView {
    pub id: u8,
    pub title: Seq<char>,
}

impl View for Window {
    type V = WindowView;

    open spec fn view(&self) -> WindowView {
        WindowView { id: self.id, title: self.title@ }
    }
}

/// One thing that the event loop does.
#[derive(Debug, PartialEq)]
pub enum Action {
    /// Write a message into the chat.
    Chat(String),
    Click(ContainerClick),
    /// Click this slot of whatever window is open by then.
    ClickOpenWindow(i16),
    /// Wait this many milliseconds.
    Wait(u64),
    /// Write these lines on the sign that was opened.
    WriteSign(Vec<String>),
    /// Report an event.
    Emit(BotEvent),
    /// Send a message to the flip service.
    Upload(String),
    SetState(BotState),
    SetBazaarStep(BazaarStep),
    SetAuctionStep(AuctionStep),
    Spawn(Background),
    /// Handle the window that was opened.
    Interact(Window),
    /// Run the startup workflow.
    RunStartup,
}

/// One thing that the event loop does, as the contracts speak of it.
#[verifier::ext_equal]
pub enum ActionView {
    Chat(Seq<char>),
    Click(ContainerClick),
    ClickOpenWindow(i16),
    Wait(u64),
    WriteSign(Seq<Seq<char>>),
    Emit(BotEventView),
    Upload(Seq<char>),
    SetState(BotState),
    SetBazaarStep(BazaarStep),
    SetAuctionStep(AuctionStep),
    Spawn(Background),
    Interact(WindowView),
    RunStartup,
}

impl View for Action {
    type V = ActionView;

    open spec fn view(&self) -> ActionView {
        match self {
            Action::Chat(message) => ActionView::Chat(message@),
            Action::Click(c) => ActionView::Click(*c),
            Action::ClickOpenWindow(slot) => ActionView::ClickOpenWindow(*slot),
            Action::Wait(ms) => ActionView::Wait(*ms),
            Action::WriteSign(lines) => ActionView::WriteSign(texts(lines@)),
            Action::Emit(event) => ActionView::Emit(event@),
            Action::Upload(message) => ActionView::Upload(message@),
            Action::SetState(state) => ActionView::SetState(*state),
            Action::SetBazaarStep(step) => ActionView::SetBazaarStep(*step),
            Action::SetAuctionStep(step) => ActionView::SetAuctionStep(*step),
            Action::Spawn(work) => ActionView::Spawn(*work),
            Action::Interact(window) => ActionView::Interact(window@),
            Action::RunStartup => ActionView::RunStartup,
        }
    }
}

/// What a list of actions does.
pub open spec fn actions_of(actions: Seq<Action>) -> Seq<ActionView> {
    actions.map_values(|a: Action| a@)
}

/// Nothing to do.
pub fn no_actions() -> (r: Vec<Action>)
    ensures
        actions_of(r@) == Seq::<ActionView>::empty(),
{
    let r: Vec<Action> = Vec::new();
    proof {
        assert(actions_of(r@) =~= Seq::empty());
    }
    r
}

/// One more action, behind those that are there.
pub fn then_do(actions: Vec<Action>, next: Action) -> (r: Vec<Action>)
    ensures
        actions_of(r@) == actions_of(actions@).push(next@),
{
    let ghost before = actions@;
    let mut r = actions;
    r.push(next);
    proof {
        assert(actions_of(r@) =~= actions_of(before).push(next@));
    }
    r
}

/// A list of one action.
pub fn just(a: Action) -> (r: Vec<Action>)
    ensures
        actions_of(r@) == seq![a@],
{
    let r = then_do(no_actions(), a);
    proof {
        assert(actions_of(r@) =~= seq![a@]);
    }
    r
}

/// A list of two actions.
pub fn both(a: Action, b: Action) -> (r: Vec<Action>)
    ensures
        actions_of(r@) == seq![a@, b@],
{
    let r = then_do(just(a), b);
    proof {
        assert(actions_of(r@) =~= seq![a@, b@]);
    }
    r
}

/// A list of three actions.
pub fn three(a: Action, b: Action, c: Action) -> (r: Vec<Action>)
    ensures
        actions_of(r@) == seq![a@, b@, c@],
{
    let r = then_do(both(a, b), c);
    proof {
        assert(actions_of(r@) =~= seq![a@, b@, c@]);
    }
    r
}

/// Write a message into the chat.
pub fn chat(message: &str) -> (r: Action)
    ensures
        r@ == ActionView::Chat(message@),
{
    Action::Chat(message.to_owned())
}

/// The four lines of a sign with `text` in the first of them.
pub open spec fn sign_lines(text: Seq<char>) -> Seq<Seq<char>> {
    seq![text, Seq::empty(), Seq::empty(), Seq::empty()]
}

/// Write `text` on the sign that was opened.
pub fn write_sign(text: String) -> (r: Action)
    ensures
        r@ == ActionView::WriteSign(sign_lines(text@)),
{
    let mut lines: Vec<String> = Vec::new();
    lines.push(text);
    lines.push(String::new());
    lines.push(String::new());
    lines.push(String::new());
    proof {
        assert(texts(lines@) =~= sign_lines(text@));
    }
    Action::WriteSign(lines)
}

} // verus!
