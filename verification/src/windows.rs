//! What the bot does about the windows that open while it buys, orders, claims and sells.
//!
//! Handling a window takes time: the slots of a window arrive after the window itself, and the bot
//! waits between clicks. So it goes in phases. Each phase reads the menu as it is by then, says what
//! to do, and names the phase to go on with once that has been done.

use vstd::prelude::*;

use crate::actions::{
    actions_of, both, click, click_window_slot, click_window_slot_carrying, just, no_actions,
    then_do, three, Action, ActionView, AuctionStep, BazaarStep, BotEvent, BotEventView, Window,
    WindowView,
};
use crate::client::{BotClientState, ClientView};
use crate::inventory::{Menu, MenuView};
use crate::items::{
    display_name, find_slot_by_name, first_where, get_item_display_name_from_slot,
    get_item_lore_from_slot, is_claimable, is_claimable_auction_slot, items_of, lore, slot_named,
    ItemStack, ItemView,
};
use crate::letters::{lowercase, to_lowercase};
use crate::text::{contains, join, joined, occurs_in};
use crate::types::BotState;

verus! {

/// How long the bot polls for the slots of a bazaar window, in milliseconds.
pub const POLL_LIMIT_MS: u64 = 1500;

/// How long it waits between two polls, in milliseconds.
pub const POLL_INTERVAL_MS: u64 = 50;

/// What was known of the bazaar order when its window opened.
#[derive(Debug, PartialEq)]
pub struct OrderContext {
    pub item_name: String,
    pub is_buy_order: bool,
    pub step: BazaarStep,
}

/// What was known of the order, as the contracts speak of it.
#[verifier::ext_equal]
pub struct ContextView {
    pub item_name: Seq<char>,
    pub is_buy_order: bool,
    pub step: BazaarStep,
}

impl View for OrderContext {
    type V = ContextView;

    open spec fn view(&self) -> ContextView {
        ContextView {
            item_name: self.item_name@,
            is_buy_order: self.is_buy_order,
            step: self.step,
        }
    }
}

impl OrderContext {
    /// A copy that says the same.
    pub fn copy(&self) -> (r: OrderContext)
        ensures
            r@ == self@,
    {
        OrderContext {
            item_name: self.item_name.clone(),
            is_buy_order: self.is_buy_order,
            step: self.step,
        }
    }
}

/// How far the handling of a window has come.
#[derive(Debug, PartialEq)]
pub enum WindowPhase {
    /// The window has just opened.
    Opened,
    /// Polling for the button that creates the order.
    BazaarButton(OrderContext),
    /// Polling for the item among the search results.
    BazaarSearch(OrderContext),
    /// The slots of an amount, price or confirm screen should be there.
    BazaarScreen(OrderContext),
    /// The order has been confirmed.
    BazaarPlaced(OrderContext),
    /// The slots of "Your Bids" should be there.
    ClaimBids,
    /// The slots of the auction house should be there.
    ClaimHouse,
    /// The slots of "Manage Auctions" should be there.
    ClaimManage,
    /// The slots of an auction's view should be there.
    ClaimView,
    /// The slots of a window of the listing flow should be there.
    Selling,
    /// Nothing more is to be done about the window.
    Done,
}

/// How far the handling of a window has come, as the contracts speak of it.
#[verifier::ext_equal]
pub enum PhaseView {
    Opened,
    BazaarButton(ContextView),
    BazaarSearch(ContextView),
    BazaarScreen(ContextView),
    BazaarPlaced(ContextView),
    ClaimBids,
    ClaimHouse,
    ClaimManage,
    ClaimView,
    Selling,
    Done,
}

impl View for WindowPhase {
    type V = PhaseView;

    open spec fn view(&self) -> PhaseView {
        match self {
            WindowPhase::Opened => PhaseView::Opened,
            WindowPhase::BazaarButton(order) => PhaseView::BazaarButton(order@),
            WindowPhase::BazaarSearch(order) => PhaseView::BazaarSearch(order@),
            WindowPhase::BazaarScreen(order) => PhaseView::BazaarScreen(order@),
            WindowPhase::BazaarPlaced(order) => PhaseView::BazaarPlaced(order@),
            WindowPhase::ClaimBids => PhaseView::ClaimBids,
            WindowPhase::ClaimHouse => PhaseView::ClaimHouse,
            WindowPhase::ClaimManage => PhaseView::ClaimManage,
            WindowPhase::ClaimView => PhaseView::ClaimView,
            WindowPhase::Selling => PhaseView::Selling,
            WindowPhase::Done => PhaseView::Done,
        }
    }
}

/// What to do, and the phase to go on with afterwards.
#[derive(Debug, PartialEq)]
pub struct WindowStep {
    pub actions: Vec<Action>,
    pub next: WindowPhase,
}

/// What to do and how to go on, as the contracts speak of it.
#[verifier::ext_equal]
pub struct StepView {
    pub actions: Seq<ActionView>,
    pub next: PhaseView,
}

impl View for WindowStep {
    type V = StepView;

    open spec fn view(&self) -> StepView {
        StepView { actions: actions_of(self.actions@), next: self.next@ }
    }
}

// ---- What is to be done ----

/// A click on the slot `slot` of the window `id`.
pub open spec fn click_slot(id: u8, slot: int) -> ActionView {
    ActionView::Click(click(id, slot as i16, None))
}

/// Going idle.
pub open spec fn go_idle() -> ActionView {
    ActionView::SetState(BotState::Idle)
}

/// These actions, and then nothing more.
pub open spec fn finish(actions: Seq<ActionView>) -> StepView {
    StepView { actions, next: PhaseView::Done }
}

/// The id that the window after the window `id` will have.
pub open spec fn next_window_id(id: u8) -> int {
    if id == 100 {
        1
    } else {
        id + 1
    }
}

/// Buying an auction: the auction's view leads to the purchase by slot 31, and the confirmation is
/// slot 11. With the confirmation skipped, slot 31 is clicked twice, against a lost packet, and the
/// confirmation of the window to come is clicked before it has opened.
pub open spec fn on_purchasing(s: ClientView, window: WindowView) -> StepView {
    if occurs_in(window.title, "BIN Auction View"@) {
        if s.confirm_skip {
            finish(
                seq![
                    click_slot(window.id, 31),
                    click_slot(window.id, 31),
                    click_slot(next_window_id(window.id) as u8, 11),
                ],
            )
        } else {
            finish(seq![click_slot(window.id, 31)])
        }
    } else if occurs_in(window.title, "Confirm Purchase"@) {
        finish(seq![click_slot(window.id, 11), go_idle()])
    } else {
        finish(Seq::empty())
    }
}

/// The title is that of a page of search results.
pub open spec fn is_search_page(title: Seq<char>) -> bool {
    occurs_in(title, "Bazaar"@) && !occurs_in(title, "➜"@)
}

/// The button that creates the order.
pub open spec fn order_button(is_buy_order: bool) -> Seq<char> {
    if is_buy_order {
        "Create Buy Order"@
    } else {
        "Create Sell Offer"@
    }
}

/// Going on where there is no button that creates the order: with the search for the item on the
/// first page of search results, otherwise with what the screen offers.
pub open spec fn past_button(order: ContextView, title: Seq<char>) -> StepView {
    if is_search_page(title) && order.step is Initial {
        StepView {
            actions: seq![ActionView::SetBazaarStep(BazaarStep::SearchResults)],
            next: PhaseView::BazaarSearch(order),
        }
    } else {
        StepView { actions: seq![ActionView::Wait(200)], next: PhaseView::BazaarScreen(order) }
    }
}

/// Polling for the button that creates the order. It is not waited for where the screen asks for an
/// amount or a price, or shows search results.
pub open spec fn on_button(
    order: ContextView,
    window: WindowView,
    slots: Seq<ItemView>,
    elapsed_ms: u64,
) -> StepView {
    match slot_named(slots, order_button(order.is_buy_order)) {
        Some(i) => finish(
            seq![
                ActionView::SetBazaarStep(BazaarStep::SelectOrderType),
                ActionView::Wait(200),
                click_slot(window.id, i),
            ],
        ),
        None => if slot_named(slots, "Custom Amount"@) is Some || slot_named(
            slots,
            "Custom Price"@,
        ) is Some || is_search_page(window.title) || elapsed_ms >= POLL_LIMIT_MS {
            past_button(order, window.title)
        } else {
            StepView {
                actions: seq![ActionView::Wait(POLL_INTERVAL_MS)],
                next: PhaseView::BazaarButton(order),
            }
        },
    }
}

/// Polling for the item among the search results.
pub open spec fn on_search(
    order: ContextView,
    window: WindowView,
    slots: Seq<ItemView>,
    elapsed_ms: u64,
) -> StepView {
    match slot_named(slots, order.item_name) {
        Some(i) => finish(seq![ActionView::Wait(200), click_slot(window.id, i)]),
        None => if elapsed_ms >= POLL_LIMIT_MS {
            finish(seq![go_idle()])
        } else {
            StepView {
                actions: seq![ActionView::Wait(POLL_INTERVAL_MS)],
                next: PhaseView::BazaarSearch(order),
            }
        },
    }
}

/// The screens behind the order button: the amount (of a buy order), the price, and, once the price
/// is set, the confirmation.
pub open spec fn on_screen(
    order: ContextView,
    window: WindowView,
    slots: Seq<ItemView>,
) -> StepView {
    let amount = slot_named(slots, "Custom Amount"@);
    let price = slot_named(slots, "Custom Price"@);
    if amount is Some && order.is_buy_order && order.step is SelectOrderType {
        finish(
            seq![
                ActionView::SetBazaarStep(BazaarStep::SetAmount),
                click_slot(window.id, amount->Some_0),
            ],
        )
    } else if price is Some && (order.step is SelectOrderType || order.step is SetAmount) {
        finish(
            seq![
                ActionView::SetBazaarStep(BazaarStep::SetPrice),
                click_slot(window.id, price->Some_0),
            ],
        )
    } else if order.step is SetPrice {
        StepView {
            actions: seq![
                ActionView::SetBazaarStep(BazaarStep::Confirm),
                click_slot(window.id, 13),
                ActionView::Wait(500),
            ],
            next: PhaseView::BazaarPlaced(order),
        }
    } else if order.step is Initial && occurs_in(window.title, "➜"@) {
        finish(seq![go_idle()])
    } else {
        finish(Seq::empty())
    }
}

/// The order has been placed: it is announced, with the amount and price by then, and the bot goes
/// idle.
pub open spec fn on_placed(s: ClientView, order: ContextView) -> StepView {
    finish(
        seq![
            ActionView::Emit(
                BotEventView::BazaarOrderPlaced(
                    order.item_name,
                    s.bazaar_amount,
                    s.bazaar_price_per_unit,
                    order.is_buy_order,
                ),
            ),
            go_idle(),
        ],
    )
}

/// The item is the cauldron that claims everything.
pub open spec fn is_claim_all(item: ItemView) -> bool {
    let name = match display_name(item) {
        Some(name) => name,
        None => Seq::empty(),
    };
    occurs_in(lowercase(item.kind), "cauldron"@) && occurs_in(lowercase(name), "claim"@)
}

/// The item's description says that it was sold.
pub open spec fn is_sold(item: ItemView) -> bool {
    let lines = lowercase(joined(lore(item), "\n"@));
    occurs_in(lines, "status:"@) && occurs_in(lines, "sold"@)
}

/// "Your Bids": everything is claimed at once, or else the first item that was sold is opened, or
/// else there is nothing to claim.
pub open spec fn on_bids(window: WindowView, slots: Seq<ItemView>) -> StepView {
    match first_where(slots, |item: ItemView| is_claim_all(item), 0) {
        Some(i) => finish(seq![click_slot(window.id, i), go_idle()]),
        None => match first_where(slots, |item: ItemView| is_sold(item), 0) {
            Some(i) => finish(seq![click_slot(window.id, i)]),
            None => finish(seq![go_idle()]),
        },
    }
}

/// "Manage Auctions": everything is claimed at once, or else the first item that can be claimed is
/// opened, or else there is nothing to claim.
pub open spec fn on_manage(window: WindowView, slots: Seq<ItemView>) -> StepView {
    match slot_named(slots, "Claim All"@) {
        Some(i) => finish(seq![click_slot(window.id, i), go_idle()]),
        None => match first_where(slots, |item: ItemView| is_claimable(item), 0) {
            Some(i) => finish(seq![click_slot(window.id, i)]),
            None => finish(seq![go_idle()]),
        },
    }
}

/// Claiming what was bought: from the auction house to "Your Bids" by slot 13, and in an auction's
/// view by slot 31.
pub open spec fn on_claiming_purchased(window: WindowView) -> StepView {
    if occurs_in(window.title, "Auction House"@) {
        finish(seq![ActionView::Wait(300), click_slot(window.id, 13)])
    } else if occurs_in(window.title, "Your Bids"@) {
        StepView { actions: seq![ActionView::Wait(300)], next: PhaseView::ClaimBids }
    } else if occurs_in(window.title, "Auction View"@) {
        finish(seq![ActionView::Wait(200), click_slot(window.id, 31), go_idle()])
    } else {
        finish(Seq::empty())
    }
}

/// Claiming what was sold: the slots are needed in every window.
pub open spec fn on_claiming_sold(window: WindowView) -> StepView {
    if occurs_in(window.title, "Auction House"@) {
        StepView { actions: seq![ActionView::Wait(300)], next: PhaseView::ClaimHouse }
    } else if occurs_in(window.title, "Manage Auctions"@) {
        StepView { actions: seq![ActionView::Wait(300)], next: PhaseView::ClaimManage }
    } else if occurs_in(window.title, "Auction View"@) {
        StepView { actions: seq![ActionView::Wait(200)], next: PhaseView::ClaimView }
    } else {
        finish(Seq::empty())
    }
}

/// The slot with the item to auction: the one that was named, if there is an item in it, or else
/// the first with the item's name. Inventory slots are numbered from 9, and stand in the menu from
/// the player's first slot on.
pub open spec fn item_slot(s: ClientView, menu: MenuView) -> Option<int> {
    let by_name = slot_named(menu.slots, s.auction_item_name);
    match s.auction_item_slot {
        Some(n) => {
            let at = menu.player_start + (n - 9);
            if 9 <= n <= 44 && at < menu.slots.len() && !menu.slots[at].empty {
                Some(at)
            } else {
                by_name
            }
        },
        None => by_name,
    }
}

/// Picking up the item to auction and putting it on the price setter, slot 31.
pub open spec fn on_item_choice(s: ClientView, window: WindowView, menu: MenuView) -> StepView {
    match item_slot(s, menu) {
        Some(i) => finish(
            seq![
                ActionView::Wait(200),
                click_slot(window.id, i),
                ActionView::Wait(300),
                ActionView::SetAuctionStep(AuctionStep::PriceSign),
                ActionView::Click(click(window.id, 31, Some(i as usize))),
            ],
        ),
        None => finish(seq![go_idle()]),
    }
}

/// Advancing to `step` by a click on `slot`.
pub open spec fn advance(step: AuctionStep, id: u8, slot: int) -> StepView {
    finish(
        seq![ActionView::SetAuctionStep(step), ActionView::Wait(200), click_slot(id, slot)],
    )
}

/// The button's description says that no more auctions can be put up.
pub open spec fn is_at_auction_limit(button: ItemView) -> bool {
    let text = lowercase(joined(lore(button), " "@));
    occurs_in(text, "maximum"@) || occurs_in(text, "limit"@)
}

/// "Manage Auctions", on the way to a new auction.
pub open spec fn on_create_button(window: WindowView, slots: Seq<ItemView>) -> StepView {
    match slot_named(slots, "Create Auction"@) {
        Some(i) => if is_at_auction_limit(slots[i]) {
            finish(seq![go_idle()])
        } else {
            advance(AuctionStep::ClickCreate, window.id, i)
        },
        None => finish(seq![go_idle()]),
    }
}

/// The title is that of the window in which the type of auction is chosen.
pub open spec fn is_type_choice(title: Seq<char>) -> bool {
    occurs_in(title, "Create Auction"@) && !occurs_in(title, "BIN"@)
}

/// Putting an item up for auction, step by step.
pub open spec fn on_selling(s: ClientView, window: WindowView, menu: MenuView) -> StepView {
    let title = window.title;
    let ignored = finish(Seq::empty());
    match s.auction_step {
        AuctionStep::Initial => if occurs_in(title, "Auction House"@) {
            advance(AuctionStep::OpenManage, window.id, 15)
        } else {
            ignored
        },
        AuctionStep::OpenManage => if occurs_in(title, "Manage Auctions"@) {
            on_create_button(window, menu.slots)
        } else if is_type_choice(title) {
            advance(AuctionStep::SelectBIN, window.id, 48)
        } else if occurs_in(title, "Create BIN Auction"@) {
            on_item_choice(s, window, menu)
        } else {
            ignored
        },
        AuctionStep::ClickCreate => if is_type_choice(title) {
            advance(AuctionStep::SelectBIN, window.id, 48)
        } else if occurs_in(title, "Create BIN Auction"@) {
            on_item_choice(s, window, menu)
        } else {
            ignored
        },
        AuctionStep::SelectBIN => if occurs_in(title, "Create BIN Auction"@) {
            on_item_choice(s, window, menu)
        } else {
            ignored
        },
        AuctionStep::PriceSign => ignored,
        AuctionStep::SetDuration => if occurs_in(title, "Create BIN Auction"@) {
            advance(AuctionStep::DurationSign, window.id, 33)
        } else {
            ignored
        },
        AuctionStep::DurationSign => if occurs_in(title, "Auction Duration"@) {
            finish(seq![ActionView::Wait(200), click_slot(window.id, 16)])
        } else {
            ignored
        },
        AuctionStep::ConfirmSell => if occurs_in(title, "Create BIN Auction"@) {
            advance(AuctionStep::FinalConfirm, window.id, 29)
        } else {
            ignored
        },
        AuctionStep::FinalConfirm => if occurs_in(title, "Confirm"@) {
            finish(
                seq![
                    ActionView::Wait(200),
                    click_slot(window.id, 11),
                    ActionView::Wait(500),
                    go_idle(),
                ],
            )
        } else {
            ignored
        },
    }
}

/// What is known of the order now.
pub open spec fn current_order(s: ClientView) -> ContextView {
    ContextView {
        item_name: s.bazaar_item_name,
        is_buy_order: s.bazaar_is_buy_order,
        step: s.bazaar_step,
    }
}

/// What is done about a window as it opens. The bot's state decides.
pub open spec fn on_opened(s: ClientView, window: WindowView) -> StepView {
    match s.bot_state {
        BotState::Purchasing => on_purchasing(s, window),
        BotState::Bazaar => if s.bazaar_step is SelectOrderType {
            past_button(current_order(s), window.title)
        } else {
            StepView { actions: Seq::empty(), next: PhaseView::BazaarButton(current_order(s)) }
        },
        BotState::ClaimingPurchased => on_claiming_purchased(window),
        BotState::ClaimingSold => on_claiming_sold(window),
        BotState::Selling => StepView {
            actions: seq![ActionView::Wait(300)],
            next: PhaseView::Selling,
        },
        _ => finish(Seq::empty()),
    }
}

/// What is done about a window in a phase of its handling.
pub open spec fn on_window(
    s: ClientView,
    phase: PhaseView,
    window: WindowView,
    menu: MenuView,
    elapsed_ms: u64,
) -> StepView {
    match phase {
        PhaseView::Opened => on_opened(s, window),
        PhaseView::BazaarButton(order) => on_button(order, window, menu.slots, elapsed_ms),
        PhaseView::BazaarSearch(order) => on_search(order, window, menu.slots, elapsed_ms),
        PhaseView::BazaarScreen(order) => on_screen(order, window, menu.slots),
        PhaseView::BazaarPlaced(order) => on_placed(s, order),
        PhaseView::ClaimBids => on_bids(window, menu.slots),
        PhaseView::ClaimHouse => match slot_named(menu.slots, "Manage Auctions"@) {
            Some(i) => finish(seq![click_slot(window.id, i)]),
            None => finish(seq![go_idle()]),
        },
        PhaseView::ClaimManage => on_manage(window, menu.slots),
        PhaseView::ClaimView => match slot_named(menu.slots, "Claim"@) {
            Some(i) => finish(seq![click_slot(window.id, i)]),
            None => finish(seq![click_slot(window.id, 31)]),
        },
        PhaseView::Selling => on_selling(s, window, menu),
        PhaseView::Done => finish(Seq::empty()),
    }
}

// ---- Doing it ----

/// Nothing more is to be done than these actions.
fn finished(actions: Vec<Action>) -> (r: WindowStep)
    ensures
        r@ == finish(actions_of(actions@)),
{
    WindowStep { actions, next: WindowPhase::Done }
}

/// A click on the slot `slot` of the window `id`.
fn clicking(id: u8, slot: usize) -> (r: Action)
    ensures
        r@ == click_slot(id, slot as int),
{
    Action::Click(click_window_slot(id, #[verifier::truncate] (slot as i16)))
}

/// Going idle.
fn going_idle() -> (r: Action)
    ensures
        r@ == go_idle(),
{
    Action::SetState(BotState::Idle)
}

/// Only a click on the slot `slot` of the window `id`.
fn only_click(id: u8, slot: usize) -> (r: WindowStep)
    ensures
        r@ == finish(seq![click_slot(id, slot as int)]),
{
    finished(just(clicking(id, slot)))
}

/// Only a click on the slot `slot` of the window `id`, and then going idle.
fn click_and_idle(id: u8, slot: usize) -> (r: WindowStep)
    ensures
        r@ == finish(seq![click_slot(id, slot as int), go_idle()]),
{
    finished(both(clicking(id, slot), going_idle()))
}

/// Only going idle.
fn only_idle() -> (r: WindowStep)
    ensures
        r@ == finish(seq![go_idle()]),
{
    finished(just(going_idle()))
}

/// Waiting, and then going on with `next`.
fn wait_for(ms: u64, next: WindowPhase) -> (r: WindowStep)
    ensures
        r@ == (StepView { actions: seq![ActionView::Wait(ms)], next: next@ }),
{
    WindowStep { actions: just(Action::Wait(ms)), next }
}

/// Handle a window while an auction is bought.
fn purchase_in(state: &BotClientState, window: &Window) -> (r: WindowStep)
    requires
        state.confirm_skip && occurs_in(window.title@, "BIN Auction View"@) ==> window.id < u8::MAX,
    ensures
        r@ == on_purchasing(state@, window@),
{
    if contains(window.title.as_str(), "BIN Auction View") {
        if state.confirm_skip {
            let next_id: u8 = if window.id == 100 {
                1
            } else {
                window.id + 1
            };
            finished(three(clicking(window.id, 31), clicking(window.id, 31), clicking(next_id, 11)))
        } else {
            only_click(window.id, 31)
        }
    } else if contains(window.title.as_str(), "Confirm Purchase") {
        click_and_idle(window.id, 11)
    } else {
        finished(no_actions())
    }
}

/// Whether the title is that of a page of search results.
fn shows_search_page(title: &str) -> (r: bool)
    ensures
        r == is_search_page(title@),
{
    contains(title, "Bazaar") && !contains(title, "➜")
}

/// Go on where there is no button that creates the order.
fn go_past_button(order: &OrderContext, title: &str) -> (r: WindowStep)
    ensures
        r@ == past_button(order@, title@),
{
    if shows_search_page(title) && order.step == BazaarStep::Initial {
        WindowStep {
            actions: just(Action::SetBazaarStep(BazaarStep::SearchResults)),
            next: WindowPhase::BazaarSearch(order.copy()),
        }
    } else {
        wait_for(200, WindowPhase::BazaarScreen(order.copy()))
    }
}

/// Poll for the button that creates the order.
fn poll_button(
    order: &OrderContext,
    window: &Window,
    slots: &Vec<ItemStack>,
    elapsed_ms: u64,
) -> (r: WindowStep)
    ensures
        r@ == on_button(order@, window@, items_of(slots@), elapsed_ms),
{
    let button = if order.is_buy_order {
        "Create Buy Order"
    } else {
        "Create Sell Offer"
    };
    match find_slot_by_name(slots, button) {
        Some(i) => finished(
            three(
                Action::SetBazaarStep(BazaarStep::SelectOrderType),
                Action::Wait(200),
                clicking(window.id, i),
            ),
        ),
        None => if find_slot_by_name(slots, "Custom Amount").is_some() || find_slot_by_name(
            slots,
            "Custom Price",
        ).is_some() || shows_search_page(window.title.as_str()) || elapsed_ms >= POLL_LIMIT_MS {
            go_past_button(order, window.title.as_str())
        } else {
            wait_for(POLL_INTERVAL_MS, WindowPhase::BazaarButton(order.copy()))
        },
    }
}

/// Poll for the item among the search results.
fn poll_search(
    order: &OrderContext,
    window: &Window,
    slots: &Vec<ItemStack>,
    elapsed_ms: u64,
) -> (r: WindowStep)
    ensures
        r@ == on_search(order@, window@, items_of(slots@), elapsed_ms),
{
    match find_slot_by_name(slots, order.item_name.as_str()) {
        Some(i) => finished(both(Action::Wait(200), clicking(window.id, i))),
        None => if elapsed_ms >= POLL_LIMIT_MS {
            only_idle()
        } else {
            wait_for(POLL_INTERVAL_MS, WindowPhase::BazaarSearch(order.copy()))
        },
    }
}

/// Use an amount, price or confirm screen.
fn use_screen(order: &OrderContext, window: &Window, slots: &Vec<ItemStack>) -> (r: WindowStep)
    ensures
        r@ == on_screen(order@, window@, items_of(slots@)),
{
    let amount = find_slot_by_name(slots, "Custom Amount");
    let price = find_slot_by_name(slots, "Custom Price");
    if let (Some(i), true) = (
        amount,
        order.is_buy_order && order.step == BazaarStep::SelectOrderType,
    ) {
        finished(both(Action::SetBazaarStep(BazaarStep::SetAmount), clicking(window.id, i)))
    } else if let (Some(i), true) = (
        price,
        order.step == BazaarStep::SelectOrderType || order.step == BazaarStep::SetAmount,
    ) {
        finished(both(Action::SetBazaarStep(BazaarStep::SetPrice), clicking(window.id, i)))
    } else if order.step == BazaarStep::SetPrice {
        WindowStep {
            actions: three(
                Action::SetBazaarStep(BazaarStep::Confirm),
                clicking(window.id, 13),
                Action::Wait(500),
            ),
            next: WindowPhase::BazaarPlaced(order.copy()),
        }
    } else if order.step == BazaarStep::Initial && contains(window.title.as_str(), "➜") {
        only_idle()
    } else {
        finished(no_actions())
    }
}

/// Announce an order that has been placed.
fn announce_order(state: &BotClientState, order: &OrderContext) -> (r: WindowStep)
    ensures
        r@ == on_placed(state@, order@),
{
    finished(
        both(
            Action::Emit(
                BotEvent::BazaarOrderPlaced {
                    item_name: order.item_name.clone(),
                    amount: state.bazaar_amount,
                    price_per_unit: state.bazaar_price_per_unit.clone(),
                    is_buy_order: order.is_buy_order,
                },
            ),
            going_idle(),
        ),
    )
}

/// Whether a kind and a name, both in lower case, are those of the cauldron that claims everything.
pub fn names_claim_all(kind: &str, name: &str) -> (r: bool)
    ensures
        r == (occurs_in(kind@, "cauldron"@) && occurs_in(name@, "claim"@)),
{
    contains(kind, "cauldron") && contains(name, "claim")
}

/// Whether a description in lower case says that the item was sold.
pub fn says_sold(lines: &str) -> (r: bool)
    ensures
        r == (occurs_in(lines@, "status:"@) && occurs_in(lines@, "sold"@)),
{
    contains(lines, "status:") && contains(lines, "sold")
}

/// Whether a description in lower case says that no more auctions can be put up.
pub fn says_auction_limit(text: &str) -> (r: bool)
    ensures
        r == (occurs_in(text@, "maximum"@) || occurs_in(text@, "limit"@)),
{
    contains(text, "maximum") || contains(text, "limit")
}

/// Whether the item is the cauldron that claims everything.
fn is_claim_all_item(item: &ItemStack) -> (r: bool)
    ensures
        r == is_claim_all(item@),
{
    let name = match get_item_display_name_from_slot(item) {
        Some(name) => name,
        None => String::new(),
    };
    let name_lower = to_lowercase(name.as_str());
    let kind_lower = to_lowercase(item.kind.as_str());
    names_claim_all(kind_lower.as_str(), name_lower.as_str())
}

/// Whether the item's description says that it was sold.
fn is_sold_item(item: &ItemStack) -> (r: bool)
    ensures
        r == is_sold(item@),
{
    let lines = get_item_lore_from_slot(item);
    let lower = to_lowercase(join(&lines, "\n").as_str());
    says_sold(lower.as_str())
}

/// Whether the button's description says that no more auctions can be put up.
fn is_limit_reached(button: &ItemStack) -> (r: bool)
    ensures
        r == is_at_auction_limit(button@),
{
    let lines = get_item_lore_from_slot(button);
    let lower = to_lowercase(join(&lines, " ").as_str());
    says_auction_limit(lower.as_str())
}

/// The first slot with the cauldron that claims everything.
fn find_claim_all(slots: &Vec<ItemStack>) -> (r: Option<usize>)
    ensures
        match r {
            Some(i) => first_where(items_of(slots@), |item: ItemView| is_claim_all(item), 0)
                == Some(i as int),
            None => first_where(items_of(slots@), |item: ItemView| is_claim_all(item), 0) is None,
        },
{
    let ghost all = items_of(slots@);
    let ghost wanted = |item: ItemView| is_claim_all(item);
    let mut i: usize = 0;
    while i < slots.len()
        invariant
            i <= slots@.len(),
            all == items_of(slots@),
            wanted == (|item: ItemView| is_claim_all(item)),
            first_where(all, wanted, 0) == first_where(all, wanted, i as int),
        decreases slots@.len() - i,
    {
        if is_claim_all_item(&slots[i]) {
            return Some(i);
        }
        i = i + 1;
    }
    None
}

/// The first slot with an item that was sold.
fn find_sold(slots: &Vec<ItemStack>) -> (r: Option<usize>)
    ensures
        match r {
            Some(i) => first_where(items_of(slots@), |item: ItemView| is_sold(item), 0) == Some(
                i as int,
            ),
            None => first_where(items_of(slots@), |item: ItemView| is_sold(item), 0) is None,
        },
{
    let ghost all = items_of(slots@);
    let ghost wanted = |item: ItemView| is_sold(item);
    let mut i: usize = 0;
    while i < slots.len()
        invariant
            i <= slots@.len(),
            all == items_of(slots@),
            wanted == (|item: ItemView| is_sold(item)),
            first_where(all, wanted, 0) == first_where(all, wanted, i as int),
        decreases slots@.len() - i,
    {
        if is_sold_item(&slots[i]) {
            return Some(i);
        }
        i = i + 1;
    }
    None
}

/// The first slot with an auction that can be claimed.
fn find_claimable(slots: &Vec<ItemStack>) -> (r: Option<usize>)
    ensures
        match r {
            Some(i) => first_where(items_of(slots@), |item: ItemView| is_claimable(item), 0)
                == Some(i as int),
            None => first_where(items_of(slots@), |item: ItemView| is_claimable(item), 0) is None,
        },
{
    let ghost all = items_of(slots@);
    let ghost wanted = |item: ItemView| is_claimable(item);
    let mut i: usize = 0;
    while i < slots.len()
        invariant
            i <= slots@.len(),
            all == items_of(slots@),
            wanted == (|item: ItemView| is_claimable(item)),
            first_where(all, wanted, 0) == first_where(all, wanted, i as int),
        decreases slots@.len() - i,
    {
        if is_claimable_auction_slot(&slots[i]) {
            return Some(i);
        }
        i = i + 1;
    }
    None
}

/// Claim from "Your Bids".
fn claim_bids(window: &Window, slots: &Vec<ItemStack>) -> (r: WindowStep)
    ensures
        r@ == on_bids(window@, items_of(slots@)),
{
    match find_claim_all(slots) {
        Some(i) => click_and_idle(window.id, i),
        None => match find_sold(slots) {
            Some(i) => only_click(window.id, i),
            None => only_idle(),
        },
    }
}

/// Claim from "Manage Auctions".
fn claim_managed(window: &Window, slots: &Vec<ItemStack>) -> (r: WindowStep)
    ensures
        r@ == on_manage(window@, items_of(slots@)),
{
    match find_slot_by_name(slots, "Claim All") {
        Some(i) => click_and_idle(window.id, i),
        None => match find_claimable(slots) {
            Some(i) => only_click(window.id, i),
            None => only_idle(),
        },
    }
}

/// Handle a window while what was bought is claimed.
fn claim_purchased_in(window: &Window) -> (r: WindowStep)
    ensures
        r@ == on_claiming_purchased(window@),
{
    if contains(window.title.as_str(), "Auction House") {
        finished(both(Action::Wait(300), clicking(window.id, 13)))
    } else if contains(window.title.as_str(), "Your Bids") {
        wait_for(300, WindowPhase::ClaimBids)
    } else if contains(window.title.as_str(), "Auction View") {
        finished(three(Action::Wait(200), clicking(window.id, 31), going_idle()))
    } else {
        finished(no_actions())
    }
}

/// Handle a window while what was sold is claimed.
fn claim_sold_in(window: &Window) -> (r: WindowStep)
    ensures
        r@ == on_claiming_sold(window@),
{
    if contains(window.title.as_str(), "Auction House") {
        wait_for(300, WindowPhase::ClaimHouse)
    } else if contains(window.title.as_str(), "Manage Auctions") {
        wait_for(300, WindowPhase::ClaimManage)
    } else if contains(window.title.as_str(), "Auction View") {
        wait_for(200, WindowPhase::ClaimView)
    } else {
        finished(no_actions())
    }
}

/// The slot with the item to auction.
pub fn find_item_slot(state: &BotClientState, menu: &Menu) -> (r: Option<usize>)
    ensures
        match r {
            Some(i) => item_slot(state@, menu@) == Some(i as int) && i < menu.slots@.len(),
            None => item_slot(state@, menu@) is None,
        },
{
    if let Some(n) = state.auction_item_slot {
        if 9 <= n && n <= 44 {
            let offset: usize = (n - 9) as usize;
            let size: usize = menu.slots.len();
            if menu.player_start < size && offset < size - menu.player_start {
                let at: usize = menu.player_start + offset;
                proof {
                    assert(menu@.slots[at as int] == menu.slots@[at as int]@);
                }
                if !menu.slots[at].empty {
                    return Some(at);
                }
            }
        }
    }
    find_slot_by_name(&menu.slots, state.auction_item_name.as_str())
}

/// Pick up the item to auction and put it on the price setter.
fn choose_item(state: &BotClientState, window: &Window, menu: &Menu) -> (r: WindowStep)
    ensures
        r@ == on_item_choice(state@, window@, menu@),
{
    match find_item_slot(state, menu) {
        Some(i) => {
            let picked = three(Action::Wait(200), clicking(window.id, i), Action::Wait(300));
            let set = then_do(picked, Action::SetAuctionStep(AuctionStep::PriceSign));
            let placed = then_do(set, Action::Click(click_window_slot_carrying(window.id, 31, i)));
            proof {
                assert(actions_of(placed@) =~= on_item_choice(state@, window@, menu@).actions);
            }
            finished(placed)
        },
        None => only_idle(),
    }
}

/// Advance to `step` by a click on `slot`.
fn advancing(step: AuctionStep, id: u8, slot: usize) -> (r: WindowStep)
    ensures
        r@ == advance(step, id, slot as int),
{
    finished(three(Action::SetAuctionStep(step), Action::Wait(200), clicking(id, slot)))
}

/// Go from "Manage Auctions" to a new auction.
fn use_create_button(window: &Window, slots: &Vec<ItemStack>) -> (r: WindowStep)
    ensures
        r@ == on_create_button(window@, items_of(slots@)),
{
    match find_slot_by_name(slots, "Create Auction") {
        Some(i) => {
            proof {
                assert(items_of(slots@)[i as int] == slots@[i as int]@);
            }
            if is_limit_reached(&slots[i]) {
                only_idle()
            } else {
                advancing(AuctionStep::ClickCreate, window.id, i)
            }
        },
        None => only_idle(),
    }
}

/// Handle a window while an item is put up for auction.
fn sell_in(state: &BotClientState, window: &Window, menu: &Menu) -> (r: WindowStep)
    ensures
        r@ == on_selling(state@, window@, menu@),
{
    let title = window.title.as_str();
    let chooses_type = contains(title, "Create Auction") && !contains(title, "BIN");
    let creates_bin = contains(title, "Create BIN Auction");
    match state.auction_step {
        AuctionStep::Initial => if contains(title, "Auction House") {
            advancing(AuctionStep::OpenManage, window.id, 15)
        } else {
            finished(no_actions())
        },
        AuctionStep::OpenManage => if contains(title, "Manage Auctions") {
            use_create_button(window, &menu.slots)
        } else if chooses_type {
            advancing(AuctionStep::SelectBIN, window.id, 48)
        } else if creates_bin {
            choose_item(state, window, menu)
        } else {
            finished(no_actions())
        },
        AuctionStep::ClickCreate => if chooses_type {
            advancing(AuctionStep::SelectBIN, window.id, 48)
        } else if creates_bin {
            choose_item(state, window, menu)
        } else {
            finished(no_actions())
        },
        AuctionStep::SelectBIN => if creates_bin {
            choose_item(state, window, menu)
        } else {
            finished(no_actions())
        },
        AuctionStep::PriceSign => finished(no_actions()),
        AuctionStep::SetDuration => if creates_bin {
            advancing(AuctionStep::DurationSign, window.id, 33)
        } else {
            finished(no_actions())
        },
        AuctionStep::DurationSign => if contains(title, "Auction Duration") {
            finished(both(Action::Wait(200), clicking(window.id, 16)))
        } else {
            finished(no_actions())
        },
        AuctionStep::ConfirmSell => if creates_bin {
            advancing(AuctionStep::FinalConfirm, window.id, 29)
        } else {
            finished(no_actions())
        },
        AuctionStep::FinalConfirm => if contains(title, "Confirm") {
            let clicked = three(Action::Wait(200), clicking(window.id, 11), Action::Wait(500));
            let all = then_do(clicked, going_idle());
            proof {
                assert(actions_of(all@) =~= on_selling(state@, window@, menu@).actions);
            }
            finished(all)
        } else {
            finished(no_actions())
        },
    }
}

/// Handle a window as it opens.
fn open_window(state: &BotClientState, window: &Window) -> (r: WindowStep)
    requires
        state.bot_state is Purchasing && state.confirm_skip && occurs_in(
            window.title@,
            "BIN Auction View"@,
        ) ==> window.id < u8::MAX,
    ensures
        r@ == on_opened(state@, window@),
{
    match state.bot_state {
        BotState::Purchasing => purchase_in(state, window),
        BotState::Bazaar => {
            let order = OrderContext {
                item_name: state.bazaar_item_name.clone(),
                is_buy_order: state.bazaar_is_buy_order,
                step: state.bazaar_step,
            };
            if order.step == BazaarStep::SelectOrderType {
                go_past_button(&order, window.title.as_str())
            } else {
                WindowStep { actions: no_actions(), next: WindowPhase::BazaarButton(order) }
            }
        },
        BotState::ClaimingPurchased => claim_purchased_in(window),
        BotState::ClaimingSold => claim_sold_in(window),
        BotState::Selling => wait_for(300, WindowPhase::Selling),
        _ => finished(no_actions()),
    }
}

/// Handle window interactions based on bot state and window title. `elapsed_ms` is the time since
/// the window opened. The window that would be clicked ahead of its opening must have an id: with
/// the confirmation skipped, the view of an auction to buy is not the window with the highest id.
pub fn handle_window_interaction(
    state: &BotClientState,
    phase: &WindowPhase,
    window: &Window,
    menu: &Menu,
    elapsed_ms: u64,
) -> (r: WindowStep)
    requires
        phase is Opened && state.bot_state is Purchasing && state.confirm_skip && occurs_in(
            window.title@,
            "BIN Auction View"@,
        ) ==> window.id < u8::MAX,
    ensures
        r@ == on_window(state@, phase@, window@, menu@, elapsed_ms),
{
    match phase {
        WindowPhase::Opened => open_window(state, window),
        WindowPhase::BazaarButton(order) => poll_button(order, window, &menu.slots, elapsed_ms),
        WindowPhase::BazaarSearch(order) => poll_search(order, window, &menu.slots, elapsed_ms),
        WindowPhase::BazaarScreen(order) => use_screen(order, window, &menu.slots),
        WindowPhase::BazaarPlaced(order) => announce_order(state, order),
        WindowPhase::ClaimBids => claim_bids(window, &menu.slots),
        WindowPhase::ClaimHouse => match find_slot_by_name(&menu.slots, "Manage Auctions") {
            Some(i) => only_click(window.id, i),
            None => only_idle(),
        },
        WindowPhase::ClaimManage => claim_managed(window, &menu.slots),
        WindowPhase::ClaimView => match find_slot_by_name(&menu.slots, "Claim") {
            Some(i) => only_click(window.id, i),
            None => only_click(window.id, 31),
        },
        WindowPhase::Selling => sell_in(state, window, menu),
        WindowPhase::Done => finished(no_actions()),
    }
}

} // verus!
