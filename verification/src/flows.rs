//! What holds of the flows as a whole: how windows, signs, chat and commands work together.

use vstd::prelude::*;

use crate::actions::{
    sign_lines, ActionView, AuctionStep, Background, BazaarStep, BotEventView, WindowView,
};
use crate::client::{
    market_report, next_count, on_chat, on_event, on_sign, tells_of_listing, tells_of_purchase, tells_of_sale,
    ClientEventView, ClientView,
};
use crate::commands::{on_command, on_listing, on_order, open_window_click};
use crate::inventory::MenuView;
use crate::items::slot_named;
use crate::messages::{
    item_and_price_text, law_purchase_message_is_read_back, law_sale_message_is_read_back,
    price_text, purchased_text, sold_text, viewauction_uuid,
};
use crate::text::{decimal, occurs_at, occurs_in, without_colors};
use crate::types::{BotState, CommandView, FlipView, ListingView, OrderView};
use crate::windows::{
    advance, click_slot, current_order, go_idle, is_at_auction_limit, is_type_choice, item_slot,
    next_window_id, on_item_choice, on_opened, on_window, order_button, ContextView, PhaseView,
    StepView, POLL_INTERVAL_MS, POLL_LIMIT_MS,
};

verus! {

// ---- Windows ----

/// The bot acts in this state when a window opens.
pub open spec fn uses_windows(state: BotState) -> bool {
    state is Purchasing || state is Bazaar || state is ClaimingPurchased || state is ClaimingSold
        || state is Selling
}

/// A window that opens while the bot is doing something else is left alone.
pub proof fn law_other_states_leave_windows_alone(
    s: ClientView,
    window: WindowView,
    menu: MenuView,
    elapsed_ms: u64,
)
    requires
        !uses_windows(s.bot_state),
    ensures
        on_window(s, PhaseView::Opened, window, menu, elapsed_ms) == (StepView {
            actions: Seq::empty(),
            next: PhaseView::Done,
        }),
{
}

/// The click goes to the window itself, or, ahead of time, to the confirmation of the purchase.
pub open spec fn clicks_window(
    s: ClientView,
    phase: PhaseView,
    window: WindowView,
    action: ActionView,
) -> bool {
    action matches ActionView::Click(c) ==> {
        ||| c.container_id == window.id
        ||| phase is Opened && s.bot_state is Purchasing && s.confirm_skip && c.container_id
            == next_window_id(window.id) as u8 && c.slot_num == 11
    }
}

/// Every click goes to the window that is handled. The one exception is the confirmation of a
/// purchase that is clicked before its window has opened, and only where that is asked for.
pub proof fn law_clicks_go_to_the_window(
    s: ClientView,
    phase: PhaseView,
    window: WindowView,
    menu: MenuView,
    elapsed_ms: u64,
    i: int,
)
    requires
        0 <= i < on_window(s, phase, window, menu, elapsed_ms).actions.len(),
    ensures
        clicks_window(s, phase, window, on_window(s, phase, window, menu, elapsed_ms).actions[i]),
{
}

/// How many phases can still follow once polling has ended.
pub open spec fn phases_left(phase: PhaseView) -> nat {
    match phase {
        PhaseView::Opened => 4,
        PhaseView::BazaarButton(_) => 3,
        PhaseView::BazaarSearch(_) => 2,
        PhaseView::BazaarScreen(_) => 2,
        PhaseView::BazaarPlaced(_) => 1,
        PhaseView::Done => 0,
        _ => 1,
    }
}

/// The handling of a window ends. While the polls last, a phase is repeated only after a wait; once
/// their time is up, every phase is followed by a later one.
pub proof fn law_window_handling_ends(
    s: ClientView,
    phase: PhaseView,
    window: WindowView,
    menu: MenuView,
    elapsed_ms: u64,
)
    requires
        !(phase is Done),
    ensures
        ({
            let step = on_window(s, phase, window, menu, elapsed_ms);
            ||| phases_left(step.next) < phases_left(phase)
            ||| elapsed_ms < POLL_LIMIT_MS && step == (StepView {
                actions: seq![ActionView::Wait(POLL_INTERVAL_MS)],
                next: phase,
            })
        }),
{
}

/// The place of a step in the listing flow.
pub open spec fn auction_rank(step: AuctionStep) -> nat {
    match step {
        AuctionStep::Initial => 0,
        AuctionStep::OpenManage => 1,
        AuctionStep::ClickCreate => 2,
        AuctionStep::SelectBIN => 3,
        AuctionStep::PriceSign => 4,
        AuctionStep::SetDuration => 5,
        AuctionStep::DurationSign => 6,
        AuctionStep::ConfirmSell => 7,
        AuctionStep::FinalConfirm => 8,
    }
}

/// The listing flow only goes forward, by windows and by signs.
pub proof fn law_listing_only_advances(
    s: ClientView,
    window: WindowView,
    menu: MenuView,
    elapsed_ms: u64,
    i: int,
)
    requires
        0 <= i < on_window(s, PhaseView::Selling, window, menu, elapsed_ms).actions.len(),
    ensures
        on_window(s, PhaseView::Selling, window, menu, elapsed_ms).actions[i] matches
            ActionView::SetAuctionStep(step) ==> auction_rank(step) > auction_rank(s.auction_step),
        auction_rank(on_sign(s).state.auction_step) >= auction_rank(s.auction_step),
{
}

/// The place of a step in the order flow.
pub open spec fn bazaar_rank(step: BazaarStep) -> nat {
    match step {
        BazaarStep::Initial => 0,
        BazaarStep::SearchResults => 1,
        BazaarStep::SelectOrderType => 2,
        BazaarStep::SetAmount => 3,
        BazaarStep::SetPrice => 4,
        BazaarStep::Confirm => 5,
    }
}

/// The screens behind the order button only take the order forward, and so do the signs.
pub proof fn law_order_screens_only_advance(
    s: ClientView,
    order: ContextView,
    window: WindowView,
    menu: MenuView,
    elapsed_ms: u64,
    i: int,
)
    requires
        0 <= i < on_window(
            s,
            PhaseView::BazaarScreen(order),
            window,
            menu,
            elapsed_ms,
        ).actions.len(),
    ensures
        on_window(s, PhaseView::BazaarScreen(order), window, menu, elapsed_ms).actions[i] matches
            ActionView::SetBazaarStep(step) ==> bazaar_rank(step) > bazaar_rank(order.step),
        bazaar_rank(on_sign(s).state.bazaar_step) >= bazaar_rank(s.bazaar_step),
{
}

/// An order is announced only after it was confirmed: the announcement comes in the phase that
/// follows the click on the confirmation, and that phase is entered only from the confirm screen of
/// an order whose price is set. With the announcement the bot goes idle.
pub proof fn law_order_is_announced_after_confirmation(
    s: ClientView,
    phase: PhaseView,
    window: WindowView,
    menu: MenuView,
    elapsed_ms: u64,
    i: int,
)
    requires
        0 <= i < on_window(s, phase, window, menu, elapsed_ms).actions.len(),
    ensures
        ({
            let step = on_window(s, phase, window, menu, elapsed_ms);
            &&& step.actions[i] is Emit ==> {
                &&& phase is BazaarPlaced
                &&& i == 0
                &&& step.actions == seq![step.actions[0], go_idle()]
                &&& step.next is Done
            }
            &&& step.next matches PhaseView::BazaarPlaced(order) ==> {
                &&& phase == PhaseView::BazaarScreen(order)
                &&& order.step is SetPrice
                &&& step.actions == seq![
                    ActionView::SetBazaarStep(BazaarStep::Confirm),
                    click_slot(window.id, 13),
                    ActionView::Wait(500),
                ]
            }
        }),
{
}

/// How many of the actions are clicks.
pub open spec fn clicks_in(actions: Seq<ActionView>) -> nat
    decreases actions.len(),
{
    if actions.len() == 0 {
        0
    } else if actions.last() is Click {
        clicks_in(actions.drop_last()) + 1
    } else {
        clicks_in(actions.drop_last())
    }
}

/// Every click is counted, and nothing else is, as long as the counter does not overflow.
pub proof fn law_clicks_are_counted(s: ClientView, actions: Seq<ActionView>)
    requires
        s.action_counter + clicks_in(actions) <= i16::MAX,
    ensures
        s.after_all(actions).action_counter == s.action_counter + clicks_in(actions),
    decreases actions.len(),
{
    if actions.len() > 0 {
        law_clicks_are_counted(s, actions.drop_last());
    }
}

/// The click of a slot command is counted like any other: with a window open the click goes there
/// and adds one, and without one there is no click.
pub proof fn law_slot_command_click_is_counted(s: ClientView, slot: i16, menu: MenuView)
    ensures
        on_command(s, CommandView::ClickSlot(slot), menu).actions.last()
            == ActionView::ClickOpenWindow(slot),
        open_window_click(s, slot) is Some <==> s.last_window_id > 0,
        open_window_click(s, slot) matches Some(made) ==> {
            let after = s.after(ActionView::Click(made));
            &&& made.container_id == s.last_window_id
            &&& made.slot_num == slot
            &&& after == (ClientView { action_counter: next_count(s.action_counter), ..s })
            &&& s.action_counter < i16::MAX ==> after.action_counter == s.action_counter + 1
        },
{
}

// ---- Events ----

/// The bot is sent to its island once per login: while it has been sent, no event but a login sends
/// it again or forgets that it was sent.
pub proof fn law_island_trip_once_per_login(s: ClientView, event: ClientEventView, i: int)
    requires
        s.teleported_to_island,
        !(event is Login),
        0 <= i < on_event(s, event).actions.len(),
    ensures
        on_event(s, event).state.teleported_to_island,
        on_event(s, event).actions[i] != ActionView::Spawn(Background::GoToIsland),
{
    reveal(on_chat);
}

/// The bot is sent to its island only after it has asked for SkyBlock, and is then marked as there.
pub proof fn law_island_trip_needs_a_join(s: ClientView, event: ClientEventView, i: int)
    requires
        0 <= i < on_event(s, event).actions.len(),
        on_event(s, event).actions[i] == ActionView::Spawn(Background::GoToIsland),
    ensures
        event is Chat,
        s.skyblock_join_time is Some,
        !s.teleported_to_island,
        on_event(s, event).state.joined_skyblock,
        on_event(s, event).state.teleported_to_island,
{
    reveal(on_chat);
}

/// A login starts the startup sequence again, whatever came before.
pub proof fn law_login_restarts_startup(s: ClientView, now: u64)
    ensures
        ({
            let after = on_event(s, ClientEventView::Login).state;
            &&& after.bot_state is GracePeriod
            &&& after.bot_state.takes_commands()
            &&& !after.joined_skyblock
            &&& !after.teleported_to_island
            &&& after.skyblock_join_time is None
            &&& on_event(after, ClientEventView::Init(now)).actions.last() == ActionView::Spawn(
                Background::JoinSkyblock,
            )
        }),
{
}

/// Overlay messages do nothing, and every other chat message is reported first.
pub proof fn law_chat_is_reported(s: ClientView, message: Seq<char>, now: u64)
    ensures
        on_event(s, ClientEventView::Chat(message, true, now)).state == s,
        on_event(s, ClientEventView::Chat(message, true, now)).actions.len() == 0,
        on_event(s, ClientEventView::Chat(message, false, now)).actions.len() > 0,
        on_event(s, ClientEventView::Chat(message, false, now)).actions[0] == ActionView::Emit(
            BotEventView::ChatMessage(message),
        ),
{
    reveal(on_chat);
}

// ---- Whole flows ----

/// The state once what is done about a window in a phase has been done.
#[verifier::opaque]
pub open spec fn after_window(
    s: ClientView,
    phase: PhaseView,
    window: WindowView,
    menu: MenuView,
    elapsed_ms: u64,
) -> ClientView {
    s.after_all(on_window(s, phase, window, menu, elapsed_ms).actions)
}

/// The two states agree in all but the number of clicks.
pub open spec fn is_like(a: ClientView, b: ClientView) -> bool {
    a.apart_from_clicks() == b.apart_from_clicks()
}

/// The state after up to five actions, one after the other.
pub proof fn lemma_after_all(s: ClientView, actions: Seq<ActionView>)
    ensures
        actions.len() == 0 ==> s.after_all(actions) == s,
        actions.len() == 1 ==> s.after_all(actions) == s.after(actions[0]),
        actions.len() == 2 ==> s.after_all(actions) == s.after(actions[0]).after(actions[1]),
        actions.len() == 3 ==> s.after_all(actions) == s.after(actions[0]).after(actions[1]).after(
            actions[2],
        ),
        actions.len() == 4 ==> s.after_all(actions) == s.after(actions[0]).after(actions[1]).after(
            actions[2],
        ).after(actions[3]),
        actions.len() == 5 ==> s.after_all(actions) == s.after(actions[0]).after(actions[1]).after(
            actions[2],
        ).after(actions[3]).after(actions[4]),
    decreases actions.len(),
{
    if actions.len() > 0 {
        lemma_after_all(s, actions.drop_last());
    }
}

/// An auction is bought: it is opened by its id, slot 31 of its view is clicked, and the
/// confirmation ends the purchase. Without an id nothing is done.
pub proof fn law_purchase_flow(
    s: ClientView,
    flip: FlipView,
    view: WindowView,
    confirm: WindowView,
    menu: MenuView,
    view_menu: MenuView,
    view_ms: u64,
    confirm_menu: MenuView,
    confirm_ms: u64,
)
    requires
        occurs_in(view.title, "BIN Auction View"@),
        occurs_in(confirm.title, "Confirm Purchase"@),
        !occurs_in(confirm.title, "BIN Auction View"@),
    ensures
        ({
            let started = on_command(s, CommandView::PurchaseAuction(flip), menu);
            let bought = after_window(started.state, PhaseView::Opened, view, view_menu, view_ms);
            let done = on_window(bought, PhaseView::Opened, confirm, confirm_menu, confirm_ms);
            match flip.uuid {
                Some(uuid) => if uuid.len() > 0 {
                    &&& started.actions == seq![ActionView::Chat("/viewauction "@ + uuid)]
                    &&& on_window(
                        started.state,
                        PhaseView::Opened,
                        view,
                        view_menu,
                        view_ms,
                    ).actions[0] == click_slot(view.id, 31)
                    &&& is_like(bought, started.state)
                    &&& done.actions == seq![click_slot(confirm.id, 11), go_idle()]
                    &&& is_like(
                        bought.after_all(done.actions),
                        ClientView { bot_state: BotState::Idle, ..s },
                    )
                } else {
                    started.state == s && started.actions.len() == 0
                },
                None => started.state == s && started.actions.len() == 0,
            }
        }),
{
    reveal(after_window);
    let started = on_command(s, CommandView::PurchaseAuction(flip), menu);
    let first = on_window(started.state, PhaseView::Opened, view, view_menu, view_ms);
    lemma_after_all(started.state, first.actions);
    let bought = started.state.after_all(first.actions);
    let second = on_window(bought, PhaseView::Opened, confirm, confirm_menu, confirm_ms);
    lemma_after_all(bought, second.actions);
}

/// The state that a window of the listing flow leads to, if it is the window that the step waits
/// for.
pub open spec fn listing_leads_to(
    s: ClientView,
    title: Seq<char>,
    menu: MenuView,
) -> Option<ClientView> {
    let button = slot_named(menu.slots, "Create Auction"@);
    let to = |step: AuctionStep| Some(ClientView { auction_step: step, ..s });
    match s.auction_step {
        AuctionStep::Initial if occurs_in(title, "Auction House"@) => to(AuctionStep::OpenManage),
        AuctionStep::OpenManage if occurs_in(title, "Manage Auctions"@) && button is Some
            && !is_at_auction_limit(menu.slots[button->Some_0]) => to(AuctionStep::ClickCreate),
        AuctionStep::ClickCreate if is_type_choice(title) => to(AuctionStep::SelectBIN),
        AuctionStep::SelectBIN if occurs_in(title, "Create BIN Auction"@) && item_slot(s, menu)
            is Some => to(AuctionStep::PriceSign),
        AuctionStep::SetDuration if occurs_in(title, "Create BIN Auction"@) => to(
            AuctionStep::DurationSign,
        ),
        AuctionStep::DurationSign if occurs_in(title, "Auction Duration"@) => Some(s),
        AuctionStep::ConfirmSell if occurs_in(title, "Create BIN Auction"@) => to(
            AuctionStep::FinalConfirm,
        ),
        AuctionStep::FinalConfirm if occurs_in(title, "Confirm"@) => Some(
            ClientView { bot_state: BotState::Idle, ..s },
        ),
        _ => None,
    }
}

/// The state after advancing to `step` by a click.
proof fn lemma_after_advance(s: ClientView, step: AuctionStep, id: u8, slot: int)
    ensures
        is_like(
            s.after_all(advance(step, id, slot).actions),
            ClientView { auction_step: step, ..s },
        ),
{
    lemma_after_all(s, advance(step, id, slot).actions);
}

/// The state after the item to auction was put on the price setter.
proof fn lemma_after_item_choice(s: ClientView, window: WindowView, menu: MenuView)
    requires
        item_slot(s, menu) is Some,
    ensures
        is_like(
            s.after_all(on_item_choice(s, window, menu).actions),
            ClientView { auction_step: AuctionStep::PriceSign, ..s },
        ),
{
    let actions = on_item_choice(s, window, menu).actions;
    assert(actions.len() == 5);
    assert(actions[3] == ActionView::SetAuctionStep(AuctionStep::PriceSign));
    lemma_after_all(s, actions);
}

/// The state after a click for a sign, and after the confirmation of a listing.
proof fn lemma_after_last_clicks(s: ClientView, id: u8)
    ensures
        is_like(s.after_all(seq![ActionView::Wait(200), click_slot(id, 16)]), s),
        is_like(
            s.after_all(
                seq![
                    ActionView::Wait(200),
                    click_slot(id, 11),
                    ActionView::Wait(500),
                    go_idle(),
                ],
            ),
            ClientView { bot_state: BotState::Idle, ..s },
        ),
{
    lemma_after_all(s, seq![ActionView::Wait(200), click_slot(id, 16)]);
    lemma_after_all(
        s,
        seq![ActionView::Wait(200), click_slot(id, 11), ActionView::Wait(500), go_idle()],
    );
}

/// The state after each window that a listing goes through.
#[verifier::spinoff_prover]
proof fn lemma_after_selling(s: ClientView, window: WindowView, menu: MenuView, elapsed_ms: u64)
    ensures
        listing_leads_to(s, window.title, menu) matches Some(next) ==> is_like(
            after_window(s, PhaseView::Selling, window, menu, elapsed_ms),
            next,
        ),
{
    reveal(after_window);
    if listing_leads_to(s, window.title, menu) is Some {
        let id = window.id;
        match s.auction_step {
            AuctionStep::Initial => lemma_after_advance(s, AuctionStep::OpenManage, id, 15),
            AuctionStep::OpenManage => lemma_after_advance(
                s,
                AuctionStep::ClickCreate,
                id,
                slot_named(menu.slots, "Create Auction"@)->Some_0,
            ),
            AuctionStep::ClickCreate => lemma_after_advance(s, AuctionStep::SelectBIN, id, 48),
            AuctionStep::SelectBIN => lemma_after_item_choice(s, window, menu),
            AuctionStep::SetDuration => lemma_after_advance(s, AuctionStep::DurationSign, id, 33),
            AuctionStep::ConfirmSell => lemma_after_advance(s, AuctionStep::FinalConfirm, id, 29),
            _ => lemma_after_last_clicks(s, id),
        }
    }
}

/// Up to the sign for the price, a listing goes through the auction house, "Manage Auctions", the
/// choice of the type and the choice of the item, one click after the other.
pub proof fn law_listing_reaches_the_price_sign(
    s: ClientView,
    listing: ListingView,
    house: WindowView,
    house_menu: MenuView,
    house_ms: u64,
    manage: WindowView,
    manage_menu: MenuView,
    manage_ms: u64,
    kind: WindowView,
    kind_menu: MenuView,
    kind_ms: u64,
    bin: WindowView,
    bin_menu: MenuView,
    bin_ms: u64,
)
    requires
        occurs_in(house.title, "Auction House"@),
        occurs_in(manage.title, "Manage Auctions"@),
        slot_named(manage_menu.slots, "Create Auction"@) is Some,
        !is_at_auction_limit(
            manage_menu.slots[slot_named(manage_menu.slots, "Create Auction"@)->Some_0],
        ),
        is_type_choice(kind.title),
        occurs_in(bin.title, "Create BIN Auction"@),
        item_slot(on_listing(s, listing).state, bin_menu) is Some,
    ensures
        ({
            let s0 = on_listing(s, listing).state;
            let s1 = after_window(s0, PhaseView::Selling, house, house_menu, house_ms);
            let s2 = after_window(s1, PhaseView::Selling, manage, manage_menu, manage_ms);
            let s3 = after_window(s2, PhaseView::Selling, kind, kind_menu, kind_ms);
            let s4 = after_window(s3, PhaseView::Selling, bin, bin_menu, bin_ms);
            is_like(s4, ClientView { auction_step: AuctionStep::PriceSign, ..s0 })
        }),
{
    let s0 = on_listing(s, listing).state;
    lemma_after_selling(s0, house, house_menu, house_ms);
    let s1 = after_window(s0, PhaseView::Selling, house, house_menu, house_ms);
    lemma_after_selling(s1, manage, manage_menu, manage_ms);
    let s2 = after_window(s1, PhaseView::Selling, manage, manage_menu, manage_ms);
    lemma_after_selling(s2, kind, kind_menu, kind_ms);
    let s3 = after_window(s2, PhaseView::Selling, kind, kind_menu, kind_ms);
    assert(item_slot(s3, bin_menu) == item_slot(s0, bin_menu));
    lemma_after_selling(s3, bin, bin_menu, bin_ms);
}

/// From the sign for the price on, a listing is completed: the starting bid and then the duration
/// are written on the signs that open, the listing is confirmed, and the bot is idle, still knowing
/// what it has put up.
pub proof fn law_listing_is_completed(
    s: ClientView,
    listing: ListingView,
    bin: WindowView,
    bin_menu: MenuView,
    bin_ms: u64,
    duration: WindowView,
    duration_menu: MenuView,
    duration_ms: u64,
    again: WindowView,
    again_menu: MenuView,
    again_ms: u64,
    confirm: WindowView,
    confirm_menu: MenuView,
    confirm_ms: u64,
)
    requires
        s.bot_state is Selling,
        s.auction_step is PriceSign,
        s.auction_starting_bid == listing.starting_bid,
        s.auction_duration_hours == listing.duration_hours,
        occurs_in(bin.title, "Create BIN Auction"@),
        occurs_in(again.title, "Create BIN Auction"@),
        occurs_in(duration.title, "Auction Duration"@),
        occurs_in(confirm.title, "Confirm"@),
    ensures
        ({
            let s1 = on_sign(s).state;
            let s2 = after_window(s1, PhaseView::Selling, bin, bin_menu, bin_ms);
            let s3 = after_window(s2, PhaseView::Selling, duration, duration_menu, duration_ms);
            let s4 = on_sign(s3).state;
            let s5 = after_window(s4, PhaseView::Selling, again, again_menu, again_ms);
            let s6 = after_window(s5, PhaseView::Selling, confirm, confirm_menu, confirm_ms);
            &&& on_sign(s).actions == seq![
                ActionView::WriteSign(sign_lines(decimal(listing.starting_bid as nat))),
            ]
            &&& on_sign(s3).actions == seq![
                ActionView::WriteSign(sign_lines(decimal(listing.duration_hours as nat))),
            ]
            &&& is_like(
                s6,
                ClientView {
                    auction_step: AuctionStep::FinalConfirm,
                    bot_state: BotState::Idle,
                    ..s
                },
            )
        }),
{
    let s1 = on_sign(s).state;
    lemma_after_selling(s1, bin, bin_menu, bin_ms);
    let s2 = after_window(s1, PhaseView::Selling, bin, bin_menu, bin_ms);
    lemma_after_selling(s2, duration, duration_menu, duration_ms);
    let s3 = after_window(s2, PhaseView::Selling, duration, duration_menu, duration_ms);
    let s4 = on_sign(s3).state;
    lemma_after_selling(s4, again, again_menu, again_ms);
    let s5 = after_window(s4, PhaseView::Selling, again, again_menu, again_ms);
    lemma_after_selling(s5, confirm, confirm_menu, confirm_ms);
}

/// The order as it was given is kept until it is placed.
pub open spec fn keeps_order(s: ClientView, order: OrderView, is_buy_order: bool) -> bool {
    &&& s.bot_state is Bazaar
    &&& s.bazaar_item_name == order.item_name
    &&& s.bazaar_amount == order.amount
    &&& s.bazaar_price_per_unit == order.price_per_unit
    &&& s.bazaar_is_buy_order == is_buy_order
}

/// The item's page: the button that creates the order is found and clicked.
pub proof fn law_order_button_is_clicked(
    s: ClientView,
    order: OrderView,
    is_buy_order: bool,
    detail: WindowView,
    menu: MenuView,
    elapsed_ms: u64,
)
    requires
        slot_named(menu.slots, order_button(is_buy_order)) is Some,
    ensures
        ({
            let s0 = on_order(s, order, is_buy_order).state;
            let phase = on_opened(s0, detail).next;
            let s1 = after_window(s0, phase, detail, menu, elapsed_ms);
            &&& on_opened(s0, detail).actions.len() == 0
            &&& on_window(s0, phase, detail, menu, elapsed_ms).actions.last() == click_slot(
                detail.id,
                slot_named(menu.slots, order_button(is_buy_order))->Some_0,
            )
            &&& is_like(s1, ClientView { bazaar_step: BazaarStep::SelectOrderType, ..s0 })
            &&& keeps_order(s1, order, is_buy_order)
        }),
{
    reveal(after_window);
    let s0 = on_order(s, order, is_buy_order).state;
    let phase = on_opened(s0, detail).next;
    lemma_after_all(s0, on_window(s0, phase, detail, menu, elapsed_ms).actions);
}

/// A buy order's amount: on the amount screen behind the order button, the sign that opens is
/// written with the amount of the order.
pub proof fn law_order_amount_is_written(
    s: ClientView,
    order: OrderView,
    screen: WindowView,
    menu: MenuView,
    elapsed_ms: u64,
)
    requires
        keeps_order(s, order, true),
        s.bazaar_step is SelectOrderType,
        slot_named(menu.slots, "Custom Amount"@) is Some,
    ensures
        ({
            let phase = on_opened(s, screen).next;
            let s1 = after_window(s, phase, screen, menu, elapsed_ms);
            &&& is_like(s1, ClientView { bazaar_step: BazaarStep::SetAmount, ..s })
            &&& on_sign(s1).state == s1
            &&& on_sign(s1).actions == seq![
                ActionView::WriteSign(sign_lines(decimal(order.amount as nat))),
            ]
        }),
{
    reveal(after_window);
    let phase = on_opened(s, screen).next;
    assert(phase == PhaseView::BazaarScreen(current_order(s)));
    lemma_after_all(s, on_window(s, phase, screen, menu, elapsed_ms).actions);
}

/// An order's price: on the price screen, the sign that opens is written with the price of the
/// order, and the order is ready to be confirmed. A sign that opens straight behind the order
/// button is written with the price, too.
pub proof fn law_order_price_is_written(
    s: ClientView,
    order: OrderView,
    is_buy_order: bool,
    screen: WindowView,
    menu: MenuView,
    elapsed_ms: u64,
)
    requires
        keeps_order(s, order, is_buy_order),
        s.bazaar_step is SelectOrderType || s.bazaar_step is SetAmount,
        slot_named(menu.slots, "Custom Amount"@) is None,
        slot_named(menu.slots, "Custom Price"@) is Some,
    ensures
        ({
            let phase = PhaseView::BazaarScreen(current_order(s));
            let s1 = after_window(s, phase, screen, menu, elapsed_ms);
            &&& is_like(s1, ClientView { bazaar_step: BazaarStep::SetPrice, ..s })
            &&& on_sign(s1).state == s1
            &&& on_sign(s1).actions == seq![
                ActionView::WriteSign(sign_lines(order.price_per_unit)),
            ]
            &&& s.bazaar_step is SelectOrderType ==> is_like(on_sign(s).state, s1) && on_sign(
                s,
            ).actions == on_sign(s1).actions
        }),
{
    reveal(after_window);
    let phase = PhaseView::BazaarScreen(current_order(s));
    lemma_after_all(s, on_window(s, phase, screen, menu, elapsed_ms).actions);
}

/// An order whose price is set is confirmed by slot 13 of the next screen, announced as it was
/// given, and the bot is idle.
pub proof fn law_order_is_placed(
    s: ClientView,
    order: OrderView,
    is_buy_order: bool,
    screen: WindowView,
    menu: MenuView,
    elapsed_ms: u64,
    later_menu: MenuView,
    later_ms: u64,
)
    requires
        keeps_order(s, order, is_buy_order),
        s.bazaar_step is SetPrice,
    ensures
        ({
            let phase = PhaseView::BazaarScreen(current_order(s));
            let first = on_window(s, phase, screen, menu, elapsed_ms);
            let s1 = s.after_all(first.actions);
            let second = on_window(s1, first.next, screen, later_menu, later_ms);
            &&& first.actions[1] == click_slot(screen.id, 13)
            &&& second.actions[0] == ActionView::Emit(
                BotEventView::BazaarOrderPlaced(
                    order.item_name,
                    order.amount,
                    order.price_per_unit,
                    is_buy_order,
                ),
            )
            &&& second.next is Done
            &&& is_like(
                s1.after_all(second.actions),
                ClientView {
                    bazaar_step: BazaarStep::Confirm,
                    bot_state: BotState::Idle,
                    ..s
                },
            )
        }),
{
    let phase = PhaseView::BazaarScreen(current_order(s));
    let first = on_window(s, phase, screen, menu, elapsed_ms);
    lemma_after_all(s, first.actions);
    let s1 = s.after_all(first.actions);
    lemma_after_all(s1, on_window(s1, first.next, screen, later_menu, later_ms).actions);
}

/// What a chat message reports of the market goes out right behind the message itself.
proof fn lemma_report_follows(s: ClientView, message: Seq<char>, now: u64)
    requires
        market_report(s, without_colors(message)).actions.len() == 1,
    ensures
        on_event(s, ClientEventView::Chat(message, false, now)).actions.len() >= 2,
        on_event(s, ClientEventView::Chat(message, false, now)).actions[1] == market_report(
            s,
            without_colors(message),
        ).actions[0],
        on_event(s, ClientEventView::Chat(message, false, now)).state.claim_sold_uuid
            == market_report(s, without_colors(message)).state.claim_sold_uuid,
{
    reveal(on_chat);
}

/// `needle` occurs where it was put.
proof fn lemma_occurs_between(before: Seq<char>, needle: Seq<char>, after: Seq<char>)
    ensures
        occurs_in(before + needle + after, needle),
{
    let text = before + needle + after;
    assert(text.subrange(before.len() as int, before.len() as int + needle.len()) =~= needle);
    assert(occurs_at(text, needle, before.len() as int));
}

/// The text of a purchase tells of one.
proof fn lemma_purchase_text_tells(item: Seq<char>, price: u64, tail: Seq<char>)
    ensures
        tells_of_purchase(purchased_text(item, price, "!"@ + tail)),
{
    let clean = purchased_text(item, price, "!"@ + tail);
    let rest = item_and_price_text(item, price, "!"@ + tail);
    assert(occurs_in(clean, "You purchased"@)) by {
        assert("You purchased "@ =~= "You purchased"@ + " "@) by {
            reveal_strlit("You purchased ");
            reveal_strlit("You purchased");
            reveal_strlit(" ");
        }
        lemma_occurs_between(Seq::empty(), "You purchased"@, " "@ + rest);
        assert(clean =~= Seq::empty() + "You purchased"@ + (" "@ + rest));
    }
    assert(occurs_in(clean, "coins!"@)) by {
        assert(" coins"@ + "!"@ =~= " "@ + "coins!"@) by {
            reveal_strlit(" coins");
            reveal_strlit("!");
            reveal_strlit(" ");
            reveal_strlit("coins!");
        }
        let before = "You purchased "@ + (item + " for "@ + price_text(price)) + " "@;
        lemma_occurs_between(before, "coins!"@, tail);
        assert(" coins"@ + ("!"@ + tail) =~= " "@ + "coins!"@ + tail) by {
            assert(" coins"@ + ("!"@ + tail) =~= (" coins"@ + "!"@) + tail);
        }
        assert(clean =~= before + "coins!"@ + tail);
    }
}

/// A purchase is announced: the chat's "You purchased <item> for <price> coins!", apart from color
/// codes, is reported as the purchase of that item at that price.
pub proof fn law_purchase_is_announced(
    s: ClientView,
    message: Seq<char>,
    item: Seq<char>,
    price: u64,
    tail: Seq<char>,
    now: u64,
)
    requires
        without_colors(message) == purchased_text(item, price, "!"@ + tail),
        !occurs_in(" coins"@ + ("!"@ + tail), " for "@),
    ensures
        on_event(s, ClientEventView::Chat(message, false, now)).actions[1] == ActionView::Emit(
            BotEventView::ItemPurchased(item, price),
        ),
{
    lemma_purchase_text_tells(item, price, tail);
    law_purchase_message_is_read_back(item, price, "!"@ + tail);
    lemma_report_follows(s, message, now);
}

/// The text of a sale tells of one.
proof fn lemma_sale_text_tells(buyer: Seq<char>, item: Seq<char>, price: u64, tail: Seq<char>)
    ensures
        tells_of_sale(sold_text(buyer, item, price, tail)),
{
    let clean = sold_text(buyer, item, price, tail);
    let sale = item_and_price_text(item, price, tail);
    assert(occurs_in(clean, "[Auction]"@)) by {
        assert("[Auction] "@ =~= "[Auction]"@ + " "@) by {
            reveal_strlit("[Auction] ");
            reveal_strlit("[Auction]");
            reveal_strlit(" ");
        }
        let after = " "@ + (buyer + " bought "@ + sale);
        lemma_occurs_between(Seq::empty(), "[Auction]"@, after);
        assert(clean =~= Seq::empty() + "[Auction]"@ + after);
    }
    assert(occurs_in(clean, "bought"@)) by {
        assert(" bought "@ =~= " "@ + "bought"@ + " "@) by {
            reveal_strlit(" bought ");
            reveal_strlit("bought");
            reveal_strlit(" ");
        }
        let before = "[Auction] "@ + buyer + " "@;
        lemma_occurs_between(before, "bought"@, " "@ + sale);
        assert(clean =~= before + "bought"@ + (" "@ + sale));
    }
    let opening = "[Auction] "@ + buyer + " bought "@ + item;
    let closing = price_text(price) + (" coins"@ + tail);
    assert(clean =~= opening + " for "@ + closing);
    assert(occurs_in(clean, "for"@)) by {
        assert(" for "@ =~= " "@ + "for"@ + " "@) by {
            reveal_strlit(" for ");
            reveal_strlit("for");
            reveal_strlit(" ");
        }
        lemma_occurs_between(opening + " "@, "for"@, " "@ + closing);
        assert(clean =~= (opening + " "@) + "for"@ + (" "@ + closing));
    }
    assert(occurs_in(clean, "coins"@)) by {
        assert(" coins"@ =~= " "@ + "coins"@) by {
            reveal_strlit(" coins");
            reveal_strlit("coins");
            reveal_strlit(" ");
        }
        let before = opening + " for "@ + price_text(price) + " "@;
        lemma_occurs_between(before, "coins"@, tail);
        assert(clean =~= before + "coins"@ + tail);
    }
}

/// A sale is announced: the chat's "[Auction] <buyer> bought <item> for <price> coins", apart from
/// color codes, is reported as that sale, and the auction that the message names, if it names one,
/// is the one to claim.
pub proof fn law_sale_is_announced(
    s: ClientView,
    message: Seq<char>,
    buyer: Seq<char>,
    item: Seq<char>,
    price: u64,
    tail: Seq<char>,
    now: u64,
)
    requires
        without_colors(message) == sold_text(buyer, item, price, tail),
        !tells_of_purchase(without_colors(message)),
        !occurs_in(buyer + " bought"@, " bought "@),
        !occurs_in(" coins"@ + tail, " for "@),
    ensures
        on_event(s, ClientEventView::Chat(message, false, now)).actions[1] == ActionView::Emit(
            BotEventView::ItemSold(item, price, buyer),
        ),
        on_event(s, ClientEventView::Chat(message, false, now)).state.claim_sold_uuid
            == viewauction_uuid(without_colors(message)),
{
    lemma_sale_text_tells(buyer, item, price, tail);
    law_sale_message_is_read_back(buyer, item, price, tail);
    lemma_report_follows(s, message, now);
}

/// A listing is announced: once the chat says that the auction has started, it is reported with the
/// item, the bid and the duration that the bot has put up.
pub proof fn law_listing_is_announced(s: ClientView, message: Seq<char>, now: u64)
    requires
        s.auction_item_name.len() > 0,
        tells_of_listing(without_colors(message)),
        !tells_of_purchase(without_colors(message)),
        !tells_of_sale(without_colors(message)),
    ensures
        on_event(s, ClientEventView::Chat(message, false, now)).actions[1] == ActionView::Emit(
            BotEventView::AuctionListed(
                s.auction_item_name,
                s.auction_starting_bid,
                s.auction_duration_hours,
            ),
        ),
{
    lemma_report_follows(s, message, now);
}

/// A sold item is claimed from the auction that was announced: the claim opens the auction that the
/// sale's message named.
pub proof fn law_sold_item_is_claimed_directly(
    s: ClientView,
    message: Seq<char>,
    buyer: Seq<char>,
    item: Seq<char>,
    price: u64,
    tail: Seq<char>,
    now: u64,
    menu: MenuView,
)
    requires
        without_colors(message) == sold_text(buyer, item, price, tail),
        !tells_of_purchase(without_colors(message)),
        !occurs_in(buyer + " bought"@, " bought "@),
        !occurs_in(" coins"@ + tail, " for "@),
    ensures
        ({
            let told = on_event(s, ClientEventView::Chat(message, false, now)).state;
            let claim = on_command(told, CommandView::ClaimSoldItem, menu);
            &&& claim.state.bot_state is ClaimingSold
            &&& claim.actions == seq![
                ActionView::Chat(
                    match viewauction_uuid(without_colors(message)) {
                        Some(uuid) => "/viewauction "@ + uuid,
                        None => "/ah"@,
                    },
                ),
            ]
        }),
{
    law_sale_is_announced(s, message, buyer, item, price, tail, now);
}

} // verus!
