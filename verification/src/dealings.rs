//! What comes of the flip service's messages and of the bot's reports, from one end to the other.

use vstd::prelude::*;

use crate::actions::{ActionView, BotEventView, WindowView};
use crate::announce::{
    amount_text, law_bazaar_flip_is_named, law_flip_is_named, law_listing_is_named,
    law_placed_order_is_named, law_purchase_is_named, law_sale_is_named,
};
use crate::client::{on_sign, ClientView};
use crate::coins::ah_fee;
use crate::flips::{flip_key, law_profit_is_exact, lookup, profit_fits, RecordView};
use crate::handling::{
    clicks_only, handled, is_bare, is_past_the_button, law_amount_screen_takes_the_amount,
    law_item_page_leads_to_the_order,
    law_order_is_confirmed_and_reported, law_price_follows_the_amount,
    law_price_screen_takes_the_price, lists_items, told, writes_price,
};
use crate::inventory::{service_message, MenuView};
use crate::items::slot_named;
use crate::json::{json_text, parsed_json, text_array, JsonView};
use crate::letters::lowercase;
use crate::messages::{connection_id, premium};
use crate::routing::{service_route, RouteView};
use crate::scoreboard::opt_text;
use crate::text::{decimal, occurs_in, trimmed, without_colors};
use crate::trader::{
    board_message, guard_tasks, guard_wait, held_secs, made_profit, on_bot_event, on_cofl_event,
    on_initialized, on_resume, periodic_request, periodic_upload, CircumstancesView, CoflEvent,
    NoticeView, Reaction, TaskView, TraderView, BAZAAR_REQUEST_INTERVAL_MS,
    BOARD_UPLOAD_INTERVAL_MS, INITIAL_NOTICE_DELAY_MS, ISLAND_FIRST_WAIT_MS,
};
use crate::types::{
    BazaarFlip, BotState, CommandPriority, CommandView, Flip, ListingView, OrderView,
    QueuedView,
};

verus! {

// ---- What the tasks come to ----

/// The commands that the tasks put into the queue, in their order.
pub open spec fn enqueued(tasks: Seq<TaskView>) -> Seq<QueuedView>
    decreases tasks.len(),
{
    if tasks.len() == 0 {
        Seq::empty()
    } else {
        match tasks.last() {
            TaskView::Enqueue(queued) => enqueued(tasks.drop_last()).push(queued),
            _ => enqueued(tasks.drop_last()),
        }
    }
}

/// The messages that the tasks send to the flip service, in their order.
pub open spec fn sent(tasks: Seq<TaskView>) -> Seq<Seq<char>>
    decreases tasks.len(),
{
    if tasks.len() == 0 {
        Seq::empty()
    } else {
        match tasks.last() {
            TaskView::Send(message) => sent(tasks.drop_last()).push(message),
            _ => sent(tasks.drop_last()),
        }
    }
}

/// The notifications among the tasks, in their order.
pub open spec fn notified(tasks: Seq<TaskView>) -> Seq<NoticeView>
    decreases tasks.len(),
{
    if tasks.len() == 0 {
        Seq::empty()
    } else {
        match tasks.last() {
            TaskView::Notify(notice) => notified(tasks.drop_last()).push(notice),
            _ => notified(tasks.drop_last()),
        }
    }
}

/// The lines that the tasks print, in their order.
pub open spec fn printed(tasks: Seq<TaskView>) -> Seq<Seq<char>>
    decreases tasks.len(),
{
    if tasks.len() == 0 {
        Seq::empty()
    } else {
        match tasks.last() {
            TaskView::Print(line) => printed(tasks.drop_last()).push(line),
            _ => printed(tasks.drop_last()),
        }
    }
}

/// What one more task comes to.
proof fn lemma_one_more(tasks: Seq<TaskView>, task: TaskView)
    ensures
        enqueued(tasks.push(task)) == (match task {
            TaskView::Enqueue(queued) => enqueued(tasks).push(queued),
            _ => enqueued(tasks),
        }),
        sent(tasks.push(task)) == (match task {
            TaskView::Send(message) => sent(tasks).push(message),
            _ => sent(tasks),
        }),
        notified(tasks.push(task)) == (match task {
            TaskView::Notify(notice) => notified(tasks).push(notice),
            _ => notified(tasks),
        }),
        printed(tasks.push(task)) == (match task {
            TaskView::Print(line) => printed(tasks).push(line),
            _ => printed(tasks),
        }),
{
    assert(tasks.push(task).drop_last() =~= tasks);
}

/// What up to six tasks come to, one after another.
proof fn lemma_few_tasks(tasks: Seq<TaskView>)
    ensures
        forall|k: int|
            0 < k <= tasks.len() && k <= 6 ==> {
                &&& (#[trigger] tasks.take(k)) == tasks.take(k - 1).push(tasks[k - 1])
                &&& enqueued(tasks.take(k)) == (match tasks[k - 1] {
                    TaskView::Enqueue(queued) => enqueued(tasks.take(k - 1)).push(queued),
                    _ => enqueued(tasks.take(k - 1)),
                })
                &&& sent(tasks.take(k)) == (match tasks[k - 1] {
                    TaskView::Send(message) => sent(tasks.take(k - 1)).push(message),
                    _ => sent(tasks.take(k - 1)),
                })
                &&& notified(tasks.take(k)) == (match tasks[k - 1] {
                    TaskView::Notify(notice) => notified(tasks.take(k - 1)).push(notice),
                    _ => notified(tasks.take(k - 1)),
                })
                &&& printed(tasks.take(k)) == (match tasks[k - 1] {
                    TaskView::Print(line) => printed(tasks.take(k - 1)).push(line),
                    _ => printed(tasks.take(k - 1)),
                })
            },
        tasks.take(0) == Seq::<TaskView>::empty(),
        enqueued(tasks.take(0)) == Seq::<QueuedView>::empty(),
        sent(tasks.take(0)) == Seq::<Seq<char>>::empty(),
        notified(tasks.take(0)) == Seq::<NoticeView>::empty(),
        printed(tasks.take(0)) == Seq::<Seq<char>>::empty(),
        tasks.take(tasks.len() as int) == tasks,
        tasks.len() >= 1 ==> tasks.take(1) == tasks.take(0).push(tasks[0]),
        tasks.len() >= 2 ==> tasks.take(2) == tasks.take(1).push(tasks[1]),
        tasks.len() >= 3 ==> tasks.take(3) == tasks.take(2).push(tasks[2]),
        tasks.len() >= 4 ==> tasks.take(4) == tasks.take(3).push(tasks[3]),
        tasks.len() >= 5 ==> tasks.take(5) == tasks.take(4).push(tasks[4]),
{
    assert forall|k: int| 0 < k <= tasks.len() && k <= 6 implies {
        &&& (#[trigger] tasks.take(k)) == tasks.take(k - 1).push(tasks[k - 1])
        &&& enqueued(tasks.take(k)) == (match tasks[k - 1] {
            TaskView::Enqueue(queued) => enqueued(tasks.take(k - 1)).push(queued),
            _ => enqueued(tasks.take(k - 1)),
        })
        &&& sent(tasks.take(k)) == (match tasks[k - 1] {
            TaskView::Send(message) => sent(tasks.take(k - 1)).push(message),
            _ => sent(tasks.take(k - 1)),
        })
        &&& notified(tasks.take(k)) == (match tasks[k - 1] {
            TaskView::Notify(notice) => notified(tasks.take(k - 1)).push(notice),
            _ => notified(tasks.take(k - 1)),
        })
        &&& printed(tasks.take(k)) == (match tasks[k - 1] {
            TaskView::Print(line) => printed(tasks.take(k - 1)).push(line),
            _ => printed(tasks.take(k - 1)),
        })
    } by {
        assert(tasks.take(k) =~= tasks.take(k - 1).push(tasks[k - 1]));
        lemma_one_more(tasks.take(k - 1), tasks[k - 1]);
    }
    assert(tasks.take(0) =~= Seq::empty());
    assert(tasks.take(tasks.len() as int) =~= tasks);
    assert(tasks.len() >= 1 ==> tasks.take(1) =~= tasks.take(0).push(tasks[0]));
    assert(tasks.len() >= 2 ==> tasks.take(2) =~= tasks.take(1).push(tasks[1]));
    assert(tasks.len() >= 3 ==> tasks.take(3) =~= tasks.take(2).push(tasks[2]));
    assert(tasks.len() >= 4 ==> tasks.take(4) =~= tasks.take(3).push(tasks[3]));
    assert(tasks.len() >= 5 ==> tasks.take(5) =~= tasks.take(4).push(tasks[4]));
}

// ---- Flips ----

/// The bot is in the startup or in a claim, and takes no commands.
pub open spec fn is_tied_up(state: BotState) -> bool {
    state is Startup || state is ManagingOrders || state is ClaimingPurchased || state is ClaimingSold
}

/// Every auction flip is bought, where such flips are enabled and the bot takes commands, whatever
/// other flips are under way: exactly one command is queued, the purchase of that very flip, with
/// normal priority and not to be interrupted. Otherwise nothing is done about it.
pub proof fn law_every_auction_flip_is_bought(
    t: TraderView,
    flip: Flip,
    bot_state: BotState,
    at_order_limit: bool,
    inventory: Option<Seq<char>>,
    now: u64,
)
    ensures
        ({
            let reaction = on_cofl_event(
                t,
                CoflEvent::AuctionFlip(flip),
                bot_state,
                at_order_limit,
                inventory,
                now,
            );
            if t.enable_ah_flips && !is_tied_up(bot_state) {
                &&& enqueued(reaction.tasks) == seq![
                    QueuedView {
                        command: CommandView::PurchaseAuction(flip@),
                        priority: CommandPriority::Normal,
                        interruptible: false,
                    },
                ]
                &&& printed(reaction.tasks).len() == 1
                &&& occurs_in(printed(reaction.tasks)[0], flip.item_name@)
                &&& reaction.tasks.len() == 2
                &&& lookup(reaction.trader.flips, flip_key(flip.item_name@)) == Some(
                    RecordView { flip: flip@, buy_price: 0, bought_at: now, received_at: now },
                )
                &&& forall|key: Seq<char>|
                    key != flip_key(flip.item_name@) ==> #[trigger] lookup(
                        reaction.trader.flips,
                        key,
                    ) == lookup(t.flips, key)
            } else {
                reaction.tasks.len() == 0 && reaction.trader == t
            }
        }),
{
    let reaction = on_cofl_event(
        t,
        CoflEvent::AuctionFlip(flip),
        bot_state,
        at_order_limit,
        inventory,
        now,
    );
    lemma_few_tasks(reaction.tasks);
    if t.enable_ah_flips && !is_tied_up(bot_state) {
        assert(enqueued(reaction.tasks) =~= seq![
            QueuedView {
                command: CommandView::PurchaseAuction(flip@),
                priority: CommandPriority::Normal,
                interruptible: false,
            },
        ]);
        assert(printed(reaction.tasks).len() == 1);
        law_flip_is_named(flip@);
    }
}

/// Every bazaar flip is ordered as it was recommended, where such flips are enabled and not paused
/// and the bot has room for an order: exactly one command is queued, for the side of the flip, with
/// the flip's own item, tag, amount and price. A sell offer goes ahead of other commands, a buy
/// order does not; either may be interrupted. Otherwise nothing is done about it.
pub proof fn law_every_bazaar_flip_is_ordered(
    t: TraderView,
    flip: BazaarFlip,
    bot_state: BotState,
    at_order_limit: bool,
    inventory: Option<Seq<char>>,
    now: u64,
)
    ensures
        ({
            let reaction = on_cofl_event(
                t,
                CoflEvent::BazaarFlip(flip),
                bot_state,
                at_order_limit,
                inventory,
                now,
            );
            let order = OrderView {
                item_name: flip.item_name@,
                item_tag: opt_text(flip.item_tag),
                amount: flip.amount,
                price_per_unit: flip.price_per_unit@,
            };
            &&& reaction.trader == t
            &&& if t.enable_bazaar_flips && !t.bazaar_paused && !at_order_limit && !(
            bot_state is Startup) && !(bot_state is ManagingOrders) {
                &&& enqueued(reaction.tasks).len() == 1
                &&& enqueued(reaction.tasks)[0].command == (if flip.is_buy_order {
                    CommandView::BazaarBuyOrder(order)
                } else {
                    CommandView::BazaarSellOrder(order)
                })
                &&& enqueued(reaction.tasks)[0].priority is High <==> !flip.is_buy_order
                &&& enqueued(reaction.tasks)[0].interruptible
                &&& printed(reaction.tasks).len() == 1
                &&& occurs_in(printed(reaction.tasks)[0], flip.item_name@)
                &&& reaction.tasks.len() == 2
            } else {
                reaction.tasks.len() == 0
            }
        }),
{
    let reaction = on_cofl_event(
        t,
        CoflEvent::BazaarFlip(flip),
        bot_state,
        at_order_limit,
        inventory,
        now,
    );
    lemma_few_tasks(reaction.tasks);
    law_bazaar_flip_is_named(
        flip.item_name@,
        flip.amount,
        flip.price_in_coins,
        flip.is_buy_order,
    );
}

/// The command that comes of a recommended order, where one does.
pub open spec fn command_for(
    t: TraderView,
    flip: BazaarFlip,
    bot_state: BotState,
) -> CommandView {
    enqueued(
        on_cofl_event(t, CoflEvent::BazaarFlip(flip), bot_state, false, None, 0).tasks,
    )[0].command
}

/// Bazaar flips are ordered now.
pub open spec fn orders_flips(t: TraderView, bot_state: BotState) -> bool {
    t.enable_bazaar_flips && !t.bazaar_paused && !(bot_state is Startup) && !(
    bot_state is ManagingOrders)
}

/// A recommended sell offer is carried out as it was recommended: through the item's page, where the
/// button for offers is clicked, and the price screen, whose sign is written with the recommended
/// price, to the confirmation, after which it is reported with the recommended item, amount and
/// price.
pub proof fn law_recommended_offer_is_placed(
    t: TraderView,
    flip: BazaarFlip,
    bot_state: BotState,
    s: ClientView,
    menu: MenuView,
    page: WindowView,
    page_menus: spec_fn(nat) -> MenuView,
    page_times: spec_fn(nat) -> u64,
    shown: nat,
    button_slot: int,
    price: WindowView,
    price_menus: spec_fn(nat) -> MenuView,
    price_times: spec_fn(nat) -> u64,
    price_slot: int,
    confirm: WindowView,
    confirm_menus: spec_fn(nat) -> MenuView,
    confirm_times: spec_fn(nat) -> u64,
    ready: nat,
)
    requires
        orders_flips(t, bot_state),
        !flip.is_buy_order,
        shown >= 1,
        !lists_items(page.title) || shown == 1,
        forall|j: nat|
            1 <= j < shown ==> is_bare(#[trigger] page_menus(j), "Create Sell Offer"@)
                && page_times(j) < 1500,
        slot_named(page_menus(shown).slots, "Create Sell Offer"@) == Some(button_slot),
        slot_named(price_menus(1).slots, "Custom Price"@) == Some(price_slot),
        ready >= 1,
        !lists_items(confirm.title) || ready == 1,
        forall|j: nat|
            1 <= j < ready ==> is_bare(#[trigger] confirm_menus(j), "Create Sell Offer"@)
                && confirm_times(j) < 1500,
        is_past_the_button(
            confirm_menus(ready),
            confirm.title,
            confirm_times(ready),
            "Create Sell Offer"@,
        ),
    ensures
        ({
            let s0 = told(s, command_for(t, flip, bot_state), menu);
            let chosen = handled(s0, page, page_menus, page_times, shown + 1);
            let priced = handled(chosen.state, price, price_menus, price_times, 2);
            let placed = handled(
                on_sign(priced.state).state,
                confirm,
                confirm_menus,
                confirm_times,
                ready + 3,
            );
            &&& clicks_only(chosen.actions, page.id, button_slot)
            &&& clicks_only(priced.actions, price.id, price_slot)
            &&& writes_price(priced.state, flip.price_per_unit@)
            &&& clicks_only(placed.actions, confirm.id, 13)
            &&& placed.phase is Done
            &&& placed.actions.contains(
                ActionView::Emit(
                    BotEventView::BazaarOrderPlaced(
                        flip.item_name@,
                        flip.amount,
                        flip.price_per_unit@,
                        false,
                    ),
                ),
            )
            &&& placed.state.bot_state is Idle
        }),
{
    law_every_bazaar_flip_is_ordered(t, flip, bot_state, false, None, 0);
    let s0 = told(s, command_for(t, flip, bot_state), menu);
    law_item_page_leads_to_the_order(s0, page, page_menus, page_times, shown, button_slot);
    let s1 = handled(s0, page, page_menus, page_times, shown + 1).state;
    law_price_screen_takes_the_price(s1, price, price_menus, price_times, price_slot);
    let s2 = handled(s1, price, price_menus, price_times, 2).state;
    law_order_is_confirmed_and_reported(s2, confirm, confirm_menus, confirm_times, ready);
    let clicking = handled(s2, confirm, confirm_menus, confirm_times, ready + 2).actions;
    let placed = handled(s2, confirm, confirm_menus, confirm_times, ready + 3).actions;
    assert(placed[clicking.len() as int] == ActionView::Emit(
        BotEventView::BazaarOrderPlaced(
            flip.item_name@,
            flip.amount,
            flip.price_per_unit@,
            false,
        ),
    ));
}

/// A recommended buy order is carried out as it was recommended: through the item's page, where the
/// button for buy orders is clicked, and the screens for amount and price, whose signs are written
/// with the recommended amount and price, to the confirmation, after which it is reported with the
/// recommended item, amount and price.
pub proof fn law_recommended_buy_order_is_placed(
    t: TraderView,
    flip: BazaarFlip,
    bot_state: BotState,
    s: ClientView,
    menu: MenuView,
    page: WindowView,
    page_menus: spec_fn(nat) -> MenuView,
    page_times: spec_fn(nat) -> u64,
    shown: nat,
    button_slot: int,
    amount: WindowView,
    amount_menus: spec_fn(nat) -> MenuView,
    amount_times: spec_fn(nat) -> u64,
    amount_slot: int,
    price: WindowView,
    price_menus: spec_fn(nat) -> MenuView,
    price_times: spec_fn(nat) -> u64,
    asked: nat,
    price_slot: int,
    confirm: WindowView,
    confirm_menus: spec_fn(nat) -> MenuView,
    confirm_times: spec_fn(nat) -> u64,
    ready: nat,
)
    requires
        orders_flips(t, bot_state),
        flip.is_buy_order,
        shown >= 1,
        !lists_items(page.title) || shown == 1,
        forall|j: nat|
            1 <= j < shown ==> is_bare(#[trigger] page_menus(j), "Create Buy Order"@)
                && page_times(j) < 1500,
        slot_named(page_menus(shown).slots, "Create Buy Order"@) == Some(button_slot),
        slot_named(amount_menus(1).slots, "Custom Amount"@) == Some(amount_slot),
        asked >= 1,
        !lists_items(price.title) || asked == 1,
        forall|j: nat|
            1 <= j < asked ==> is_bare(#[trigger] price_menus(j), "Create Buy Order"@)
                && price_times(j) < 1500,
        is_past_the_button(
            price_menus(asked),
            price.title,
            price_times(asked),
            "Create Buy Order"@,
        ),
        slot_named(price_menus(asked + 1).slots, "Custom Price"@) == Some(price_slot),
        ready >= 1,
        !lists_items(confirm.title) || ready == 1,
        forall|j: nat|
            1 <= j < ready ==> is_bare(#[trigger] confirm_menus(j), "Create Buy Order"@)
                && confirm_times(j) < 1500,
        is_past_the_button(
            confirm_menus(ready),
            confirm.title,
            confirm_times(ready),
            "Create Buy Order"@,
        ),
    ensures
        ({
            let s0 = told(s, command_for(t, flip, bot_state), menu);
            let chosen = handled(s0, page, page_menus, page_times, shown + 1);
            let counted = handled(chosen.state, amount, amount_menus, amount_times, 2);
            let priced = handled(
                on_sign(counted.state).state,
                price,
                price_menus,
                price_times,
                asked + 2,
            );
            let placed = handled(
                on_sign(priced.state).state,
                confirm,
                confirm_menus,
                confirm_times,
                ready + 3,
            );
            &&& clicks_only(chosen.actions, page.id, button_slot)
            &&& clicks_only(counted.actions, amount.id, amount_slot)
            &&& writes_price(counted.state, decimal(flip.amount as nat))
            &&& clicks_only(priced.actions, price.id, price_slot)
            &&& writes_price(priced.state, flip.price_per_unit@)
            &&& clicks_only(placed.actions, confirm.id, 13)
            &&& placed.phase is Done
            &&& placed.actions.contains(
                ActionView::Emit(
                    BotEventView::BazaarOrderPlaced(
                        flip.item_name@,
                        flip.amount,
                        flip.price_per_unit@,
                        true,
                    ),
                ),
            )
            &&& placed.state.bot_state is Idle
        }),
{
    law_every_bazaar_flip_is_ordered(t, flip, bot_state, false, None, 0);
    let s0 = told(s, command_for(t, flip, bot_state), menu);
    law_item_page_leads_to_the_order(s0, page, page_menus, page_times, shown, button_slot);
    let s1 = handled(s0, page, page_menus, page_times, shown + 1).state;
    law_amount_screen_takes_the_amount(s1, amount, amount_menus, amount_times, amount_slot);
    let s2 = handled(s1, amount, amount_menus, amount_times, 2).state;
    law_price_follows_the_amount(s2, price, price_menus, price_times, asked, price_slot);
    let s3 = handled(s2, price, price_menus, price_times, asked + 2).state;
    law_order_is_confirmed_and_reported(s3, confirm, confirm_menus, confirm_times, ready);
    let clicking = handled(s3, confirm, confirm_menus, confirm_times, ready + 2).actions;
    let placed = handled(s3, confirm, confirm_menus, confirm_times, ready + 3).actions;
    assert(placed[clicking.len() as int] == ActionView::Emit(
        BotEventView::BazaarOrderPlaced(flip.item_name@, flip.amount, flip.price_per_unit@, true),
    ));
}

// ---- Other messages of the flip service ----

/// The text of the member `key`, if there is one.
pub open spec fn text_member(value: JsonView, key: Seq<char>) -> Option<Seq<char>> {
    match value.get(key) {
        Some(JsonView::Text(text)) => Some(text),
        _ => None,
    }
}

/// The number of the member `key`, if there is one that is not negative.
pub open spec fn number_member(value: JsonView, key: Seq<char>) -> Option<u64> {
    match value.get(key) {
        Some(JsonView::Unsigned(n)) => Some(n),
        _ => None,
    }
}

/// A reaction to what the flip service sends.
pub open spec fn reaction_to(t: TraderView, event: CoflEvent) -> Reaction {
    on_cofl_event(t, event, BotState::Idle, false, None, 0)
}

/// What the flip service sends is answered the same whenever it comes, but for flips, which depend
/// on what the bot is doing, and the inventory.
pub proof fn law_only_flips_depend_on_the_bot(
    t: TraderView,
    event: CoflEvent,
    bot_state: BotState,
    at_order_limit: bool,
    inventory: Option<Seq<char>>,
    now: u64,
)
    requires
        !(event is AuctionFlip),
        !(event is BazaarFlip),
        !(event is GetInventory),
    ensures
        on_cofl_event(t, event, bot_state, at_order_limit, inventory, now) == reaction_to(t, event),
{
}

/// An auction that the flip service asks for is put up exactly where an item, a price and a duration
/// are given: ahead of other commands, not to be interrupted, with the item's name without colors
/// and with the slot and the id, where they are given. Nothing else is done.
pub proof fn law_requested_auction_is_put_up(t: TraderView, data: String)
    ensures
        ({
            let reaction = reaction_to(t, CoflEvent::CreateAuction(data));
            let listing = match parsed_json(data@) {
                Some(value) => match (
                    text_member(value, "itemName"@),
                    number_member(value, "price"@),
                    number_member(value, "duration"@),
                ) {
                    (Some(item), Some(price), Some(duration)) => Some(
                        ListingView {
                            item_name: without_colors(item),
                            starting_bid: price,
                            duration_hours: duration,
                            item_slot: number_member(value, "slot"@),
                            item_id: text_member(value, "id"@),
                        },
                    ),
                    _ => None,
                },
                None => None,
            };
            &&& reaction.trader == t
            &&& match listing {
                Some(listing) => reaction.tasks == seq![
                    TaskView::Enqueue(
                        QueuedView {
                            command: CommandView::SellToAuction(listing),
                            priority: CommandPriority::High,
                            interruptible: false,
                        },
                    ),
                ],
                None => reaction.tasks.len() == 0,
            }
        }),
{
}

/// A trade that the flip service asks for is made exactly where a player is given, ahead of other
/// commands. Nothing else is done.
pub proof fn law_requested_trade_is_made(t: TraderView, data: String)
    ensures
        ({
            let reaction = reaction_to(t, CoflEvent::Trade(data));
            let player = match parsed_json(data@) {
                Some(value) => text_member(value, "playerName"@),
                None => None,
            };
            &&& reaction.trader == t
            &&& match player {
                Some(player) => reaction.tasks == seq![
                    TaskView::Enqueue(
                        QueuedView {
                            command: CommandView::AcceptTrade(player),
                            priority: CommandPriority::High,
                            interruptible: false,
                        },
                    ),
                ],
                None => reaction.tasks.len() == 0,
            }
        }),
{
}

/// A trade is accepted by slot 39, and a profile is swapped to the one that is named, both ahead of
/// other commands; settings and sequences are not acted on.
pub proof fn law_simple_requests_are_queued(t: TraderView, name: String)
    ensures
        reaction_to(t, CoflEvent::TradeResponse) == (Reaction {
            trader: t,
            tasks: seq![
                TaskView::Enqueue(
                    QueuedView {
                        command: CommandView::ClickSlot(39),
                        priority: CommandPriority::High,
                        interruptible: false,
                    },
                ),
            ],
        }),
        reaction_to(t, CoflEvent::SwapProfile(name)) == (Reaction {
            trader: t,
            tasks: seq![
                TaskView::Enqueue(
                    QueuedView {
                        command: CommandView::SwapProfile(name@),
                        priority: CommandPriority::High,
                        interruptible: false,
                    },
                ),
            ],
        }),
        reaction_to(t, CoflEvent::PrivacySettings(name)) == (Reaction {
            trader: t,
            tasks: Seq::empty(),
        }),
        reaction_to(t, CoflEvent::RunSequence(name)) == (Reaction { trader: t, tasks: Seq::empty() }),
{
}

/// The inventory that was last seen is sent back as it is, and nothing where none was seen.
pub proof fn law_inventory_is_sent_on_request(
    t: TraderView,
    bot_state: BotState,
    at_order_limit: bool,
    inventory: Option<Seq<char>>,
    now: u64,
)
    ensures
        ({
            let reaction = on_cofl_event(
                t,
                CoflEvent::GetInventory,
                bot_state,
                at_order_limit,
                inventory,
                now,
            );
            &&& reaction.trader == t
            &&& match inventory {
                Some(text) => reaction.tasks == seq![
                    TaskView::Send(service_message("uploadInventory"@, text)),
                ],
                None => reaction.tasks.len() == 0,
            }
        }),
{
}

/// A chat message of the flip service is printed exactly where the user wants that, as it is. What
/// it says of the connection and of the premium tier is kept; what it does not speak of stays.
pub proof fn law_service_chat_is_read(t: TraderView, message: String)
    ensures
        ({
            let reaction = reaction_to(t, CoflEvent::ChatMessage(message));
            let after = reaction.trader;
            &&& t.use_cofl_chat ==> reaction.tasks == seq![TaskView::Print(message@)]
            &&& !t.use_cofl_chat ==> reaction.tasks.len() == 0
            &&& connection_id(message@) is Some ==> after.connection == connection_id(message@)
            &&& connection_id(message@) is None ==> after.connection == t.connection
            &&& premium(message@) is Some ==> after.premium == premium(message@)
            &&& premium(message@) is None ==> after.premium == t.premium
            &&& after == (TraderView {
                connection: after.connection,
                premium: after.premium,
                ..t
            })
        }),
{
}

/// Auction flips that are about to come pause the bazaar flips for twenty seconds, where both kinds
/// are enabled; otherwise nothing happens. When the pause is over, new flips are asked for.
pub proof fn law_countdown_pauses_for_twenty_seconds(t: TraderView)
    ensures
        ({
            let reaction = reaction_to(t, CoflEvent::Countdown);
            if t.enable_ah_flips && t.enable_bazaar_flips {
                &&& reaction.trader == (TraderView { bazaar_paused: true, ..t })
                &&& reaction.tasks.len() == 2
                &&& reaction.tasks[0] is Print
                &&& reaction.tasks[1] == TaskView::ResumeBazaarAfter(20_000)
            } else {
                reaction.trader == t && reaction.tasks.len() == 0
            }
        }),
        on_resume(t).trader == (TraderView { bazaar_paused: false, ..t }),
        sent(on_resume(t).tasks) == (if t.enable_bazaar_flips {
            seq![service_message("getbazaarflips"@, json_text(JsonView::Text(""@)))]
        } else {
            Seq::empty()
        }),
        enqueued(on_resume(t).tasks).len() == 0,
{
    lemma_few_tasks(on_resume(t).tasks);
    assert(sent(on_resume(t).tasks) =~= (if t.enable_bazaar_flips {
        seq![service_message("getbazaarflips"@, json_text(JsonView::Text(""@)))]
    } else {
        Seq::empty()
    }));
}

/// A command of the flip service goes where its line goes: back to the service, into the queue, or
/// nowhere. Nothing else is done.
pub proof fn law_service_command_is_routed(t: TraderView, command: String)
    ensures
        ({
            let reaction = reaction_to(t, CoflEvent::Command(command));
            let route = service_route(command@, lowercase(trimmed(command@)));
            &&& reaction.trader == t
            &&& route matches RouteView::Send(message) ==> reaction.tasks == seq![
                TaskView::Send(message),
            ]
            &&& route matches RouteView::Queue(queued) ==> reaction.tasks == seq![
                TaskView::Enqueue(queued),
            ]
            &&& !(route is Send) && !(route is Queue) ==> reaction.tasks.len() == 0
        }),
{
}

// ---- Reports of the bot ----

/// The upload of a scoreboard with these lines.
pub open spec fn board_upload(lines: Seq<Seq<char>>) -> Seq<char> {
    service_message(
        "uploadScoreboard"@,
        json_text(JsonView::Array(lines.map_values(|line: Seq<char>| JsonView::Text(line)))),
    )
}

/// The scoreboard is uploaded as an array of its lines.
proof fn lemma_board_upload(lines: Seq<Seq<char>>)
    ensures
        board_message(lines) == board_upload(lines),
{
    assert(text_array(lines)->Array_0 =~= lines.map_values(
        |line: Seq<char>| JsonView::Text(line),
    ));
}

/// A purchase is claimed behind other commands, not to be interrupted, and reported: the scoreboard
/// is uploaded, the purchase is printed, and the user, who wants that, is told the item, the price,
/// and, where a flip of it was received, its target, its auction and what is left of the target
/// after the fee and the price. A flip of it is from then on known with the price.
pub proof fn law_purchase_is_claimed_and_reported(
    t: TraderView,
    item: Seq<char>,
    price: u64,
    c: CircumstancesView,
)
    requires
        lookup(t.flips, flip_key(item)) matches Some(record) ==> record.flip.target <= i64::MAX
            && price <= i64::MAX,
    ensures
        ({
            let (after, answer) = on_bot_event(t, BotEventView::ItemPurchased(item, price), c);
            let record = lookup(t.flips, flip_key(item));
            &&& answer matches Some(tasks) && enqueued(tasks) == seq![
                QueuedView {
                    command: CommandView::ClaimPurchasedItem,
                    priority: CommandPriority::Normal,
                    interruptible: false,
                },
            ] && sent(tasks) == seq![board_upload(c.lines), service_message("uploadTab"@, "[]"@)]
                && printed(tasks).len() == 1 && occurs_in(
                printed(tasks)[0],
                match record {
                    Some(r) => r.flip.item_name,
                    None => item,
                },
            ) && occurs_in(printed(tasks)[0], amount_text(price)) && notified(tasks) == (
            if t.notifies {
                seq![
                    NoticeView::ItemPurchased {
                        item,
                        price,
                        target: match record {
                            Some(r) => Some(r.flip.target),
                            None => None,
                        },
                        profit: match record {
                            Some(r) => Some(
                                (r.flip.target - price - ah_fee(r.flip.target as nat)) as i64,
                            ),
                            None => None,
                        },
                        purse: c.purse,
                        buy_speed_ms: c.buy_speed_ms,
                        uuid: match record {
                            Some(r) => r.flip.uuid,
                            None => None,
                        },
                    },
                ]
            } else {
                Seq::empty()
            })
            &&& lookup(after.flips, flip_key(item)) == (match record {
                Some(r) => Some(RecordView { buy_price: price, bought_at: c.now, ..r }),
                None => None,
            })
            &&& after == (TraderView { flips: after.flips, ..t })
        }),
{
    let (after, answer) = on_bot_event(t, BotEventView::ItemPurchased(item, price), c);
    let tasks = answer->Some_0;
    let record = lookup(t.flips, flip_key(item));
    if let Some(r) = record {
        law_profit_is_exact(r.flip.target, price, price);
        law_purchase_is_named(
            r.flip.item_name,
            price,
            Some((r.flip.target - price - ah_fee(r.flip.target as nat)) as i64),
            c.buy_speed_ms,
        );
    } else {
        law_purchase_is_named(item, price, None, c.buy_speed_ms);
    }
    lemma_few_tasks(tasks);
    lemma_board_upload(c.lines);
    assert(enqueued(tasks) =~= seq![
        QueuedView {
            command: CommandView::ClaimPurchasedItem,
            priority: CommandPriority::Normal,
            interruptible: false,
        },
    ]);
    assert(sent(tasks) =~= seq![board_upload(c.lines), service_message("uploadTab"@, "[]"@)]);
    assert(after =~= TraderView { flips: after.flips, ..t });
}

/// A sale is claimed ahead of other commands, and may be interrupted, and reported: the sale is
/// printed, and the user, who wants that, is told the item, the price, the buyer, and, where it was
/// bought as a flip, its auction, what was paid, what is left of the price after the fee and what
/// was paid, and for how many whole seconds it was held. It is then forgotten.
pub proof fn law_sale_is_claimed_and_reported(
    t: TraderView,
    item: Seq<char>,
    price: u64,
    buyer: Seq<char>,
    c: CircumstancesView,
)
    requires
        lookup(t.flips, flip_key(item)) matches Some(record) ==> record.buy_price <= i64::MAX
            && price <= i64::MAX && record.bought_at <= c.now,
    ensures
        ({
            let (after, answer) = on_bot_event(t, BotEventView::ItemSold(item, price, buyer), c);
            let record = lookup(t.flips, flip_key(item));
            let bought = record matches Some(r) && r.buy_price > 0;
            &&& answer matches Some(tasks) && enqueued(tasks) == seq![
                QueuedView {
                    command: CommandView::ClaimSoldItem,
                    priority: CommandPriority::High,
                    interruptible: true,
                },
            ] && sent(tasks).len() == 0 && printed(tasks).len() == 1 && occurs_in(
                printed(tasks)[0],
                item,
            ) && occurs_in(printed(tasks)[0], buyer) && occurs_in(
                printed(tasks)[0],
                amount_text(price),
            ) && notified(tasks) == (if t.notifies {
                seq![
                    NoticeView::ItemSold {
                        item,
                        price,
                        buyer,
                        profit: if bought {
                            Some((price - record->Some_0.buy_price - ah_fee(price as nat)) as i64)
                        } else {
                            None
                        },
                        buy_price: if bought {
                            Some(record->Some_0.buy_price)
                        } else {
                            None
                        },
                        held_secs: if bought {
                            Some(((c.now - record->Some_0.bought_at) / 1_000_000_000) as u64)
                        } else {
                            None
                        },
                        purse: c.purse,
                        uuid: match record {
                            Some(r) => r.flip.uuid,
                            None => None,
                        },
                    },
                ]
            } else {
                Seq::empty()
            })
            &&& lookup(after.flips, flip_key(item)) is None
            &&& after == (TraderView { flips: after.flips, ..t })
        }),
{
    let (after, answer) = on_bot_event(t, BotEventView::ItemSold(item, price, buyer), c);
    let tasks = answer->Some_0;
    let record = lookup(t.flips, flip_key(item));
    if let Some(r) = record {
        law_profit_is_exact(price, r.buy_price, r.buy_price);
    }
    law_sale_is_named(item, buyer, price, made_profit(record, price));
    lemma_few_tasks(tasks);
    assert(enqueued(tasks) =~= seq![
        QueuedView {
            command: CommandView::ClaimSoldItem,
            priority: CommandPriority::High,
            interruptible: true,
        },
    ]);
    assert(after =~= TraderView { flips: after.flips, ..t });
}

/// When the startup is complete, the scoreboard is uploaded, bazaar flips are asked for where they
/// are enabled, and the user, who wants that, is told what is enabled and what is known.
pub proof fn law_startup_is_reported(t: TraderView, c: CircumstancesView)
    ensures
        ({
            let (after, answer) = on_bot_event(t, BotEventView::StartupComplete, c);
            &&& after == t
            &&& answer matches Some(tasks) && enqueued(tasks).len() == 0 && sent(tasks) == seq![
                board_upload(c.lines),
                service_message("uploadTab"@, "[]"@),
            ] + (if t.enable_bazaar_flips {
                seq![service_message("getbazaarflips"@, json_text(JsonView::Text(""@)))]
            } else {
                Seq::empty()
            }) && notified(tasks) == (if t.notifies {
                seq![
                    NoticeView::StartupComplete {
                        orders_cancelled: c.orders_cancelled,
                        auction_house: t.enable_ah_flips,
                        bazaar: t.enable_bazaar_flips,
                        connection: t.connection,
                        premium: t.premium,
                    },
                ]
            } else {
                Seq::empty()
            })
        }),
{
    let (after, answer) = on_bot_event(t, BotEventView::StartupComplete, c);
    let tasks = answer->Some_0;
    lemma_few_tasks(tasks);
    lemma_board_upload(c.lines);
    assert(sent(tasks) =~= seq![
        board_upload(c.lines),
        service_message("uploadTab"@, "[]"@),
    ] + (if t.enable_bazaar_flips {
        seq![service_message("getbazaarflips"@, json_text(JsonView::Text(""@)))]
    } else {
        Seq::empty()
    }));
}

/// An order that was placed and an auction that was put up are printed, and the user, who wants
/// that, is told them as they were reported. A chat message is printed as it is. Nothing is queued
/// or kept.
pub proof fn law_other_reports_are_passed_on(
    t: TraderView,
    item: Seq<char>,
    amount: u64,
    price_per_unit: Seq<char>,
    is_buy_order: bool,
    starting_bid: u64,
    duration_hours: u64,
    message: Seq<char>,
    c: CircumstancesView,
)
    ensures
        ({
            let event = BotEventView::BazaarOrderPlaced(item, amount, price_per_unit, is_buy_order);
            let (after, answer) = on_bot_event(t, event, c);
            &&& after == t
            &&& answer matches Some(tasks) && enqueued(tasks).len() == 0 && sent(tasks).len() == 0
                && printed(tasks).len() == 1 && occurs_in(printed(tasks)[0], item) && notified(
                tasks,
            ) == (if t.notifies {
                seq![
                    NoticeView::BazaarOrderPlaced {
                        item,
                        amount,
                        price_per_unit,
                        is_buy_order,
                        purse: c.purse,
                    },
                ]
            } else {
                Seq::empty()
            })
        }),
        ({
            let event = BotEventView::AuctionListed(item, starting_bid, duration_hours);
            let (after, answer) = on_bot_event(t, event, c);
            &&& after == t
            &&& answer matches Some(tasks) && enqueued(tasks).len() == 0 && sent(tasks).len() == 0
                && printed(tasks).len() == 1 && occurs_in(printed(tasks)[0], item) && notified(
                tasks,
            ) == (if t.notifies {
                seq![
                    NoticeView::AuctionListed {
                        item,
                        starting_bid,
                        duration_hours,
                        purse: c.purse,
                    },
                ]
            } else {
                Seq::empty()
            })
        }),
        on_bot_event(t, BotEventView::ChatMessage(message), c) == (
            t,
            Some(seq![TaskView::Print(message)]),
        ),
{
    let placed = BotEventView::BazaarOrderPlaced(item, amount, price_per_unit, is_buy_order);
    lemma_few_tasks(on_bot_event(t, placed, c).1->Some_0);
    law_placed_order_is_named(item, amount, c.price_in_coins, is_buy_order);
    let listed = BotEventView::AuctionListed(item, starting_bid, duration_hours);
    lemma_few_tasks(on_bot_event(t, listed, c).1->Some_0);
    law_listing_is_named(item, starting_bid, duration_hours);
}

/// A bot that is found away from its island, outside the startup and the management of orders, is
/// sent to the lobby, to SkyBlock and to its island, in that order and ahead of other commands. One
/// whose scoreboard is empty, or shows the island in any of its lines, is left alone.
pub proof fn law_bot_is_sent_home(bot_state: BotState, lines: Seq<Seq<char>>)
    ensures
        ({
            let away = forall|i: int|
                0 <= i < lines.len() ==> !occurs_in(#[trigger] lines[i], "Your Island"@);
            let says = |line: Seq<char>|
                QueuedView {
                    command: CommandView::SendChat(line),
                    priority: CommandPriority::High,
                    interruptible: false,
                };
            if lines.len() > 0 && away && !(bot_state is Startup) && !(bot_state is ManagingOrders) {
                enqueued(guard_tasks(bot_state, lines)) == seq![
                    says("/lobby"@),
                    says("/play sb"@),
                    says("/is"@),
                ]
            } else {
                guard_tasks(bot_state, lines).len() == 0
            }
        }),
{
    lemma_few_tasks(guard_tasks(bot_state, lines));
    let says = |line: Seq<char>|
        QueuedView {
            command: CommandView::SendChat(line),
            priority: CommandPriority::High,
            interruptible: false,
        };
    if guard_tasks(bot_state, lines).len() > 0 {
        assert(enqueued(guard_tasks(bot_state, lines)) =~= seq![
            says("/lobby"@),
            says("/play sb"@),
            says("/is"@),
        ]);
    }
}

/// There is no report of a purchase or a sale only where its profit leaves the signed range, and a
/// sale before its purchase, by the clock, was held for no time. Of other events nothing comes.
pub proof fn law_reports_fail_only_beyond_the_range(
    t: TraderView,
    item: Seq<char>,
    price: u64,
    buyer: Seq<char>,
    event: BotEventView,
    c: CircumstancesView,
)
    ensures
        ({
            let record = lookup(t.flips, flip_key(item));
            &&& on_bot_event(t, BotEventView::ItemPurchased(item, price), c).1 is None
                <==> (record matches Some(r) && !profit_fits(r.flip.target, price))
            &&& on_bot_event(t, BotEventView::ItemSold(item, price, buyer), c).1 is None
                <==> (record matches Some(r) && r.buy_price > 0 && !profit_fits(price, r.buy_price))
            &&& record matches Some(r) ==> (r.buy_price > 0 && c.now < r.bought_at ==> held_secs(
                record,
                c.now,
            ) == Some(0u64))
        }),
        event is Login || event is Spawn || event is WindowOpen || event is WindowClose
            || event is Disconnected || event is Kicked ==> on_bot_event(t, event, c) == (
            t,
            Some(Seq::<TaskView>::empty()),
        ),
{
}

/// Bazaar flips are asked for every five minutes and the scoreboard is uploaded every five seconds,
/// while the bot is not tied up, the latter only where there is one. The island guard begins after a
/// minute and looks every ten seconds, with half a minute more after it has sent the bot back.
pub proof fn law_timers_keep_their_times(bot_state: BotState, lines: Seq<Seq<char>>)
    ensures
        periodic_request(bot_state) == (if is_tied_up(bot_state) {
            None
        } else {
            Some(service_message("getbazaarflips"@, json_text(JsonView::Text(""@))))
        }),
        periodic_upload(bot_state, lines) == (if is_tied_up(bot_state) || lines.len() == 0 {
            None
        } else {
            Some(board_upload(lines))
        }),
        BAZAAR_REQUEST_INTERVAL_MS == 300_000,
        BOARD_UPLOAD_INTERVAL_MS == 5_000,
        ISLAND_FIRST_WAIT_MS == 60_000,
        guard_wait(false) == 10_000,
        guard_wait(true) == 40_000,
        INITIAL_NOTICE_DELAY_MS == 3_000,
{
    lemma_board_upload(lines);
}

/// The start of the bot is told to the user, who wants that, with what is enabled and what is known,
/// and to nobody else.
pub proof fn law_start_is_told_to_the_user(t: TraderView)
    ensures
        !t.notifies ==> on_initialized(t).len() == 0,
        t.notifies ==> on_initialized(t) == seq![
            TaskView::Notify(
                NoticeView::Initialized {
                    auction_house: t.enable_ah_flips,
                    bazaar: t.enable_bazaar_flips,
                    connection: t.connection,
                    premium: t.premium,
                },
            ),
        ],
{
}

} // verus!
