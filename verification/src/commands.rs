//! What the bot does to carry out a command.

use vstd::prelude::*;

use crate::actions::{
    actions_of, both, chat, click, click_window_slot, just, no_actions, Action, ActionView,
    AuctionStep, BazaarStep, ContainerClick,
};
use crate::client::{BotClientState, ClientView, Outcome};
use crate::inventory::{inventory_json, service_message, upload_inventory, Menu, MenuView};
use crate::json::json_text;
use crate::letters::{title_case, to_title_case};
use crate::scoreboard::opt_text;
use crate::types::{
    copy_opt, BotState, CommandType, CommandView, Flip, FlipView, ListingView, OrderView,
};

verus! {

/// How long the bot looks at a trade before it accepts it, in milliseconds.
pub const TRADE_RESPONSE_DELAY_MS: u64 = 3400;

/// Only this is said in the chat, and the state becomes `state`.
pub open spec fn says(state: ClientView, message: Seq<char>) -> Outcome {
    Outcome { state, actions: seq![ActionView::Chat(message)] }
}

/// Opening an auction to buy it, if it is known which.
pub open spec fn on_purchase(s: ClientView, flip: FlipView) -> Outcome {
    match flip.uuid {
        Some(uuid) => if uuid.len() > 0 {
            says(ClientView { bot_state: BotState::Purchasing, ..s }, "/viewauction "@ + uuid)
        } else {
            Outcome { state: s, actions: Seq::empty() }
        },
        None => Outcome { state: s, actions: Seq::empty() },
    }
}

/// Starting a bazaar order: the order is kept for the windows to come, and the item is looked up
/// by its tag, or by its name in title case where it has none.
pub open spec fn on_order(
    s: ClientView,
    order: OrderView,
    is_buy_order: bool,
) -> Outcome {
    says(
        ClientView {
            bot_state: BotState::Bazaar,
            bazaar_item_name: order.item_name,
            bazaar_amount: order.amount,
            bazaar_price_per_unit: order.price_per_unit,
            bazaar_is_buy_order: is_buy_order,
            bazaar_step: BazaarStep::Initial,
            ..s
        },
        "/bz "@ + match order.item_tag {
            Some(tag) => tag,
            None => title_case(order.item_name),
        },
    )
}

/// Starting to put an item up for auction.
pub open spec fn on_listing(s: ClientView, listing: ListingView) -> Outcome {
    says(
        ClientView {
            bot_state: BotState::Selling,
            auction_item_name: listing.item_name,
            auction_starting_bid: listing.starting_bid,
            auction_duration_hours: listing.duration_hours,
            auction_item_slot: listing.item_slot,
            auction_item_id: listing.item_id,
            auction_step: AuctionStep::Initial,
            ..s
        },
        "/ah"@,
    )
}

/// Starting to claim what was sold: from its auction, if that is known, or else from the auction
/// house.
pub open spec fn on_claim_of_sale(s: ClientView) -> Outcome {
    says(
        ClientView { claiming_purchased: false, bot_state: BotState::ClaimingSold, ..s },
        match s.claim_sold_uuid {
            Some(uuid) => "/viewauction "@ + uuid,
            None => "/ah"@,
        },
    )
}

/// What comes of a command. `menu` is the menu that is open.
pub open spec fn on_command(
    s: ClientView,
    command: CommandView,
    menu: MenuView,
) -> Outcome {
    match command {
        CommandView::SendChat(message) => says(s, message),
        CommandView::PurchaseAuction(flip) => on_purchase(s, flip),
        CommandView::BazaarBuyOrder(order) => on_order(s, order, true),
        CommandView::BazaarSellOrder(order) => on_order(s, order, false),
        CommandView::ClickSlot(slot) => Outcome {
            state: s,
            actions: seq![
                ActionView::Wait(TRADE_RESPONSE_DELAY_MS),
                ActionView::ClickOpenWindow(slot),
            ],
        },
        CommandView::SwapProfile(_) => says(s, "/profiles"@),
        CommandView::AcceptTrade(player) => says(s, "/trade "@ + player),
        CommandView::SellToAuction(listing) => on_listing(s, listing),
        CommandView::UploadInventory => Outcome {
            state: s,
            actions: if s.ws_connected {
                seq![
                    ActionView::Upload(
                        service_message(
                            "uploadInventory"@,
                            json_text(inventory_json(menu.player_items())),
                        ),
                    ),
                ]
            } else {
                Seq::empty()
            },
        },
        CommandView::ClaimSoldItem => on_claim_of_sale(s),
        CommandView::ClaimPurchasedItem => says(
            ClientView {
                claiming_purchased: true,
                claim_sold_uuid: None,
                bot_state: BotState::ClaimingPurchased,
                ..s
            },
            "/ah"@,
        ),
        CommandView::CheckCookie | CommandView::DiscoverOrders | CommandView::ExecuteOrders => Outcome {
            state: s,
            actions: Seq::empty(),
        },
    }
}

/// Say `first` and `second` in one message.
fn chat_both(first: &str, second: &str) -> (r: Vec<Action>)
    ensures
        actions_of(r@) == seq![ActionView::Chat(first@ + second@)],
{
    let mut message = first.to_owned();
    message.append(second);
    just(Action::Chat(message))
}

impl BotClientState {
    /// Open an auction to buy it, if it is known which.
    fn start_purchase(&mut self, flip: &Flip) -> (r: Vec<Action>)
        ensures
            final(self)@ == on_purchase(old(self)@, flip@).state,
            actions_of(r@) == on_purchase(old(self)@, flip@).actions,
    {
        match &flip.uuid {
            Some(uuid) => {
                if uuid.as_str().is_empty() {
                    no_actions()
                } else {
                    self.bot_state = BotState::Purchasing;
                    chat_both("/viewauction ", uuid.as_str())
                }
            },
            None => no_actions(),
        }
    }

    /// Start to put an item up for auction.
    fn start_listing(
        &mut self,
        item_name: &String,
        starting_bid: u64,
        duration_hours: u64,
        item_slot: Option<u64>,
        item_id: &Option<String>,
    ) -> (r: Vec<Action>)
        ensures
            ({
                let listing = ListingView {
                    item_name: item_name@,
                    starting_bid,
                    duration_hours,
                    item_slot,
                    item_id: opt_text(*item_id),
                };
                &&& final(self)@ == on_listing(old(self)@, listing).state
                &&& actions_of(r@) == on_listing(old(self)@, listing).actions
            }),
    {
        self.auction_item_name = item_name.clone();
        self.auction_starting_bid = starting_bid;
        self.auction_duration_hours = duration_hours;
        self.auction_item_slot = item_slot;
        self.auction_item_id = copy_opt(item_id);
        self.auction_step = AuctionStep::Initial;
        self.bot_state = BotState::Selling;
        just(chat("/ah"))
    }

    /// Start to claim what was sold.
    fn start_claim_of_sale(&mut self) -> (r: Vec<Action>)
        ensures
            final(self)@ == on_claim_of_sale(old(self)@).state,
            actions_of(r@) == on_claim_of_sale(old(self)@).actions,
    {
        self.claiming_purchased = false;
        self.bot_state = BotState::ClaimingSold;
        match &self.claim_sold_uuid {
            Some(uuid) => chat_both("/viewauction ", uuid.as_str()),
            None => just(chat("/ah")),
        }
    }

    /// Start a bazaar order.
    fn start_order(
        &mut self,
        item_name: &String,
        item_tag: &Option<String>,
        amount: u64,
        price_per_unit: &String,
        is_buy_order: bool,
    ) -> (r: Vec<Action>)
        ensures
            ({
                let order = OrderView {
                    item_name: item_name@,
                    item_tag: opt_text(*item_tag),
                    amount,
                    price_per_unit: price_per_unit@,
                };
                &&& final(self)@ == on_order(old(self)@, order, is_buy_order).state
                &&& actions_of(r@) == on_order(old(self)@, order, is_buy_order).actions
            }),
    {
        self.bazaar_item_name = item_name.clone();
        self.bazaar_amount = amount;
        self.bazaar_price_per_unit = price_per_unit.clone();
        self.bazaar_is_buy_order = is_buy_order;
        self.bazaar_step = BazaarStep::Initial;
        self.bot_state = BotState::Bazaar;
        match item_tag {
            Some(tag) => chat_both("/bz ", tag.as_str()),
            None => {
                let titled = to_title_case(item_name.as_str());
                chat_both("/bz ", titled.as_str())
            },
        }
    }
}

/// Execute a command from the command queue. `menu` is the menu that is open.
pub fn execute_command(
    state: &mut BotClientState,
    command: &CommandType,
    menu: &Menu,
) -> (r: Vec<Action>)
    requires
        command is UploadInventory ==> menu@.well_formed(),
    ensures
        final(state)@ == on_command(old(state)@, command@, menu@).state,
        actions_of(r@) == on_command(old(state)@, command@, menu@).actions,
{
    match command {
        CommandType::SendChat { message } => just(chat(message.as_str())),
        CommandType::PurchaseAuction { flip } => state.start_purchase(flip),
        CommandType::BazaarBuyOrder { item_name, item_tag, amount, price_per_unit } =>
            state.start_order(item_name, item_tag, *amount, price_per_unit, true),
        CommandType::BazaarSellOrder { item_name, item_tag, amount, price_per_unit } =>
            state.start_order(item_name, item_tag, *amount, price_per_unit, false),
        CommandType::ClickSlot { slot } => both(
            Action::Wait(TRADE_RESPONSE_DELAY_MS),
            Action::ClickOpenWindow(*slot),
        ),
        CommandType::SwapProfile { .. } => just(chat("/profiles")),
        CommandType::AcceptTrade { player_name } => chat_both("/trade ", player_name.as_str()),
        CommandType::SellToAuction {
            item_name,
            starting_bid,
            duration_hours,
            item_slot,
            item_id,
        } => state.start_listing(item_name, *starting_bid, *duration_hours, *item_slot, item_id),
        CommandType::UploadInventory => {
            if state.ws_connected {
                just(Action::Upload(upload_inventory(menu)))
            } else {
                no_actions()
            }
        },
        CommandType::ClaimSoldItem => state.start_claim_of_sale(),
        CommandType::ClaimPurchasedItem => {
            state.claiming_purchased = true;
            state.claim_sold_uuid = None;
            state.bot_state = BotState::ClaimingPurchased;
            just(chat("/ah"))
        },
        CommandType::CheckCookie => no_actions(),
        CommandType::DiscoverOrders => no_actions(),
        CommandType::ExecuteOrders => no_actions(),
    }
}

/// The click on `slot` of the window that is open, if one is.
pub open spec fn open_window_click(s: ClientView, slot: i16) -> Option<ContainerClick> {
    if s.last_window_id > 0 {
        Some(click(s.last_window_id, slot, None))
    } else {
        None
    }
}

/// The click on `slot` of the window that is open, if one is.
pub fn click_open_window(state: &BotClientState, slot: i16) -> (r: Option<ContainerClick>)
    ensures
        r == open_window_click(state@, slot),
{
    if state.last_window_id > 0 {
        Some(click_window_slot(state.last_window_id, slot))
    } else {
        None
    }
}

/// A command leaves alone what it has no business with: the way to the island, the scoreboard, the
/// windows, the connection and the settings.
pub proof fn law_commands_leave_the_connection_alone(
    s: ClientView,
    command: CommandView,
    menu: MenuView,
)
    ensures
        ({
            let after = on_command(s, command, menu).state;
            &&& after.joined_skyblock == s.joined_skyblock
            &&& after.teleported_to_island == s.teleported_to_island
            &&& after.skyblock_join_time == s.skyblock_join_time
            &&& after.scoreboard == s.scoreboard
            &&& after.last_window_id == s.last_window_id
            &&& after.action_counter == s.action_counter
            &&& after.ws_connected == s.ws_connected
            &&& after.confirm_skip == s.confirm_skip
        }),
{
}

/// A bought item is claimed from the list of bids: the claim forgets the auction of an earlier sale.
pub proof fn law_purchase_claim_forgets_earlier_sale(
    s: ClientView,
    menu: MenuView,
)
    ensures
        ({
            let bought = on_command(s, CommandView::ClaimPurchasedItem, menu);
            let sold = on_command(bought.state, CommandView::ClaimSoldItem, menu);
            &&& bought.actions == seq![ActionView::Chat("/ah"@)]
            &&& sold.actions == seq![ActionView::Chat("/ah"@)]
        }),
{
}

/// What is to be said is said as it is, a profile is chosen from the profiles, and a trade is made
/// with the player that is named; none of this changes the state.
pub proof fn law_simple_commands_are_said(
    s: ClientView,
    message: Seq<char>,
    player: Seq<char>,
    slot: i16,
    menu: MenuView,
)
    ensures
        on_command(s, CommandView::SendChat(message), menu) == (Outcome {
            state: s,
            actions: seq![ActionView::Chat(message)],
        }),
        on_command(s, CommandView::SwapProfile(message), menu) == (Outcome {
            state: s,
            actions: seq![ActionView::Chat("/profiles"@)],
        }),
        on_command(s, CommandView::AcceptTrade(player), menu) == (Outcome {
            state: s,
            actions: seq![ActionView::Chat("/trade "@ + player)],
        }),
        on_command(s, CommandView::ClickSlot(slot), menu) == (Outcome {
            state: s,
            actions: seq![ActionView::Wait(3_400), ActionView::ClickOpenWindow(slot)],
        }),
        on_command(s, CommandView::CheckCookie, menu) == (Outcome {
            state: s,
            actions: Seq::empty(),
        }),
        on_command(s, CommandView::DiscoverOrders, menu) == (Outcome {
            state: s,
            actions: Seq::empty(),
        }),
        on_command(s, CommandView::ExecuteOrders, menu) == (Outcome {
            state: s,
            actions: Seq::empty(),
        }),
{
}

/// An auction is bought by its id: the view of that auction is opened, and the bot is buying from
/// then on. A flip without an id is left alone.
pub proof fn law_auction_is_opened_by_its_id(s: ClientView, flip: FlipView, menu: MenuView)
    ensures
        ({
            let outcome = on_command(s, CommandView::PurchaseAuction(flip), menu);
            if flip.uuid matches Some(id) && id.len() > 0 {
                &&& outcome.actions == seq![ActionView::Chat("/viewauction "@ + flip.uuid->Some_0)]
                &&& outcome.state == (ClientView { bot_state: BotState::Purchasing, ..s })
            } else {
                outcome.actions.len() == 0 && outcome.state == s
            }
        }),
{
}

/// What was sold is claimed from its auction where that is known, and otherwise from the auction
/// house; what was bought is claimed from the auction house.
pub proof fn law_claims_open_the_right_window(s: ClientView, menu: MenuView)
    ensures
        ({
            let sold = on_command(s, CommandView::ClaimSoldItem, menu);
            &&& sold.actions == seq![
                ActionView::Chat(
                    match s.claim_sold_uuid {
                        Some(id) => "/viewauction "@ + id,
                        None => "/ah"@,
                    },
                ),
            ]
            &&& sold.state == (ClientView {
                bot_state: BotState::ClaimingSold,
                claiming_purchased: false,
                ..s
            })
        }),
        ({
            let bought = on_command(s, CommandView::ClaimPurchasedItem, menu);
            &&& bought.actions == seq![ActionView::Chat("/ah"@)]
            &&& bought.state == (ClientView {
                bot_state: BotState::ClaimingPurchased,
                claiming_purchased: true,
                claim_sold_uuid: None,
                ..s
            })
        }),
{
}

/// The inventory is uploaded where there is a connection to the flip service: the player's own slots,
/// as JSON text inside the message. Without a connection nothing is done.
pub proof fn law_inventory_is_uploaded_to_a_connection(s: ClientView, menu: MenuView)
    ensures
        ({
            let outcome = on_command(s, CommandView::UploadInventory, menu);
            &&& outcome.state == s
            &&& !s.ws_connected ==> outcome.actions.len() == 0
            &&& s.ws_connected ==> outcome.actions == seq![
                ActionView::Upload(
                    service_message(
                        "uploadInventory"@,
                        json_text(
                            inventory_json(
                                menu.slots.subrange(
                                    menu.player_start as int,
                                    menu.player_end as int,
                                ),
                            ),
                        ),
                    ),
                ),
            ]
        }),
{
}

} // verus!
