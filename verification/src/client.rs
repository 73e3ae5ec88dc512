//! The bot client: its state, and what it does about the events of the game connection.

use vstd::prelude::*;

use crate::actions::{
    both, just, no_actions, sign_lines, then_do, write_sign, Action, ActionView, AuctionStep,
    Background, BazaarStep, BotEvent, BotEventView, ClickType, Window, WindowView,
    actions_of,
};
use crate::letters::{to_uppercase, uppercase};
use crate::messages::{
    extract_viewauction_uuid, parse_purchased_message, parse_sold_message, purchased, sold,
    viewauction_uuid,
};
use crate::scoreboard::{
    first_purse, opt_text, Scoreboard, ScoreboardView, TeamMethod, TeamMethodView,
};
use crate::text::{
    begins_with, contains, decimal, occurs_in, remove_mc_colors, starts_with, texts, to_decimal,
    without_colors,
};
use crate::types::BotState;

verus! {

/// How long the bot waits for a sign of having joined SkyBlock before it goes to the island anyway,
/// in nanoseconds.
pub const SKYBLOCK_JOIN_TIMEOUT_NANOS: u64 = 15_000_000_000;

/// What the handlers of the connection keep between events.
pub struct BotClientState {
    pub bot_state: BotState,
    /// Counts window clicks.
    pub action_counter: i16,
    pub last_window_id: u8,
    /// Whether SkyBlock has been joined.
    pub joined_skyblock: bool,
    /// Whether the bot has been sent to its island.
    pub teleported_to_island: bool,
    /// When SkyBlock was asked for, in nanoseconds of the process's clock.
    pub skyblock_join_time: Option<u64>,
    /// Whether there is a connection to the flip service.
    pub ws_connected: bool,
    /// true = claiming a purchased item, false = claiming a sold one.
    pub claiming_purchased: bool,
    /// The auction that is claimed directly.
    pub claim_sold_uuid: Option<String>,
    pub bazaar_item_name: String,
    pub bazaar_amount: u64,
    /// The price per unit of the current bazaar order, written in decimal.
    pub bazaar_price_per_unit: String,
    /// true = buy order, false = sell offer.
    pub bazaar_is_buy_order: bool,
    pub bazaar_step: BazaarStep,
    pub auction_item_name: String,
    pub auction_starting_bid: u64,
    pub auction_duration_hours: u64,
    /// The inventory slot (9 to 44) of the item to auction.
    pub auction_item_slot: Option<u64>,
    pub auction_item_id: Option<String>,
    pub auction_step: AuctionStep,
    pub scoreboard: Scoreboard,
    /// Whether the confirmation is clicked before its window has opened.
    pub confirm_skip: bool,
}

/// What the handlers keep, as the contracts speak of it.
#[verifier::ext_equal]
pub struct ClientView {
    pub bot_state: BotState,
    pub action_counter: i16,
    pub last_window_id: u8,
    pub joined_skyblock: bool,
    pub teleported_to_island: bool,
    pub skyblock_join_time: Option<u64>,
    pub ws_connected: bool,
    pub claiming_purchased: bool,
    pub claim_sold_uuid: Option<Seq<char>>,
    pub bazaar_item_name: Seq<char>,
    pub bazaar_amount: u64,
    pub bazaar_price_per_unit: Seq<char>,
    pub bazaar_is_buy_order: bool,
    pub bazaar_step: BazaarStep,
    pub auction_item_name: Seq<char>,
    pub auction_starting_bid: u64,
    pub auction_duration_hours: u64,
    pub auction_item_slot: Option<u64>,
    pub auction_item_id: Option<Seq<char>>,
    pub auction_step: AuctionStep,
    pub scoreboard: ScoreboardView,
    pub confirm_skip: bool,
}

impl View for BotClientState {
    type V = ClientView;

    open spec fn view(&self) -> ClientView {
        ClientView {
            bot_state: self.bot_state,
            action_counter: self.action_counter,
            last_window_id: self.last_window_id,
            joined_skyblock: self.joined_skyblock,
            teleported_to_island: self.teleported_to_island,
            skyblock_join_time: self.skyblock_join_time,
            ws_connected: self.ws_connected,
            claiming_purchased: self.claiming_purchased,
            claim_sold_uuid: opt_text(self.claim_sold_uuid),
            bazaar_item_name: self.bazaar_item_name@,
            bazaar_amount: self.bazaar_amount,
            bazaar_price_per_unit: self.bazaar_price_per_unit@,
            bazaar_is_buy_order: self.bazaar_is_buy_order,
            bazaar_step: self.bazaar_step,
            auction_item_name: self.auction_item_name@,
            auction_starting_bid: self.auction_starting_bid,
            auction_duration_hours: self.auction_duration_hours,
            auction_item_slot: self.auction_item_slot,
            auction_item_id: opt_text(self.auction_item_id),
            auction_step: self.auction_step,
            scoreboard: self.scoreboard@,
            confirm_skip: self.confirm_skip,
        }
    }
}

/// What a client knows before anything has happened.
pub open spec fn fresh_client() -> ClientView {
    ClientView {
        bot_state: BotState::GracePeriod,
        action_counter: 1,
        last_window_id: 0,
        joined_skyblock: false,
        teleported_to_island: false,
        skyblock_join_time: None,
        ws_connected: false,
        claiming_purchased: false,
        claim_sold_uuid: None,
        bazaar_item_name: Seq::empty(),
        bazaar_amount: 0,
        bazaar_price_per_unit: "0"@,
        bazaar_is_buy_order: true,
        bazaar_step: BazaarStep::Initial,
        auction_item_name: Seq::empty(),
        auction_starting_bid: 0,
        auction_duration_hours: 24,
        auction_item_slot: None,
        auction_item_id: None,
        auction_step: AuctionStep::Initial,
        scoreboard: ScoreboardView { sidebar: None, scores: Seq::empty(), teams: Seq::empty() },
        confirm_skip: false,
    }
}

impl Default for BotClientState {
    fn default() -> (r: BotClientState)
        ensures
            r@ == fresh_client(),
            r@.scoreboard.well_formed(),
    {
        BotClientState {
            bot_state: BotState::GracePeriod,
            action_counter: 1,
            last_window_id: 0,
            joined_skyblock: false,
            teleported_to_island: false,
            skyblock_join_time: None,
            ws_connected: false,
            claiming_purchased: false,
            claim_sold_uuid: None,
            bazaar_item_name: String::new(),
            bazaar_amount: 0,
            bazaar_price_per_unit: "0".to_owned(),
            bazaar_is_buy_order: true,
            bazaar_step: BazaarStep::Initial,
            auction_item_name: String::new(),
            auction_starting_bid: 0,
            auction_duration_hours: 24,
            auction_item_slot: None,
            auction_item_id: None,
            auction_step: AuctionStep::Initial,
            scoreboard: Scoreboard::new(),
            confirm_skip: false,
        }
    }
}

/// The number that follows `count`: the counter of the clicks starts over at the other end of its
/// range when it is full.
pub open spec fn next_count(count: i16) -> i16 {
    if count == i16::MAX {
        i16::MIN
    } else {
        (count + 1) as i16
    }
}

impl ClientView {
    /// The state once `action` has been done. Only the actions that set something change it, and
    /// clicks, which are counted.
    pub open spec fn after(self, action: ActionView) -> ClientView {
        match action {
            ActionView::Click(_) => ClientView {
                action_counter: next_count(self.action_counter),
                ..self
            },
            ActionView::SetState(state) => ClientView { bot_state: state, ..self },
            ActionView::SetBazaarStep(step) => ClientView { bazaar_step: step, ..self },
            ActionView::SetAuctionStep(step) => ClientView { auction_step: step, ..self },
            _ => self,
        }
    }

    /// The state once all of `actions` have been done, with nothing in between.
    pub open spec fn after_all(self, actions: Seq<ActionView>) -> ClientView
        decreases actions.len(),
    {
        if actions.len() == 0 {
            self
        } else {
            self.after_all(actions.drop_last()).after(actions.last())
        }
    }

    /// The state without the number of clicks.
    pub open spec fn apart_from_clicks(self) -> ClientView {
        ClientView { action_counter: 0, ..self }
    }
}

impl BotClientState {
    /// Do what `action` does to the state: set what it sets, count it if it is a click, and nothing
    /// else.
    pub fn apply(&mut self, action: &Action)
        ensures
            final(self)@ == old(self)@.after(action@),
    {
        match action {
            Action::Click(_) => {
                self.action_counter = if self.action_counter == i16::MAX {
                    i16::MIN
                } else {
                    self.action_counter + 1
                };
            },
            Action::SetState(state) => {
                self.bot_state = *state;
            },
            Action::SetBazaarStep(step) => {
                self.bazaar_step = *step;
            },
            Action::SetAuctionStep(step) => {
                self.auction_step = *step;
            },
            _ => {},
        }
    }
}

// ---- The client ----

/// What the handlers of a new connection begin with: the bot's state, the click counter, the last
/// window and the scoreboard go on, the rest starts afresh.
pub open spec fn reconnected(s: ClientView, ws_available: bool, confirm_skip: bool) -> ClientView {
    ClientView {
        bot_state: s.bot_state,
        action_counter: s.action_counter,
        last_window_id: s.last_window_id,
        scoreboard: s.scoreboard,
        ws_connected: ws_available,
        confirm_skip,
        ..fresh_client()
    }
}

/// The bot client. Its handlers keep `handler`; what a caller may ask it about is read from there.
pub struct BotClient {
    pub handler: BotClientState,
    /// Whether the next connection clicks the confirmation before its window has opened.
    pub confirm_skip: bool,
}

impl BotClient {
    /// Create a new bot client instance.
    pub fn new() -> (r: BotClient)
        ensures
            r.handler@ == fresh_client(),
            r.handler@.scoreboard.well_formed(),
            !r.confirm_skip,
    {
        BotClient { handler: BotClientState::default(), confirm_skip: false }
    }

    /// Give the handlers of a new connection their state: the bot's state, the click counter, the
    /// last window and the scoreboard go on, the rest starts afresh. `ws_available` says whether
    /// there is a connection to the flip service.
    pub fn connect(&mut self, ws_available: bool)
        ensures
            final(self).confirm_skip == old(self).confirm_skip,
            final(self).handler@ == reconnected(
                old(self).handler@,
                ws_available,
                old(self).confirm_skip,
            ),
    {
        self.handler.joined_skyblock = false;
        self.handler.teleported_to_island = false;
        self.handler.skyblock_join_time = None;
        self.handler.ws_connected = ws_available;
        self.handler.claiming_purchased = false;
        self.handler.claim_sold_uuid = None;
        self.handler.bazaar_item_name = String::new();
        self.handler.bazaar_amount = 0;
        self.handler.bazaar_price_per_unit = "0".to_owned();
        self.handler.bazaar_is_buy_order = true;
        self.handler.bazaar_step = BazaarStep::Initial;
        self.handler.auction_item_name = String::new();
        self.handler.auction_starting_bid = 0;
        self.handler.auction_duration_hours = 24;
        self.handler.auction_item_slot = None;
        self.handler.auction_item_id = None;
        self.handler.auction_step = AuctionStep::Initial;
        self.handler.confirm_skip = self.confirm_skip;
    }

    /// Get current bot state.
    pub fn state(&self) -> (r: BotState)
        ensures
            r == self.handler@.bot_state,
    {
        self.handler.bot_state
    }

    /// Set bot state.
    pub fn set_state(&mut self, new_state: BotState)
        ensures
            final(self).handler@ == (ClientView { bot_state: new_state, ..old(self).handler@ }),
            final(self).confirm_skip == old(self).confirm_skip,
    {
        self.handler.bot_state = new_state;
    }

    /// Get the current action counter value. It is incremented with each window click.
    pub fn action_counter(&self) -> (r: i16)
        ensures
            r == self.handler@.action_counter,
    {
        self.handler.action_counter
    }

    /// Increment the action counter (for window clicks).
    pub fn increment_action_counter(&mut self)
        requires
            old(self).handler@.action_counter < i16::MAX,
        ensures
            final(self).handler@ == (ClientView {
                action_counter: (old(self).handler@.action_counter + 1) as i16,
                ..old(self).handler@
            }),
            final(self).confirm_skip == old(self).confirm_skip,
    {
        self.handler.action_counter = self.handler.action_counter + 1;
    }

    /// Get the last window ID.
    pub fn last_window_id(&self) -> (r: u8)
        ensures
            r == self.handler@.last_window_id,
    {
        self.handler.last_window_id
    }

    /// Set the last window ID.
    pub fn set_last_window_id(&mut self, id: u8)
        ensures
            final(self).handler@ == (ClientView { last_window_id: id, ..old(self).handler@ }),
            final(self).confirm_skip == old(self).confirm_skip,
    {
        self.handler.last_window_id = id;
    }

    /// The lines of the scoreboard's sidebar, those with the higher score first. Empty while the
    /// sidebar's objective is not known.
    pub fn get_scoreboard_lines(&self) -> (r: Vec<String>)
        ensures
            texts(r@) == self.handler@.scoreboard.lines(),
    {
        self.handler.scoreboard.get_scoreboard_lines()
    }

    /// The player's purse, as the sidebar shows it on a line "Purse: X" or "Piggy: X".
    pub fn get_purse(&self) -> (r: Option<u64>)
        ensures
            r == first_purse(self.handler@.scoreboard.lines(), 0),
    {
        self.handler.scoreboard.get_purse()
    }

    /// Chat is only written by the event handlers: this refuses.
    pub fn chat(&self, _message: &str) -> (r: Result<(), String>)
        ensures
            r matches Err(reason) && reason@ == "chat() cannot be called from outside event handlers. The azalea Client is only accessible within event_handler. See the method documentation for how to send chat messages."@,
    {
        Err("chat() cannot be called from outside event handlers. The azalea Client is only accessible within event_handler. See the method documentation for how to send chat messages.".to_owned())
    }

    /// Windows are only clicked by the event handlers: this refuses.
    pub fn click_window(&self, _slot: i16, _button: u8, _click_type: ClickType) -> (r: Result<
        (),
        String,
    >)
        ensures
            r matches Err(reason) && reason@ == "click_window() cannot be called from outside event handlers. The azalea Client is only accessible within event_handler. See the method documentation for how to send window click packets."@,
    {
        Err("click_window() cannot be called from outside event handlers. The azalea Client is only accessible within event_handler. See the method documentation for how to send window click packets.".to_owned())
    }

    /// The purchase button (slot 31) of "BIN Auction View" is only clicked by the event handlers:
    /// this refuses.
    pub fn click_purchase(&self, _price: u64) -> (r: Result<(), String>)
        ensures
            r matches Err(reason) && reason@ == "click_purchase() cannot be called from outside event handlers. See click_window() documentation for how to send window click packets."@,
    {
        Err("click_purchase() cannot be called from outside event handlers. See click_window() documentation for how to send window click packets.".to_owned())
    }

    /// The confirm button (slot 11) of "Confirm Purchase" is only clicked by the event handlers:
    /// this refuses.
    pub fn click_confirm(&self, _price: u64, _item_name: &str) -> (r: Result<(), String>)
        ensures
            r matches Err(reason) && reason@ == "click_confirm() cannot be called from outside event handlers. See click_window() documentation for how to send window click packets."@,
    {
        Err("click_confirm() cannot be called from outside event handlers. See click_window() documentation for how to send window click packets.".to_owned())
    }
}

impl Default for BotClient {
    fn default() -> (r: BotClient)
        ensures
            r.handler@ == fresh_client(),
            r.handler@.scoreboard.well_formed(),
            !r.confirm_skip,
    {
        BotClient::new()
    }
}

// ---- Events ----

/// What the game connection reports.
pub enum ClientEvent {
    Login,
    /// The bot has spawned in a world. `now` is the time in nanoseconds of the process's clock.
    Init { now: u64 },
    /// A chat message. Overlay messages are the status line above the inventory.
    Chat { message: String, overlay: bool, now: u64 },
    /// A window has opened.
    OpenScreen { container_id: i32, menu_type: String, title: String },
    ContainerClose,
    /// A sign has opened for editing.
    OpenSign,
    /// An objective is displayed, in the sidebar or elsewhere.
    SetDisplayObjective { in_sidebar: bool, objective: String },
    SetScore { objective: String, owner: String, display: Option<String>, score: u32 },
    ResetScore { from: Option<String>, owner: String },
    SetPlayerTeam { name: String, method: TeamMethod },
    Disconnect { reason: String },
    /// Anything else, such as inventory updates.
    Other,
}

/// What the game connection reports, as the contracts speak of it.
pub enum ClientEventView {
    Login,
    Init(u64),
    Chat(Seq<char>, bool, u64),
    OpenScreen(i32, Seq<char>, Seq<char>),
    ContainerClose,
    OpenSign,
    SetDisplayObjective(bool, Seq<char>),
    SetScore(Seq<char>, Seq<char>, Option<Seq<char>>, u32),
    ResetScore(Option<Seq<char>>, Seq<char>),
    SetPlayerTeam(Seq<char>, TeamMethodView),
    Disconnect(Seq<char>),
    Other,
}

impl View for ClientEvent {
    type V = ClientEventView;

    open spec fn view(&self) -> ClientEventView {
        match self {
            ClientEvent::Login => ClientEventView::Login,
            ClientEvent::Init { now } => ClientEventView::Init(*now),
            ClientEvent::Chat { message, overlay, now } => ClientEventView::Chat(
                message@,
                *overlay,
                *now,
            ),
            ClientEvent::OpenScreen { container_id, menu_type, title } =>
                ClientEventView::OpenScreen(*container_id, menu_type@, title@),
            ClientEvent::ContainerClose => ClientEventView::ContainerClose,
            ClientEvent::OpenSign => ClientEventView::OpenSign,
            ClientEvent::SetDisplayObjective { in_sidebar, objective } =>
                ClientEventView::SetDisplayObjective(*in_sidebar, objective@),
            ClientEvent::SetScore { objective, owner, display, score } =>
                ClientEventView::SetScore(objective@, owner@, opt_text(*display), *score),
            ClientEvent::ResetScore { from, owner } => ClientEventView::ResetScore(
                opt_text(*from),
                owner@,
            ),
            ClientEvent::SetPlayerTeam { name, method } => ClientEventView::SetPlayerTeam(
                name@,
                method@,
            ),
            ClientEvent::Disconnect { reason } => ClientEventView::Disconnect(reason@),
            ClientEvent::Other => ClientEventView::Other,
        }
    }
}

/// What comes of an event: the state afterwards, and what is to be done.
#[verifier::ext_equal]
pub struct Outcome {
    pub state: ClientView,
    pub actions: Seq<ActionView>,
}

/// Says of a chat message without color codes that the bot has joined SkyBlock.
pub open spec fn tells_of_skyblock(clean: Seq<char>) -> bool {
    ||| begins_with(clean, "Welcome to Hypixel SkyBlock"@)
    ||| begins_with(clean, "[Profile]"@) && occurs_in(clean, "currently"@)
    ||| begins_with(clean, "["@) && occurs_in(uppercase(clean), "SKYBLOCK"@) && occurs_in(
        uppercase(clean),
        "PROFILE"@,
    )
}

/// The message reports that something was bought.
pub open spec fn tells_of_purchase(clean: Seq<char>) -> bool {
    occurs_in(clean, "You purchased"@) && occurs_in(clean, "coins!"@)
}

/// The message reports that something was sold.
pub open spec fn tells_of_sale(clean: Seq<char>) -> bool {
    occurs_in(clean, "[Auction]"@) && occurs_in(clean, "bought"@) && occurs_in(clean, "for"@)
        && occurs_in(clean, "coins"@)
}

/// The message reports that an auction was put up.
pub open spec fn tells_of_listing(clean: Seq<char>) -> bool {
    occurs_in(clean, "BIN Auction started for"@)
}

/// What a chat message without color codes reports of the auction house: a purchase, a sale (whose
/// auction is then the one to claim, if the message names it), or that the item being put up has
/// been put up.
pub open spec fn market_report(s: ClientView, clean: Seq<char>) -> Outcome {
    let silent = Outcome { state: s, actions: Seq::empty() };
    if tells_of_purchase(clean) {
        match purchased(clean) {
            Some((item, price)) => Outcome {
                state: s,
                actions: seq![ActionView::Emit(BotEventView::ItemPurchased(item, price))],
            },
            None => silent,
        }
    } else if tells_of_sale(clean) {
        match sold(clean) {
            Some((buyer, item, price)) => Outcome {
                state: ClientView { claim_sold_uuid: viewauction_uuid(clean), ..s },
                actions: seq![ActionView::Emit(BotEventView::ItemSold(item, price, buyer))],
            },
            None => silent,
        }
    } else if tells_of_listing(clean) && s.auction_item_name.len() > 0 {
        Outcome {
            state: s,
            actions: seq![
                ActionView::Emit(
                    BotEventView::AuctionListed(
                        s.auction_item_name,
                        s.auction_starting_bid,
                        s.auction_duration_hours,
                    ),
                ),
            ],
        }
    } else {
        silent
    }
}

/// The bot has asked for SkyBlock, has not been sent to its island yet, and now either the message
/// tells that it is there or the wait has been too long.
pub open spec fn leaves_for_island(s: ClientView, clean: Seq<char>, now: u64) -> bool {
    match s.skyblock_join_time {
        Some(since) => !s.teleported_to_island && (tells_of_skyblock(clean) || now - since
            > SKYBLOCK_JOIN_TIMEOUT_NANOS),
        None => false,
    }
}

/// What comes of a chat message that is no overlay.
#[verifier::opaque]
pub open spec fn on_chat(s: ClientView, message: Seq<char>, now: u64) -> Outcome {
    let clean = without_colors(message);
    let report = market_report(s, clean);
    let told = seq![ActionView::Emit(BotEventView::ChatMessage(message))] + report.actions;
    if leaves_for_island(s, clean, now) {
        Outcome {
            state: ClientView { joined_skyblock: true, teleported_to_island: true, ..report.state },
            actions: told.push(ActionView::Spawn(Background::GoToIsland)),
        }
    } else {
        Outcome { state: report.state, actions: told }
    }
}

/// What is written on the sign that has opened, and the state afterwards.
pub open spec fn on_sign(s: ClientView) -> Outcome {
    let ignored = Outcome { state: s, actions: Seq::empty() };
    match s.bot_state {
        BotState::Bazaar => match s.bazaar_step {
            BazaarStep::SetAmount => Outcome {
                state: s,
                actions: seq![ActionView::WriteSign(sign_lines(decimal(s.bazaar_amount as nat)))],
            },
            BazaarStep::SetPrice => Outcome {
                state: s,
                actions: seq![ActionView::WriteSign(sign_lines(s.bazaar_price_per_unit))],
            },
            BazaarStep::SelectOrderType => Outcome {
                state: ClientView { bazaar_step: BazaarStep::SetPrice, ..s },
                actions: seq![ActionView::WriteSign(sign_lines(s.bazaar_price_per_unit))],
            },
            _ => ignored,
        },
        BotState::Selling => match s.auction_step {
            AuctionStep::PriceSign => Outcome {
                state: ClientView { auction_step: AuctionStep::SetDuration, ..s },
                actions: seq![
                    ActionView::WriteSign(sign_lines(decimal(s.auction_starting_bid as nat))),
                ],
            },
            AuctionStep::DurationSign => Outcome {
                state: ClientView { auction_step: AuctionStep::ConfirmSell, ..s },
                actions: seq![
                    ActionView::WriteSign(sign_lines(decimal(s.auction_duration_hours as nat))),
                ],
            },
            _ => ignored,
        },
        _ => ignored,
    }
}

/// The scoreboard after an event.
#[verifier::opaque]
pub open spec fn board_after(board: ScoreboardView, event: ClientEventView) -> ScoreboardView {
    match event {
        ClientEventView::SetDisplayObjective(in_sidebar, objective) => if in_sidebar {
            ScoreboardView { sidebar: Some(objective), ..board }
        } else {
            board
        },
        ClientEventView::SetScore(objective, owner, display, score) => board.with_score(
            objective,
            owner,
            display,
            score,
        ),
        ClientEventView::ResetScore(objective, owner) => board.without_score(objective, owner),
        ClientEventView::SetPlayerTeam(name, method) => board.with_team(name, method),
        _ => board,
    }
}

/// What comes of an event.
pub open spec fn on_event(s: ClientView, event: ClientEventView) -> Outcome {
    match event {
        ClientEventView::Login => Outcome {
            state: ClientView {
                joined_skyblock: false,
                teleported_to_island: false,
                skyblock_join_time: None,
                bot_state: BotState::GracePeriod,
                ..s
            },
            actions: seq![
                ActionView::Emit(BotEventView::Login),
                ActionView::Spawn(Background::StartupWatchdog),
            ],
        },
        ClientEventView::Init(now) => if s.joined_skyblock {
            Outcome { state: s, actions: seq![ActionView::Emit(BotEventView::Spawn)] }
        } else {
            Outcome {
                state: ClientView { skyblock_join_time: Some(now), ..s },
                actions: seq![
                    ActionView::Emit(BotEventView::Spawn),
                    ActionView::Spawn(Background::JoinSkyblock),
                ],
            }
        },
        ClientEventView::Chat(message, overlay, now) => if overlay {
            Outcome { state: s, actions: Seq::empty() }
        } else {
            on_chat(s, message, now)
        },
        ClientEventView::OpenScreen(container_id, menu_type, title) => Outcome {
            state: ClientView { last_window_id: container_id as u8, ..s },
            actions: seq![
                ActionView::Emit(BotEventView::WindowOpen(container_id as u8, menu_type, title)),
                ActionView::Interact(WindowView { id: container_id as u8, title }),
            ],
        },
        ClientEventView::ContainerClose => Outcome {
            state: s,
            actions: seq![ActionView::Emit(BotEventView::WindowClose)],
        },
        ClientEventView::OpenSign => on_sign(s),
        ClientEventView::SetDisplayObjective(_, _)
        | ClientEventView::SetScore(_, _, _, _)
        | ClientEventView::ResetScore(_, _)
        | ClientEventView::SetPlayerTeam(_, _) => Outcome {
            state: ClientView { scoreboard: board_after(s.scoreboard, event), ..s },
            actions: Seq::empty(),
        },
        ClientEventView::Disconnect(reason) => Outcome {
            state: s,
            actions: seq![ActionView::Emit(BotEventView::Disconnected(reason))],
        },
        ClientEventView::Other => Outcome { state: s, actions: Seq::empty() },
    }
}

/// Whether a text in upper case speaks of SkyBlock and of a profile.
pub fn names_skyblock_profile(upper: &str) -> (r: bool)
    ensures
        r == (occurs_in(upper@, "SKYBLOCK"@) && occurs_in(upper@, "PROFILE"@)),
{
    contains(upper, "SKYBLOCK") && contains(upper, "PROFILE")
}

/// Whether a chat message without color codes tells that the bot has joined SkyBlock.
pub fn detects_skyblock(clean: &str) -> (r: bool)
    ensures
        r == tells_of_skyblock(clean@),
{
    if starts_with(clean, "Welcome to Hypixel SkyBlock") {
        true
    } else if starts_with(clean, "[Profile]") && contains(clean, "currently") {
        true
    } else if starts_with(clean, "[") {
        let upper = to_uppercase(clean);
        names_skyblock_profile(upper.as_str())
    } else {
        false
    }
}

impl BotClientState {
    /// Report what a chat message without color codes says of the auction house.
    fn report_market(&mut self, clean: &str, actions: Vec<Action>) -> (r: Vec<Action>)
        ensures
            final(self)@ == market_report(old(self)@, clean@).state,
            actions_of(r@) == actions_of(actions@) + market_report(old(self)@, clean@).actions,
    {
        if contains(clean, "You purchased") && contains(clean, "coins!") {
            match parse_purchased_message(clean) {
                Some((item_name, price)) => then_do(
                    actions,
                    Action::Emit(BotEvent::ItemPurchased { item_name, price }),
                ),
                None => actions,
            }
        } else if contains(clean, "[Auction]") && contains(clean, "bought") && contains(
            clean,
            "for",
        ) && contains(clean, "coins") {
            match parse_sold_message(clean) {
                Some((buyer, item_name, price)) => {
                    self.claim_sold_uuid = extract_viewauction_uuid(clean);
                    then_do(actions, Action::Emit(BotEvent::ItemSold { item_name, price, buyer }))
                },
                None => actions,
            }
        } else if contains(clean, "BIN Auction started for") && !self.auction_item_name.as_str().is_empty() {
            then_do(
                actions,
                Action::Emit(
                    BotEvent::AuctionListed {
                        item_name: self.auction_item_name.clone(),
                        starting_bid: self.auction_starting_bid,
                        duration_hours: self.auction_duration_hours,
                    },
                ),
            )
        } else {
            actions
        }
    }

    /// Handle a chat message that is no overlay.
    fn handle_chat(&mut self, message: &String, now: u64) -> (r: Vec<Action>)
        ensures
            final(self)@ == on_chat(old(self)@, message@, now).state,
            actions_of(r@) == on_chat(old(self)@, message@, now).actions,
            final(self)@.scoreboard == old(self)@.scoreboard,
    {
        proof {
            reveal(on_chat);
        }
        let clean = remove_mc_colors(message.as_str());
        let told = just(Action::Emit(BotEvent::ChatMessage(message.clone())));
        let actions = self.report_market(clean.as_str(), told);
        let leaves = match self.skyblock_join_time {
            Some(since) => !self.teleported_to_island && (detects_skyblock(clean.as_str()) || (now
                > since && now - since > SKYBLOCK_JOIN_TIMEOUT_NANOS)),
            None => false,
        };
        if leaves {
            self.joined_skyblock = true;
            self.teleported_to_island = true;
            then_do(actions, Action::Spawn(Background::GoToIsland))
        } else {
            actions
        }
    }

    /// Start over after a login.
    fn handle_login(&mut self) -> (r: Vec<Action>)
        ensures
            final(self)@ == on_event(old(self)@, ClientEventView::Login).state,
            actions_of(r@) == on_event(old(self)@, ClientEventView::Login).actions,
    {
        self.joined_skyblock = false;
        self.teleported_to_island = false;
        self.skyblock_join_time = None;
        self.bot_state = BotState::GracePeriod;
        both(Action::Emit(BotEvent::Login), Action::Spawn(Background::StartupWatchdog))
    }

    /// Ask for SkyBlock after a spawn, unless the bot is there.
    fn handle_init(&mut self, now: u64) -> (r: Vec<Action>)
        ensures
            final(self)@ == on_event(old(self)@, ClientEventView::Init(now)).state,
            actions_of(r@) == on_event(old(self)@, ClientEventView::Init(now)).actions,
    {
        if self.joined_skyblock {
            just(Action::Emit(BotEvent::Spawn))
        } else {
            self.skyblock_join_time = Some(now);
            both(Action::Emit(BotEvent::Spawn), Action::Spawn(Background::JoinSkyblock))
        }
    }

    /// Report a window that has opened, and have it handled.
    fn handle_open_screen(&mut self, container_id: i32, menu_type: &String, title: &String) -> (r:
        Vec<Action>)
        ensures
            final(self)@ == on_event(
                old(self)@,
                ClientEventView::OpenScreen(container_id, menu_type@, title@),
            ).state,
            actions_of(r@) == on_event(
                old(self)@,
                ClientEventView::OpenScreen(container_id, menu_type@, title@),
            ).actions,
    {
        let id: u8 = #[verifier::truncate] (container_id as u8);
        self.last_window_id = id;
        both(
            Action::Emit(BotEvent::WindowOpen(id, menu_type.clone(), title.clone())),
            Action::Interact(Window { id, title: title.clone() }),
        )
    }

    /// Write on the sign that has opened what the flow that opened it asks for.
    fn handle_sign(&mut self) -> (r: Vec<Action>)
        ensures
            final(self)@ == on_sign(old(self)@).state,
            actions_of(r@) == on_sign(old(self)@).actions,
            final(self)@.scoreboard == old(self)@.scoreboard,
    {
        match self.bot_state {
            BotState::Bazaar => match self.bazaar_step {
                BazaarStep::SetAmount => just(write_sign(to_decimal(self.bazaar_amount))),
                BazaarStep::SetPrice => just(write_sign(self.bazaar_price_per_unit.clone())),
                BazaarStep::SelectOrderType => {
                    // The sign came straight after the order button: it asks for the price.
                    self.bazaar_step = BazaarStep::SetPrice;
                    just(write_sign(self.bazaar_price_per_unit.clone()))
                },
                _ => no_actions(),
            },
            BotState::Selling => match self.auction_step {
                AuctionStep::PriceSign => {
                    self.auction_step = AuctionStep::SetDuration;
                    just(write_sign(to_decimal(self.auction_starting_bid)))
                },
                AuctionStep::DurationSign => {
                    self.auction_step = AuctionStep::ConfirmSell;
                    just(write_sign(to_decimal(self.auction_duration_hours)))
                },
                _ => no_actions(),
            },
            _ => no_actions(),
        }
    }
}

/// Keep the scoreboard as an event announces it.
pub fn update_board(board: &mut Scoreboard, event: &ClientEvent)
    requires
        old(board)@.well_formed(),
    ensures
        final(board)@ == board_after(old(board)@, event@),
        final(board)@.well_formed(),
{
    proof {
        reveal(board_after);
    }
    match event {
        ClientEvent::SetDisplayObjective { in_sidebar, objective } => {
            if *in_sidebar {
                board.set_sidebar(objective.as_str());
            }
        },
        ClientEvent::SetScore { objective, owner, display, score } => {
            board.set_score(objective.as_str(), owner.as_str(), display, *score);
        },
        ClientEvent::ResetScore { from, owner } => {
            board.reset_score(from, owner.as_str());
        },
        ClientEvent::SetPlayerTeam { name, method } => {
            board.set_team(name.as_str(), method);
        },
        _ => {},
    }
}

/// Handle an event of the game connection.
#[verifier::spinoff_prover]
pub fn event_handler(state: &mut BotClientState, event: &ClientEvent) -> (r: Vec<Action>)
    requires
        old(state)@.scoreboard.well_formed(),
    ensures
        final(state)@ == on_event(old(state)@, event@).state,
        final(state)@.scoreboard.well_formed(),
        actions_of(r@) == on_event(old(state)@, event@).actions,
{
    match event {
        ClientEvent::Login => state.handle_login(),
        ClientEvent::Init { now } => state.handle_init(*now),
        ClientEvent::Chat { message, overlay, now } => {
            if *overlay {
                no_actions()
            } else {
                state.handle_chat(message, *now)
            }
        },
        ClientEvent::OpenScreen { container_id, menu_type, title } => state.handle_open_screen(
            *container_id,
            menu_type,
            title,
        ),
        ClientEvent::ContainerClose => just(Action::Emit(BotEvent::WindowClose)),
        ClientEvent::OpenSign => state.handle_sign(),
        ClientEvent::SetDisplayObjective { .. }
        | ClientEvent::SetScore { .. }
        | ClientEvent::ResetScore { .. }
        | ClientEvent::SetPlayerTeam { .. } => {
            update_board(&mut state.scoreboard, event);
            no_actions()
        },
        ClientEvent::Disconnect { reason } => just(
            Action::Emit(BotEvent::Disconnected(reason.clone())),
        ),
        ClientEvent::Other => no_actions(),
    }
}

/// An action changes what it sets and nothing else; a click counts, and starts over at the other end
/// when the counter is full.
pub proof fn law_actions_change_what_they_set(
    s: ClientView,
    action: ActionView,
    state: BotState,
    bazaar: BazaarStep,
    auction: AuctionStep,
)
    ensures
        s.after(ActionView::SetState(state)) == (ClientView { bot_state: state, ..s }),
        s.after(ActionView::SetBazaarStep(bazaar)) == (ClientView { bazaar_step: bazaar, ..s }),
        s.after(ActionView::SetAuctionStep(auction)) == (ClientView { auction_step: auction, ..s }),
        action is Click && s.action_counter < 32767 ==> s.after(action) == (ClientView {
            action_counter: (s.action_counter + 1) as i16,
            ..s
        }),
        action is Click && s.action_counter == 32767 ==> s.after(action) == (ClientView {
            action_counter: i16::MIN,
            ..s
        }),
        !(action is Click || action is SetState || action is SetBazaarStep
            || action is SetAuctionStep) ==> s.after(action) == s,
{
}

/// The bot goes to its island, once, as soon as the chat tells that it is in SkyBlock, or when
/// fifteen seconds have passed since SkyBlock was asked for, and not before.
pub proof fn law_bot_goes_to_its_island_when_it_can(s: ClientView, message: Seq<char>, now: u64)
    ensures
        ({
            let clean = without_colors(message);
            let outcome = on_event(s, ClientEventView::Chat(message, false, now));
            let told = begins_with(clean, "Welcome to Hypixel SkyBlock"@) || begins_with(
                clean,
                "[Profile]"@,
            ) && occurs_in(clean, "currently"@) || begins_with(clean, "["@) && occurs_in(
                uppercase(clean),
                "SKYBLOCK"@,
            ) && occurs_in(uppercase(clean), "PROFILE"@);
            let goes = match s.skyblock_join_time {
                Some(since) => !s.teleported_to_island && (told || now - since > 15_000_000_000),
                None => false,
            };
            &&& goes ==> outcome.actions.last() == ActionView::Spawn(Background::GoToIsland)
            &&& !goes ==> !outcome.actions.contains(ActionView::Spawn(Background::GoToIsland))
            &&& outcome.state.teleported_to_island == (s.teleported_to_island || goes)
            &&& outcome.state.joined_skyblock == (s.joined_skyblock || goes)
            &&& outcome.state.bot_state == s.bot_state
        }),
{
    reveal(on_chat);
    let outcome = on_event(s, ClientEventView::Chat(message, false, now));
    if !leaves_for_island(s, without_colors(message), now) {
        assert forall|i: int| 0 <= i < outcome.actions.len() implies outcome.actions[i]
            != ActionView::Spawn(Background::GoToIsland) by {}
    }
}

/// A chat message that speaks neither of a purchase, nor of a sale, nor of the auction that is being
/// put up is reported as chat and as nothing else; and whatever it says, it changes nothing but the
/// way to the island and the auction to claim.
pub proof fn law_ordinary_chat_is_only_chat(s: ClientView, message: Seq<char>, now: u64, i: int)
    ensures
        ({
            let clean = without_colors(message);
            let outcome = on_event(s, ClientEventView::Chat(message, false, now));
            let bought = occurs_in(clean, "You purchased"@) && occurs_in(clean, "coins!"@);
            let sold = occurs_in(clean, "[Auction]"@) && occurs_in(clean, "bought"@) && occurs_in(
                clean,
                "for"@,
            ) && occurs_in(clean, "coins"@);
            let listed = occurs_in(clean, "BIN Auction started for"@) && s.auction_item_name.len()
                > 0;
            &&& 1 <= i < outcome.actions.len() ==> {
                &&& outcome.actions[i] == ActionView::Spawn(Background::GoToIsland)
                    || outcome.actions[i] is Emit
                &&& outcome.actions[i] matches ActionView::Emit(event) ==> {
                    &&& event is ItemPurchased && bought || event is ItemSold && sold && !bought
                        || event is AuctionListed && listed && !sold && !bought
                }
            }
            &&& outcome.actions.len() <= 3
            &&& !(sold && !bought) ==> outcome.state.claim_sold_uuid == s.claim_sold_uuid
            &&& outcome.state == (ClientView {
                claim_sold_uuid: outcome.state.claim_sold_uuid,
                joined_skyblock: outcome.state.joined_skyblock,
                teleported_to_island: outcome.state.teleported_to_island,
                ..s
            })
        }),
{
    reveal(on_chat);
}

/// A window that opens is remembered, reported with its type and title, and handled; one that closes
/// and a lost connection are reported, the latter with its reason.
pub proof fn law_windows_and_disconnects_are_reported(
    s: ClientView,
    id: i32,
    kind: Seq<char>,
    title: Seq<char>,
    reason: Seq<char>,
)
    requires
        0 <= id <= 255,
    ensures
        on_event(s, ClientEventView::OpenScreen(id, kind, title)) == (Outcome {
            state: ClientView { last_window_id: id as u8, ..s },
            actions: seq![
                ActionView::Emit(BotEventView::WindowOpen(id as u8, kind, title)),
                ActionView::Interact(WindowView { id: id as u8, title }),
            ],
        }),
        on_event(s, ClientEventView::ContainerClose) == (Outcome {
            state: s,
            actions: seq![ActionView::Emit(BotEventView::WindowClose)],
        }),
        on_event(s, ClientEventView::Disconnect(reason)) == (Outcome {
            state: s,
            actions: seq![ActionView::Emit(BotEventView::Disconnected(reason))],
        }),
        on_event(s, ClientEventView::Other) == (Outcome { state: s, actions: Seq::empty() }),
{
}

/// A login is reported, starts over with the grace period, and sets the watchdog; a spawn is
/// reported, and leads to SkyBlock, from then on, unless the bot is there.
pub proof fn law_login_and_spawn_lead_to_skyblock(s: ClientView, now: u64)
    ensures
        ({
            let login = on_event(s, ClientEventView::Login);
            &&& login.actions == seq![
                ActionView::Emit(BotEventView::Login),
                ActionView::Spawn(Background::StartupWatchdog),
            ]
            &&& login.state == (ClientView {
                bot_state: BotState::GracePeriod,
                joined_skyblock: false,
                teleported_to_island: false,
                skyblock_join_time: None,
                ..s
            })
        }),
        ({
            let spawn = on_event(s, ClientEventView::Init(now));
            if s.joined_skyblock {
                spawn.state == s && spawn.actions == seq![ActionView::Emit(BotEventView::Spawn)]
            } else {
                &&& spawn.state == (ClientView { skyblock_join_time: Some(now), ..s })
                &&& spawn.actions == seq![
                    ActionView::Emit(BotEventView::Spawn),
                    ActionView::Spawn(Background::JoinSkyblock),
                ]
            }
        }),
{
}

/// What the server announces of the scoreboard is kept there, changes nothing else and asks for
/// nothing. An objective that is displayed elsewhere than in the sidebar makes no difference.
pub proof fn law_scoreboard_events_change_the_scoreboard(
    s: ClientView,
    name: Seq<char>,
    owner: Seq<char>,
    display: Option<Seq<char>>,
    score: u32,
    from: Option<Seq<char>>,
    method: TeamMethodView,
)
    ensures
        ({
            let shown = on_event(s, ClientEventView::SetDisplayObjective(true, name));
            &&& shown.state == (ClientView {
                scoreboard: ScoreboardView { sidebar: Some(name), ..s.scoreboard },
                ..s
            })
            &&& shown.actions.len() == 0
        }),
        on_event(s, ClientEventView::SetDisplayObjective(false, name)).state == s,
        on_event(s, ClientEventView::SetScore(name, owner, display, score)) == (Outcome {
            state: ClientView {
                scoreboard: s.scoreboard.with_score(name, owner, display, score),
                ..s
            },
            actions: Seq::empty(),
        }),
        on_event(s, ClientEventView::ResetScore(from, owner)) == (Outcome {
            state: ClientView { scoreboard: s.scoreboard.without_score(from, owner), ..s },
            actions: Seq::empty(),
        }),
        on_event(s, ClientEventView::SetPlayerTeam(name, method)) == (Outcome {
            state: ClientView { scoreboard: s.scoreboard.with_team(name, method), ..s },
            actions: Seq::empty(),
        }),
{
    reveal(board_after);
}

/// A sign is written on only in the middle of an order or of a listing; any other sign is left alone.
pub proof fn law_other_signs_are_left_alone(s: ClientView)
    requires
        !(s.bot_state is Bazaar && (s.bazaar_step is SetAmount || s.bazaar_step is SetPrice
            || s.bazaar_step is SelectOrderType)),
        !(s.bot_state is Selling && (s.auction_step is PriceSign || s.auction_step is DurationSign)),
    ensures
        on_event(s, ClientEventView::OpenSign) == (Outcome { state: s, actions: Seq::empty() }),
{
}

/// A new connection forgets what was under way, and keeps the bot's state, its clicks, its window and
/// its scoreboard. A client that has seen nothing yet is in its grace period, has counted one and
/// knows no window and no score.
pub proof fn law_new_connection_forgets_what_was_under_way(
    s: ClientView,
    ws_available: bool,
    confirm_skip: bool,
)
    ensures
        ({
            let after = reconnected(s, ws_available, confirm_skip);
            &&& after.bot_state == s.bot_state
            &&& after.action_counter == s.action_counter
            &&& after.last_window_id == s.last_window_id
            &&& after.scoreboard == s.scoreboard
            &&& after.ws_connected == ws_available
            &&& after.confirm_skip == confirm_skip
            &&& !after.joined_skyblock
            &&& !after.teleported_to_island
            &&& after.skyblock_join_time is None
            &&& !after.claiming_purchased
            &&& after.claim_sold_uuid is None
            &&& after.bazaar_step is Initial
            &&& after.auction_step is Initial
            &&& after.auction_item_name.len() == 0
            &&& after.bazaar_item_name.len() == 0
            &&& after.auction_item_slot is None
            &&& after.auction_duration_hours == 24
        }),
        fresh_client().bot_state is GracePeriod,
        fresh_client().action_counter == 1,
        fresh_client().last_window_id == 0,
        fresh_client().scoreboard.lines().len() == 0,
        !fresh_client().ws_connected,
        !fresh_client().confirm_skip,
{
}

} // verus!
