//! What is done about the reports of the bot and the messages of the flip service.

use vstd::prelude::*;

use crate::actions::{BotEvent, BotEventView};
use crate::announce::{
    announce_bazaar_flip, announce_flip, announce_listed, announce_order_placed,
    announce_purchase, announce_sale, bazaar_flip_text, flip_text, listed_text, order_placed_text,
    purchase_text, sale_text,
};
use crate::flips::{
    calculate_profit, can_calculate_profit, flip_key, lookup, profit, profit_fits, record_view,
    FlipRecord, FlipTracker, RecordView,
};
use crate::inventory::{make_message, service_message};
use crate::json::{json_text, parse_json, parsed_json, render_json, text_array, Json, JsonView};
use crate::letters::lowercase;
use crate::messages::{connection_id, parse_connection_id, parse_premium, premium};
use crate::routing::{
    chat_command, make_text_message, queue_chat, route_service_command, service_route,
    text_message, Route, RouteView,
};
use crate::scoreboard::opt_text;
use crate::text::{contains, occurs_in, remove_mc_colors, texts, trimmed, without_colors};
use crate::types::{
    copy_opt, BazaarFlip, BotState, CommandPriority, CommandType, CommandView, Flip, FlipView,
    ListingView, OrderView, QueuedCommand, QueuedView,
};

verus! {

/// How long bazaar flips are paused when auction flips are announced, in milliseconds.
pub const BAZAAR_PAUSE_MS: u64 = 20000;

/// A notification for the user's webhook.
#[derive(Debug, PartialEq)]
pub enum Notice {
    Initialized {
        auction_house: bool,
        bazaar: bool,
        connection: Option<String>,
        premium: Option<(String, String)>,
    },
    StartupComplete {
        orders_cancelled: u64,
        auction_house: bool,
        bazaar: bool,
        connection: Option<String>,
        premium: Option<(String, String)>,
    },
    ItemPurchased {
        item: String,
        price: u64,
        target: Option<u64>,
        profit: Option<i64>,
        purse: Option<u64>,
        buy_speed_ms: Option<u64>,
        uuid: Option<String>,
    },
    ItemSold {
        item: String,
        price: u64,
        buyer: String,
        profit: Option<i64>,
        buy_price: Option<u64>,
        held_secs: Option<u64>,
        purse: Option<u64>,
        uuid: Option<String>,
    },
    BazaarOrderPlaced {
        item: String,
        amount: u64,
        /// Written in decimal.
        price_per_unit: String,
        is_buy_order: bool,
        purse: Option<u64>,
    },
    AuctionListed { item: String, starting_bid: u64, duration_hours: u64, purse: Option<u64> },
}

/// What is known of the premium tier: its name, and until when it runs.
pub open spec fn premium_view(premium: Option<(String, String)>) -> Option<(Seq<char>, Seq<char>)> {
    match premium {
        Some((tier, expires)) => Some((tier@, expires@)),
        None => None,
    }
}

/// A notification, as the contracts speak of it.
#[verifier::ext_equal]
pub enum NoticeView {
    Initialized {
        auction_house: bool,
        bazaar: bool,
        connection: Option<Seq<char>>,
        premium: Option<(Seq<char>, Seq<char>)>,
    },
    StartupComplete {
        orders_cancelled: u64,
        auction_house: bool,
        bazaar: bool,
        connection: Option<Seq<char>>,
        premium: Option<(Seq<char>, Seq<char>)>,
    },
    ItemPurchased {
        item: Seq<char>,
        price: u64,
        target: Option<u64>,
        profit: Option<i64>,
        purse: Option<u64>,
        buy_speed_ms: Option<u64>,
        uuid: Option<Seq<char>>,
    },
    ItemSold {
        item: Seq<char>,
        price: u64,
        buyer: Seq<char>,
        profit: Option<i64>,
        buy_price: Option<u64>,
        held_secs: Option<u64>,
        purse: Option<u64>,
        uuid: Option<Seq<char>>,
    },
    BazaarOrderPlaced {
        item: Seq<char>,
        amount: u64,
        price_per_unit: Seq<char>,
        is_buy_order: bool,
        purse: Option<u64>,
    },
    AuctionListed { item: Seq<char>, starting_bid: u64, duration_hours: u64, purse: Option<u64> },
}

impl View for Notice {
    type V = NoticeView;

    open spec fn view(&self) -> NoticeView {
        match self {
            Notice::Initialized { auction_house, bazaar, connection, premium } =>
                NoticeView::Initialized {
                auction_house: *auction_house,
                bazaar: *bazaar,
                connection: opt_text(*connection),
                premium: premium_view(*premium),
            },
            Notice::StartupComplete {
                orders_cancelled,
                auction_house,
                bazaar,
                connection,
                premium,
            } => NoticeView::StartupComplete {
                orders_cancelled: *orders_cancelled,
                auction_house: *auction_house,
                bazaar: *bazaar,
                connection: opt_text(*connection),
                premium: premium_view(*premium),
            },
            Notice::ItemPurchased { item, price, target, profit, purse, buy_speed_ms, uuid } =>
                NoticeView::ItemPurchased {
                item: item@,
                price: *price,
                target: *target,
                profit: *profit,
                purse: *purse,
                buy_speed_ms: *buy_speed_ms,
                uuid: opt_text(*uuid),
            },
            Notice::ItemSold { item, price, buyer, profit, buy_price, held_secs, purse, uuid } =>
                NoticeView::ItemSold {
                item: item@,
                price: *price,
                buyer: buyer@,
                profit: *profit,
                buy_price: *buy_price,
                held_secs: *held_secs,
                purse: *purse,
                uuid: opt_text(*uuid),
            },
            Notice::BazaarOrderPlaced { item, amount, price_per_unit, is_buy_order, purse } =>
                NoticeView::BazaarOrderPlaced {
                item: item@,
                amount: *amount,
                price_per_unit: price_per_unit@,
                is_buy_order: *is_buy_order,
                purse: *purse,
            },
            Notice::AuctionListed { item, starting_bid, duration_hours, purse } =>
                NoticeView::AuctionListed {
                item: item@,
                starting_bid: *starting_bid,
                duration_hours: *duration_hours,
                purse: *purse,
            },
        }
    }
}

/// One thing that is to be done.
#[derive(Debug, PartialEq)]
pub enum Task {
    /// Send a message to the flip service.
    Send(String),
    /// Put a command into the command queue.
    Enqueue(QueuedCommand),
    /// Print a line with color codes.
    Print(String),
    Notify(Notice),
    /// Resume the bazaar flips after this many milliseconds.
    ResumeBazaarAfter(u64),
}

/// One thing that is to be done, as the contracts speak of it.
#[verifier::ext_equal]
pub enum TaskView {
    Send(Seq<char>),
    Enqueue(QueuedView),
    Print(Seq<char>),
    Notify(NoticeView),
    ResumeBazaarAfter(u64),
}

impl View for Task {
    type V = TaskView;

    open spec fn view(&self) -> TaskView {
        match self {
            Task::Send(message) => TaskView::Send(message@),
            Task::Enqueue(command) => TaskView::Enqueue(command@),
            Task::Print(line) => TaskView::Print(line@),
            Task::Notify(notice) => TaskView::Notify(notice@),
            Task::ResumeBazaarAfter(ms) => TaskView::ResumeBazaarAfter(*ms),
        }
    }
}

/// What a list of tasks does.
pub open spec fn tasks_of(tasks: Seq<Task>) -> Seq<TaskView> {
    tasks.map_values(|t: Task| t@)
}

/// No tasks.
fn no_tasks() -> (r: Vec<Task>)
    ensures
        tasks_of(r@) == Seq::<TaskView>::empty(),
{
    let r: Vec<Task> = Vec::new();
    proof {
        assert(tasks_of(r@) =~= Seq::empty());
    }
    r
}

/// One more task, behind those that are there.
fn and_then(tasks: Vec<Task>, next: Task) -> (r: Vec<Task>)
    ensures
        tasks_of(r@) == tasks_of(tasks@).push(next@),
{
    let ghost before = tasks@;
    let mut r = tasks;
    r.push(next);
    proof {
        assert(tasks_of(r@) =~= tasks_of(before).push(next@));
    }
    r
}

/// A list of one task.
fn one_task(task: Task) -> (r: Vec<Task>)
    ensures
        tasks_of(r@) == seq![task@],
{
    let r = and_then(no_tasks(), task);
    proof {
        assert(tasks_of(r@) =~= seq![task@]);
    }
    r
}

/// A list of two tasks.
fn two_tasks(a: Task, b: Task) -> (r: Vec<Task>)
    ensures
        tasks_of(r@) == seq![a@, b@],
{
    let r = and_then(one_task(a), b);
    proof {
        assert(tasks_of(r@) =~= seq![a@, b@]);
    }
    r
}

// ---- What is kept ----

/// What is kept about the player, the flip service and the flips under way.
pub struct Trader {
    pub enable_ah_flips: bool,
    pub enable_bazaar_flips: bool,
    /// Whether the chat of the flip service is printed.
    pub use_cofl_chat: bool,
    /// Whether there are to be notifications.
    pub notifies: bool,
    /// The id of the connection to the flip service.
    pub connection: Option<String>,
    /// The premium tier with the flip service, and until when it runs.
    pub premium: Option<(String, String)>,
    pub flips: FlipTracker,
    /// Whether bazaar flips are paused.
    pub bazaar_paused: bool,
}

/// What is kept, as the contracts speak of it.
#[verifier::ext_equal]
pub struct TraderView {
    pub enable_ah_flips: bool,
    pub enable_bazaar_flips: bool,
    pub use_cofl_chat: bool,
    pub notifies: bool,
    pub connection: Option<Seq<char>>,
    pub premium: Option<(Seq<char>, Seq<char>)>,
    pub flips: Map<Seq<char>, RecordView>,
    pub bazaar_paused: bool,
}

impl View for Trader {
    type V = TraderView;

    open spec fn view(&self) -> TraderView {
        TraderView {
            enable_ah_flips: self.enable_ah_flips,
            enable_bazaar_flips: self.enable_bazaar_flips,
            use_cofl_chat: self.use_cofl_chat,
            notifies: self.notifies,
            connection: opt_text(self.connection),
            premium: premium_view(self.premium),
            flips: self.flips@,
            bazaar_paused: self.bazaar_paused,
        }
    }
}

/// A copy of what is known of the premium tier.
fn copy_premium(premium: &Option<(String, String)>) -> (r: Option<(String, String)>)
    ensures
        premium_view(r) == premium_view(*premium),
{
    match premium {
        Some((tier, expires)) => Some((tier.clone(), expires.clone())),
        None => None,
    }
}

// ---- Messages to the flip service ----

/// The message that uploads the lines of the scoreboard.
pub open spec fn board_message(lines: Seq<Seq<char>>) -> Seq<char> {
    service_message("uploadScoreboard"@, json_text(text_array(lines)))
}

/// The message that uploads an empty player list.
pub open spec fn tab_message() -> Seq<char> {
    service_message("uploadTab"@, "[]"@)
}

/// The message that asks for bazaar flips.
pub open spec fn bazaar_request() -> Seq<char> {
    text_message("getbazaarflips"@, ""@)
}

/// The message that uploads the lines of the scoreboard.
pub fn make_board_message(lines: &Vec<String>) -> (r: String)
    ensures
        r@ == board_message(texts(lines@)),
{
    let data = render_json(&Json::texts(lines));
    make_message("uploadScoreboard", data.as_str())
}

/// The message that asks for bazaar flips.
pub fn make_bazaar_request() -> (r: String)
    ensures
        r@ == bazaar_request(),
{
    make_text_message("getbazaarflips", "")
}

/// Uploading the lines of the scoreboard and an empty player list.
pub open spec fn uploads(lines: Seq<Seq<char>>) -> Seq<TaskView> {
    seq![TaskView::Send(board_message(lines)), TaskView::Send(tab_message())]
}

/// Upload the lines of the scoreboard and an empty player list.
fn upload_board(lines: &Vec<String>) -> (r: Vec<Task>)
    ensures
        tasks_of(r@) == uploads(texts(lines@)),
{
    two_tasks(
        Task::Send(make_board_message(lines)),
        Task::Send(make_message("uploadTab", "[]")),
    )
}

/// What is sent periodically to ask for bazaar flips, if commands are taken.
pub open spec fn periodic_request(bot_state: BotState) -> Option<Seq<char>> {
    if bot_state.takes_commands() {
        Some(bazaar_request())
    } else {
        None
    }
}

/// What is sent periodically to upload the scoreboard, if commands are taken and there is one.
pub open spec fn periodic_upload(bot_state: BotState, lines: Seq<Seq<char>>) -> Option<Seq<char>> {
    if bot_state.takes_commands() && lines.len() > 0 {
        Some(board_message(lines))
    } else {
        None
    }
}

/// The periodic request for bazaar flips, if commands are taken.
pub fn periodic_bazaar_request(bot_state: BotState) -> (r: Option<String>)
    ensures
        opt_text(r) == periodic_request(bot_state),
{
    if bot_state.allows_commands() {
        Some(make_bazaar_request())
    } else {
        None
    }
}

/// The periodic upload of the scoreboard, if commands are taken and there is one.
pub fn periodic_board_upload(bot_state: BotState, lines: &Vec<String>) -> (r: Option<String>)
    ensures
        opt_text(r) == periodic_upload(bot_state, texts(lines@)),
{
    if bot_state.allows_commands() && lines.len() > 0 {
        Some(make_board_message(lines))
    } else {
        None
    }
}

// ---- Timers ----

/// How often bazaar flips are asked for, in milliseconds.
pub const BAZAAR_REQUEST_INTERVAL_MS: u64 = 300_000;

/// How often the scoreboard is uploaded, in milliseconds.
pub const BOARD_UPLOAD_INTERVAL_MS: u64 = 5_000;

/// How long the notification of the start waits, in milliseconds: the connection id and the premium
/// tier arrive shortly after the connection is made.
pub const INITIAL_NOTICE_DELAY_MS: u64 = 3_000;

/// How long the island guard leaves the startup alone, in milliseconds.
pub const ISLAND_FIRST_WAIT_MS: u64 = 60_000;

/// How often the island guard looks, in milliseconds.
pub const ISLAND_CHECK_INTERVAL_MS: u64 = 10_000;

/// How long the way back to the island takes, in milliseconds.
pub const ISLAND_RETURN_MS: u64 = 30_000;

/// How long the island guard waits before it looks again, in milliseconds.
pub open spec fn guard_wait(returned: bool) -> int {
    if returned {
        ISLAND_RETURN_MS + ISLAND_CHECK_INTERVAL_MS
    } else {
        ISLAND_CHECK_INTERVAL_MS as int
    }
}

/// How long the island guard waits before it looks again, in milliseconds: if it has just sent the
/// bot back, the way back comes on top.
pub fn island_wait(returned: bool) -> (r: u64)
    ensures
        r == guard_wait(returned),
{
    if returned {
        ISLAND_RETURN_MS + ISLAND_CHECK_INTERVAL_MS
    } else {
        ISLAND_CHECK_INTERVAL_MS
    }
}

// ---- The island ----

/// One of the lines says that the bot is on its island.
pub open spec fn is_home(lines: Seq<Seq<char>>) -> bool {
    exists|i: int| 0 <= i < lines.len() && occurs_in(#[trigger] lines[i], "Your Island"@)
}

/// What is done where the bot is found away from its island: it is sent back, by way of the lobby.
pub open spec fn return_home() -> Seq<TaskView> {
    seq![
        TaskView::Print("§f[§4BAF§f]: §eNot detected on island — returning to island..."@),
        TaskView::Enqueue(chat_command("/lobby"@)),
        TaskView::Enqueue(chat_command("/play sb"@)),
        TaskView::Enqueue(chat_command("/is"@)),
    ]
}

/// What the island guard does. It keeps out of the startup and of order management, and waits for a
/// scoreboard.
pub open spec fn guard_tasks(bot_state: BotState, lines: Seq<Seq<char>>) -> Seq<TaskView> {
    if bot_state is Startup || bot_state is ManagingOrders || lines.len() == 0 || is_home(lines) {
        Seq::empty()
    } else {
        return_home()
    }
}

/// Whether one of the lines says that the bot is on its island.
fn shows_island(lines: &Vec<String>) -> (r: bool)
    ensures
        r == is_home(texts(lines@)),
{
    let ghost all = texts(lines@);
    let mut i: usize = 0;
    while i < lines.len()
        invariant
            i <= lines@.len(),
            all == texts(lines@),
            forall|j: int| 0 <= j < i ==> !occurs_in(#[trigger] all[j], "Your Island"@),
        decreases lines@.len() - i,
    {
        if contains(lines[i].as_str(), "Your Island") {
            proof {
                assert(occurs_in(all[i as int], "Your Island"@));
            }
            return true;
        }
        i = i + 1;
    }
    false
}

/// Send the bot back to its island if it is away from it.
pub fn guard_island(bot_state: BotState, lines: &Vec<String>) -> (r: Vec<Task>)
    ensures
        tasks_of(r@) == guard_tasks(bot_state, texts(lines@)),
{
    if bot_state == BotState::Startup || bot_state == BotState::ManagingOrders {
        return no_tasks();
    }
    if lines.len() == 0 || shows_island(lines) {
        return no_tasks();
    }
    let told = two_tasks(
        Task::Print("§f[§4BAF§f]: §eNot detected on island — returning to island...".to_owned()),
        Task::Enqueue(queue_chat("/lobby")),
    );
    let joined = and_then(told, Task::Enqueue(queue_chat("/play sb")));
    let r = and_then(joined, Task::Enqueue(queue_chat("/is")));
    proof {
        assert(tasks_of(r@) =~= return_home());
    }
    r
}

// ---- Reports of the bot ----

/// A notification, if there are to be any.
pub open spec fn notify(t: TraderView, notice: NoticeView) -> Seq<TaskView> {
    if t.notifies {
        seq![TaskView::Notify(notice)]
    } else {
        Seq::empty()
    }
}

/// A notification behind what is there, if there are to be any.
fn then_notify(tasks: Vec<Task>, notifies: bool, notice: Notice) -> (r: Vec<Task>)
    ensures
        tasks_of(r@) == tasks_of(tasks@) + (if notifies {
            seq![TaskView::Notify(notice@)]
        } else {
            Seq::empty()
        }),
{
    if notifies {
        let r = and_then(tasks, Task::Notify(notice));
        proof {
            assert(tasks_of(r@) =~= tasks_of(tasks@) + seq![TaskView::Notify(notice@)]);
        }
        r
    } else {
        proof {
            assert(tasks_of(tasks@) =~= tasks_of(tasks@) + Seq::<TaskView>::empty());
        }
        tasks
    }
}

/// What is done once the bot has started.
pub open spec fn on_initialized(t: TraderView) -> Seq<TaskView> {
    notify(
        t,
        NoticeView::Initialized {
            auction_house: t.enable_ah_flips,
            bazaar: t.enable_bazaar_flips,
            connection: t.connection,
            premium: t.premium,
        },
    )
}

/// What is done once the startup is complete: the scoreboard is uploaded, bazaar flips are asked
/// for where they are enabled, and the user is notified.
pub open spec fn on_startup_complete(
    t: TraderView,
    lines: Seq<Seq<char>>,
    orders_cancelled: u64,
) -> Seq<TaskView> {
    uploads(lines) + (if t.enable_bazaar_flips {
        seq![TaskView::Send(bazaar_request())]
    } else {
        Seq::empty()
    }) + notify(
        t,
        NoticeView::StartupComplete {
            orders_cancelled,
            auction_house: t.enable_ah_flips,
            bazaar: t.enable_bazaar_flips,
            connection: t.connection,
            premium: t.premium,
        },
    )
}

/// What a purchase is expected to gain: known if a flip of the item is under way.
pub open spec fn expected_profit(flip: Option<FlipView>, price: u64) -> Option<i64> {
    match flip {
        Some(flip) => Some(profit(flip.target, price) as i64),
        None => None,
    }
}

/// What is done about a purchase, given the flip of the item that was under way: the scoreboard is
/// uploaded, the item is to be claimed behind other commands, the purchase is announced under the
/// flip's colored name, and the user is notified.
pub open spec fn on_purchased(
    t: TraderView,
    flip: Option<FlipView>,
    item_name: Seq<char>,
    price: u64,
    buy_speed_ms: Option<u64>,
    lines: Seq<Seq<char>>,
    purse: Option<u64>,
) -> Seq<TaskView> {
    uploads(lines) + seq![
        TaskView::Enqueue(
            QueuedView {
                command: CommandView::ClaimPurchasedItem,
                priority: CommandPriority::Normal,
                interruptible: false,
            },
        ),
        TaskView::Print(
            purchase_text(
                match flip {
                    Some(flip) => flip.item_name,
                    None => item_name,
                },
                price,
                expected_profit(flip, price),
                buy_speed_ms,
            ),
        ),
    ] + notify(
        t,
        NoticeView::ItemPurchased {
            item: item_name,
            price,
            target: match flip {
                Some(flip) => Some(flip.target),
                None => None,
            },
            profit: expected_profit(flip, price),
            purse,
            buy_speed_ms,
            uuid: match flip {
                Some(flip) => flip.uuid,
                None => None,
            },
        },
    )
}

/// What a sale has gained: known if the item was bought as a flip.
pub open spec fn made_profit(record: Option<RecordView>, price: u64) -> Option<i64> {
    match record {
        Some(record) => if record.buy_price > 0 {
            Some(profit(price, record.buy_price) as i64)
        } else {
            None
        },
        None => None,
    }
}

/// How long an item was held before its sale, in whole seconds.
pub open spec fn held_secs(record: Option<RecordView>, now: u64) -> Option<u64> {
    match record {
        Some(record) => if record.buy_price > 0 {
            Some(
                if now >= record.bought_at {
                    ((now - record.bought_at) / 1_000_000_000) as u64
                } else {
                    0
                },
            )
        } else {
            None
        },
        None => None,
    }
}

/// What is done about a sale, given the record of the item that was under way: the money is to be
/// claimed ahead of other commands, the sale is announced, and the user is notified.
pub open spec fn on_sold(
    t: TraderView,
    record: Option<RecordView>,
    item_name: Seq<char>,
    price: u64,
    buyer: Seq<char>,
    purse: Option<u64>,
    now: u64,
) -> Seq<TaskView> {
    seq![
        TaskView::Enqueue(
            QueuedView {
                command: CommandView::ClaimSoldItem,
                priority: CommandPriority::High,
                interruptible: true,
            },
        ),
        TaskView::Print(sale_text(item_name, buyer, price, made_profit(record, price))),
    ] + notify(
        t,
        NoticeView::ItemSold {
            item: item_name,
            price,
            buyer,
            profit: made_profit(record, price),
            buy_price: match record {
                Some(record) => if record.buy_price > 0 {
                    Some(record.buy_price)
                } else {
                    None
                },
                None => None,
            },
            held_secs: held_secs(record, now),
            purse,
            uuid: match record {
                Some(record) => record.flip.uuid,
                None => None,
            },
        },
    )
}

/// What an optional flip says.
pub open spec fn flip_view(flip: Option<Flip>) -> Option<FlipView> {
    match flip {
        Some(flip) => Some(flip@),
        None => None,
    }
}

impl Trader {
    /// Notify the user that the bot has started, if there are to be notifications.
    pub fn initialized(&self) -> (r: Vec<Task>)
        ensures
            tasks_of(r@) == on_initialized(self@),
    {
        let r = then_notify(
            no_tasks(),
            self.notifies,
            Notice::Initialized {
                auction_house: self.enable_ah_flips,
                bazaar: self.enable_bazaar_flips,
                connection: copy_opt(&self.connection),
                premium: copy_premium(&self.premium),
            },
        );
        proof {
            assert(tasks_of(r@) =~= notify(
                self@,
                NoticeView::Initialized {
                    auction_house: self@.enable_ah_flips,
                    bazaar: self@.enable_bazaar_flips,
                    connection: self@.connection,
                    premium: self@.premium,
                },
            ));
        }
        r
    }

    /// Go on once the startup is complete.
    pub fn startup_complete(&self, lines: &Vec<String>, orders_cancelled: u64) -> (r: Vec<Task>)
        ensures
            tasks_of(r@) == on_startup_complete(self@, texts(lines@), orders_cancelled),
    {
        let uploaded = upload_board(lines);
        let asked = if self.enable_bazaar_flips {
            let asked = and_then(uploaded, Task::Send(make_bazaar_request()));
            proof {
                assert(tasks_of(asked@) =~= uploads(texts(lines@)) + seq![
                    TaskView::Send(bazaar_request()),
                ]);
            }
            asked
        } else {
            proof {
                assert(uploads(texts(lines@)) =~= uploads(texts(lines@))
                    + Seq::<TaskView>::empty());
            }
            uploaded
        };
        then_notify(
            asked,
            self.notifies,
            Notice::StartupComplete {
                orders_cancelled,
                auction_house: self.enable_ah_flips,
                bazaar: self.enable_bazaar_flips,
                connection: copy_opt(&self.connection),
                premium: copy_premium(&self.premium),
            },
        )
    }

    /// Go on after a purchase, given the flip of the item that was under way.
    pub fn report_purchase(
        &self,
        flip: &Option<Flip>,
        item_name: &str,
        price: u64,
        buy_speed_ms: Option<u64>,
        lines: &Vec<String>,
        purse: Option<u64>,
    ) -> (r: Vec<Task>)
        requires
            flip matches Some(flip) ==> profit_fits(flip.target, price),
        ensures
            tasks_of(r@) == on_purchased(
                self@,
                flip_view(*flip),
                item_name@,
                price,
                buy_speed_ms,
                texts(lines@),
                purse,
            ),
    {
        let (target, gain, name, uuid) = match flip {
            Some(flip) => (
                Some(flip.target),
                Some(calculate_profit(flip.target, price)),
                flip.item_name.clone(),
                copy_opt(&flip.uuid),
            ),
            None => (None, None, item_name.to_owned(), None),
        };
        let claim = QueuedCommand {
            command_type: CommandType::ClaimPurchasedItem,
            priority: CommandPriority::Normal,
            interruptible: false,
        };
        let queued = and_then(upload_board(lines), Task::Enqueue(claim));
        let line = announce_purchase(name.as_str(), price, gain, buy_speed_ms);
        let told = and_then(queued, Task::Print(line));
        let notice = Notice::ItemPurchased {
            item: item_name.to_owned(),
            price,
            target,
            profit: gain,
            purse,
            buy_speed_ms,
            uuid,
        };
        let r = then_notify(told, self.notifies, notice);
        proof {
            assert(tasks_of(r@) =~= on_purchased(
                self@,
                flip_view(*flip),
                item_name@,
                price,
                buy_speed_ms,
                texts(lines@),
                purse,
            ));
        }
        r
    }

    /// Go on after a sale, given the record of the item that was under way.
    pub fn report_sale(
        &self,
        record: &Option<FlipRecord>,
        item_name: &str,
        price: u64,
        buyer: &str,
        purse: Option<u64>,
        now: u64,
    ) -> (r: Vec<Task>)
        requires
            record matches Some(record) ==> record.buy_price > 0 ==> profit_fits(
                price,
                record.buy_price,
            ),
        ensures
            tasks_of(r@) == on_sold(
                self@,
                record_view(*record),
                item_name@,
                price,
                buyer@,
                purse,
                now,
            ),
    {
        let (gain, buy_price, held, uuid) = match record {
            Some(record) => {
                let uuid = copy_opt(&record.flip.uuid);
                if record.buy_price > 0 {
                    let held: u64 = if now >= record.bought_at {
                        (now - record.bought_at) / 1_000_000_000
                    } else {
                        0
                    };
                    (
                        Some(calculate_profit(price, record.buy_price)),
                        Some(record.buy_price),
                        Some(held),
                        uuid,
                    )
                } else {
                    (None, None, None, uuid)
                }
            },
            None => (None, None, None, None),
        };
        let claim = QueuedCommand {
            command_type: CommandType::ClaimSoldItem,
            priority: CommandPriority::High,
            interruptible: true,
        };
        let line = announce_sale(item_name, buyer, price, gain);
        let told = two_tasks(Task::Enqueue(claim), Task::Print(line));
        let notice = Notice::ItemSold {
            item: item_name.to_owned(),
            price,
            buyer: buyer.to_owned(),
            profit: gain,
            buy_price,
            held_secs: held,
            purse,
            uuid,
        };
        let r = then_notify(told, self.notifies, notice);
        proof {
            assert(tasks_of(r@) =~= on_sold(
                self@,
                record_view(*record),
                item_name@,
                price,
                buyer@,
                purse,
                now,
            ));
        }
        r
    }

    /// Go on after a bazaar order was placed. `price_in_coins` is the price per unit in whole coins.
    pub fn report_order_placed(
        &self,
        item_name: &str,
        amount: u64,
        price_per_unit: &str,
        price_in_coins: i64,
        is_buy_order: bool,
        purse: Option<u64>,
    ) -> (r: Vec<Task>)
        ensures
            tasks_of(r@) == seq![
                TaskView::Print(
                    order_placed_text(item_name@, amount, price_in_coins, is_buy_order),
                ),
            ] + notify(
                self@,
                NoticeView::BazaarOrderPlaced {
                    item: item_name@,
                    amount,
                    price_per_unit: price_per_unit@,
                    is_buy_order,
                    purse,
                },
            ),
    {
        let line = announce_order_placed(item_name, amount, price_in_coins, is_buy_order);
        then_notify(
            one_task(Task::Print(line)),
            self.notifies,
            Notice::BazaarOrderPlaced {
                item: item_name.to_owned(),
                amount,
                price_per_unit: price_per_unit.to_owned(),
                is_buy_order,
                purse,
            },
        )
    }

    /// Go on after an item was put up for auction.
    pub fn report_listed(
        &self,
        item_name: &str,
        starting_bid: u64,
        duration_hours: u64,
        purse: Option<u64>,
    ) -> (r: Vec<Task>)
        ensures
            tasks_of(r@) == seq![
                TaskView::Print(listed_text(item_name@, starting_bid, duration_hours)),
            ] + notify(
                self@,
                NoticeView::AuctionListed {
                    item: item_name@,
                    starting_bid,
                    duration_hours,
                    purse,
                },
            ),
    {
        let line = announce_listed(item_name, starting_bid, duration_hours);
        then_notify(
            one_task(Task::Print(line)),
            self.notifies,
            Notice::AuctionListed {
                item: item_name.to_owned(),
                starting_bid,
                duration_hours,
                purse,
            },
        )
    }
}

/// What is known at the time of a report.
pub struct Circumstances {
    /// The lines of the scoreboard.
    pub lines: Vec<String>,
    pub purse: Option<u64>,
    /// How many orders the startup has cancelled.
    pub orders_cancelled: u64,
    /// How fast an item was bought, if that is known.
    pub buy_speed_ms: Option<u64>,
    /// The price per unit of an order in whole coins, the fraction cut off.
    pub price_in_coins: i64,
    /// The time in nanoseconds of the process's clock.
    pub now: u64,
}

/// What is known at the time of a report, as the contracts speak of it.
#[verifier::ext_equal]
pub struct CircumstancesView {
    pub lines: Seq<Seq<char>>,
    pub purse: Option<u64>,
    pub orders_cancelled: u64,
    pub buy_speed_ms: Option<u64>,
    pub price_in_coins: i64,
    pub now: u64,
}

impl View for Circumstances {
    type V = CircumstancesView;

    open spec fn view(&self) -> CircumstancesView {
        CircumstancesView {
            lines: texts(self.lines@),
            purse: self.purse,
            orders_cancelled: self.orders_cancelled,
            buy_speed_ms: self.buy_speed_ms,
            price_in_coins: self.price_in_coins,
            now: self.now,
        }
    }
}

/// What is kept once a purchase is noted: if a flip of the item is under way, what was paid and when.
pub open spec fn purchase_noted(t: TraderView, item_name: Seq<char>, price: u64, now: u64) -> TraderView {
    match lookup(t.flips, flip_key(item_name)) {
        Some(record) => TraderView {
            flips: t.flips.insert(
                flip_key(item_name),
                RecordView { buy_price: price, bought_at: now, ..record },
            ),
            ..t
        },
        None => t,
    }
}

/// What is kept once a sale is noted: the flip of the item is no longer under way.
pub open spec fn sale_noted(t: TraderView, item_name: Seq<char>) -> TraderView {
    TraderView { flips: t.flips.remove(flip_key(item_name)), ..t }
}

/// What comes of a report: what is kept afterwards, and what is to be done. A purchase or sale is
/// looked up among the flips under way, and reported with what is known of its flip. Nothing is said
/// of what to do where its profit cannot be computed.
pub open spec fn on_bot_event(t: TraderView, event: BotEventView, c: CircumstancesView) -> (
    TraderView,
    Option<Seq<TaskView>>,
) {
    match event {
        BotEventView::ChatMessage(message) => (t, Some(seq![TaskView::Print(message)])),
        BotEventView::StartupComplete => (
            t,
            Some(on_startup_complete(t, c.lines, c.orders_cancelled)),
        ),
        BotEventView::ItemPurchased(item, price) => {
            let flip = match lookup(t.flips, flip_key(item)) {
                Some(record) => Some(record.flip),
                None => None,
            };
            (
                purchase_noted(t, item, price, c.now),
                if flip matches Some(flip) && !profit_fits(flip.target, price) {
                    None
                } else {
                    Some(on_purchased(t, flip, item, price, c.buy_speed_ms, c.lines, c.purse))
                },
            )
        },
        BotEventView::ItemSold(item, price, buyer) => {
            let record = lookup(t.flips, flip_key(item));
            (
                sale_noted(t, item),
                if record matches Some(record) && record.buy_price > 0 && !profit_fits(
                    price,
                    record.buy_price,
                ) {
                    None
                } else {
                    Some(on_sold(t, record, item, price, buyer, c.purse, c.now))
                },
            )
        },
        BotEventView::BazaarOrderPlaced(item, amount, price_per_unit, is_buy_order) => (
            t,
            Some(
                seq![
                    TaskView::Print(
                        order_placed_text(item, amount, c.price_in_coins, is_buy_order),
                    ),
                ] + notify(
                    t,
                    NoticeView::BazaarOrderPlaced {
                        item,
                        amount,
                        price_per_unit,
                        is_buy_order,
                        purse: c.purse,
                    },
                ),
            ),
        ),
        BotEventView::AuctionListed(item, starting_bid, duration_hours) => (
            t,
            Some(
                seq![TaskView::Print(listed_text(item, starting_bid, duration_hours))] + notify(
                    t,
                    NoticeView::AuctionListed {
                        item,
                        starting_bid,
                        duration_hours,
                        purse: c.purse,
                    },
                ),
            ),
        ),
        _ => (t, Some(Seq::empty())),
    }
}

/// What the tasks do, if there are any to be named.
pub open spec fn opt_tasks(tasks: Option<Vec<Task>>) -> Option<Seq<TaskView>> {
    match tasks {
        Some(tasks) => Some(tasks_of(tasks@)),
        None => None,
    }
}

impl Trader {
    /// Note a purchase, and report it with the flip of the item that was under way.
    fn take_purchase(&mut self, item_name: &String, price: u64, c: &Circumstances) -> (r: Option<
        Vec<Task>,
    >)
        ensures
            ({
                let event = BotEventView::ItemPurchased(item_name@, price);
                (final(self)@, opt_tasks(r)) == on_bot_event(old(self)@, event, c@)
            }),
    {
        let ghost before = self@;
        let flip = self.flips.item_purchased(item_name.as_str(), price, c.now);
        proof {
            assert(self@ =~= purchase_noted(before, item_name@, price, c.now));
        }
        if let Some(flip) = &flip {
            if !can_calculate_profit(flip.target, price) {
                return None;
            }
        }
        Some(
            self.report_purchase(
                &flip,
                item_name.as_str(),
                price,
                c.buy_speed_ms,
                &c.lines,
                c.purse,
            ),
        )
    }

    /// Note a sale, and report it with the record of the item that was under way.
    fn take_sale(
        &mut self,
        item_name: &String,
        price: u64,
        buyer: &String,
        c: &Circumstances,
    ) -> (r: Option<Vec<Task>>)
        ensures
            ({
                let event = BotEventView::ItemSold(item_name@, price, buyer@);
                (final(self)@, opt_tasks(r)) == on_bot_event(old(self)@, event, c@)
            }),
    {
        let ghost before = self@;
        let record = self.flips.item_sold(item_name.as_str());
        proof {
            assert(self@ =~= sale_noted(before, item_name@));
        }
        if let Some(record) = &record {
            if record.buy_price > 0 && !can_calculate_profit(price, record.buy_price) {
                return None;
            }
        }
        Some(
            self.report_sale(
                &record,
                item_name.as_str(),
                price,
                buyer.as_str(),
                c.purse,
                c.now,
            ),
        )
    }

    /// Handle a report of the bot. There is no answer only where the profit of a purchase or of a
    /// sale cannot be computed.
    pub fn handle_bot_event(&mut self, event: &BotEvent, c: &Circumstances) -> (r: Option<Vec<Task>>)
        ensures
            (final(self)@, opt_tasks(r)) == on_bot_event(old(self)@, event@, c@),
    {
        match event {
            BotEvent::ChatMessage(message) => Some(one_task(Task::Print(message.clone()))),
            BotEvent::StartupComplete => Some(self.startup_complete(&c.lines, c.orders_cancelled)),
            BotEvent::ItemPurchased { item_name, price } => self.take_purchase(
                item_name,
                *price,
                c,
            ),
            BotEvent::ItemSold { item_name, price, buyer } => self.take_sale(
                item_name,
                *price,
                buyer,
                c,
            ),
            BotEvent::BazaarOrderPlaced { item_name, amount, price_per_unit, is_buy_order } =>
                Some(
                self.report_order_placed(
                    item_name.as_str(),
                    *amount,
                    price_per_unit.as_str(),
                    c.price_in_coins,
                    *is_buy_order,
                    c.purse,
                ),
            ),
            BotEvent::AuctionListed { item_name, starting_bid, duration_hours } => Some(
                self.report_listed(item_name.as_str(), *starting_bid, *duration_hours, c.purse),
            ),
            _ => Some(no_tasks()),
        }
    }
}

// ---- Messages of the flip service ----

/// What the flip service sends.
pub enum CoflEvent {
    AuctionFlip(Flip),
    BazaarFlip(BazaarFlip),
    ChatMessage(String),
    /// A command to be carried out.
    Command(String),
    GetInventory,
    TradeResponse,
    PrivacySettings(String),
    SwapProfile(String),
    /// An auction to be put up, as JSON.
    CreateAuction(String),
    /// A trade to be made, as JSON.
    Trade(String),
    RunSequence(String),
    /// Auction flips are about to come.
    Countdown,
}

/// A recommended order, as the contracts speak of it.
#[verifier::ext_equal]
pub struct BazaarFlipView {
    pub order: OrderView,
    pub price_in_coins: i64,
    pub is_buy_order: bool,
}

impl View for BazaarFlip {
    type V = BazaarFlipView;

    open spec fn view(&self) -> BazaarFlipView {
        BazaarFlipView {
            order: OrderView {
                item_name: self.item_name@,
                item_tag: opt_text(self.item_tag),
                amount: self.amount,
                price_per_unit: self.price_per_unit@,
            },
            price_in_coins: self.price_in_coins,
            is_buy_order: self.is_buy_order,
        }
    }
}

/// What comes of a message: what is kept afterwards, and what is to be done.
#[verifier::ext_equal]
pub struct Reaction {
    pub trader: TraderView,
    pub tasks: Seq<TaskView>,
}

/// An auction flip: it is bought, unless such flips are disabled or the bot takes no commands.
pub open spec fn on_auction_flip(t: TraderView, flip: FlipView, bot_state: BotState, now: u64) -> Reaction {
    if !t.enable_ah_flips || !bot_state.takes_commands() {
        Reaction { trader: t, tasks: Seq::empty() }
    } else {
        Reaction {
            trader: TraderView {
                flips: t.flips.insert(
                    flip_key(flip.item_name),
                    RecordView { flip, buy_price: 0, bought_at: now, received_at: now },
                ),
                ..t
            },
            tasks: seq![
                TaskView::Print(flip_text(flip)),
                TaskView::Enqueue(
                    QueuedView {
                        command: CommandView::PurchaseAuction(flip),
                        priority: CommandPriority::Normal,
                        interruptible: false,
                    },
                ),
            ],
        }
    }
}

/// The command for a recommended order: sell offers go ahead of other commands, to free the
/// inventory, and auction flips may interrupt either.
pub open spec fn order_command(flip: BazaarFlipView) -> QueuedView {
    if flip.is_buy_order {
        QueuedView {
            command: CommandView::BazaarBuyOrder(flip.order),
            priority: CommandPriority::Normal,
            interruptible: true,
        }
    } else {
        QueuedView {
            command: CommandView::BazaarSellOrder(flip.order),
            priority: CommandPriority::High,
            interruptible: true,
        }
    }
}

/// A bazaar flip: it is ordered, unless such flips are disabled or paused, the bot starts up or
/// manages its orders, or it has as many orders as it may have.
pub open spec fn on_bazaar_flip(
    t: TraderView,
    flip: BazaarFlipView,
    bot_state: BotState,
    at_order_limit: bool,
) -> Seq<TaskView> {
    if !t.enable_bazaar_flips || bot_state is Startup || bot_state is ManagingOrders
        || at_order_limit || t.bazaar_paused {
        Seq::empty()
    } else {
        seq![
            TaskView::Print(
                bazaar_flip_text(
                    flip.order.item_name,
                    flip.order.amount,
                    flip.price_in_coins,
                    flip.is_buy_order,
                ),
            ),
            TaskView::Enqueue(order_command(flip)),
        ]
    }
}

/// A chat message of the service: the connection id and the premium tier are read from it, and it
/// is printed where that is asked for.
pub open spec fn on_service_chat(t: TraderView, message: Seq<char>) -> Reaction {
    Reaction {
        trader: TraderView {
            connection: match connection_id(message) {
                Some(id) => Some(id),
                None => t.connection,
            },
            premium: match premium(message) {
                Some(tier) => Some(tier),
                None => t.premium,
            },
            ..t
        },
        tasks: if t.use_cofl_chat {
            seq![TaskView::Print(message)]
        } else {
            Seq::empty()
        },
    }
}

/// A route as tasks. The queue is neither shown nor cleared for the service.
pub open spec fn route_tasks(route: RouteView) -> Seq<TaskView> {
    match route {
        RouteView::Send(message) => seq![TaskView::Send(message)],
        RouteView::Queue(command) => seq![TaskView::Enqueue(command)],
        _ => Seq::empty(),
    }
}

/// A command that goes ahead of others and is not to be interrupted.
pub open spec fn urgent(command: CommandView) -> QueuedView {
    QueuedView { command, priority: CommandPriority::High, interruptible: false }
}

/// The auction to be put up that a JSON value describes: an item, a price and a duration are
/// needed. The item's name goes without color codes.
pub open spec fn listing_in(value: JsonView) -> Option<ListingView> {
    let text = |key: Seq<char>|
        match value.get(key) {
            Some(v) => v.as_text(),
            None => None,
        };
    let number = |key: Seq<char>|
        match value.get(key) {
            Some(v) => v.as_unsigned(),
            None => None,
        };
    match (text("itemName"@), number("price"@), number("duration"@)) {
        (Some(item), Some(price), Some(duration)) => Some(
            ListingView {
                item_name: without_colors(item),
                starting_bid: price,
                duration_hours: duration,
                item_slot: number("slot"@),
                item_id: text("id"@),
            },
        ),
        _ => None,
    }
}

/// An auction to be put up, as the JSON text was read.
pub open spec fn auction_tasks(parsed: Option<JsonView>) -> Seq<TaskView> {
    match parsed {
        Some(value) => match listing_in(value) {
            Some(listing) => seq![
                TaskView::Enqueue(urgent(CommandView::SellToAuction(listing))),
            ],
            None => Seq::empty(),
        },
        None => Seq::empty(),
    }
}

/// A trade to be made, as the JSON text was read: a player is needed.
pub open spec fn trade_tasks(parsed: Option<JsonView>) -> Seq<TaskView> {
    match parsed {
        Some(value) => match value.get("playerName"@) {
            Some(v) => match v.as_text() {
                Some(player) => seq![TaskView::Enqueue(urgent(CommandView::AcceptTrade(player)))],
                None => Seq::empty(),
            },
            None => Seq::empty(),
        },
        None => Seq::empty(),
    }
}

/// Auction flips are about to come: bazaar flips are paused, where both are enabled.
pub open spec fn on_countdown(t: TraderView) -> Reaction {
    if t.enable_bazaar_flips && t.enable_ah_flips {
        Reaction {
            trader: TraderView { bazaar_paused: true, ..t },
            tasks: seq![
                TaskView::Print("§f[§4BAF§f]: §cAH Flips incoming, pausing bazaar flips"@),
                TaskView::ResumeBazaarAfter(BAZAAR_PAUSE_MS),
            ],
        }
    } else {
        Reaction { trader: t, tasks: Seq::empty() }
    }
}

/// The pause is over.
pub open spec fn on_resume(t: TraderView) -> Reaction {
    Reaction {
        trader: TraderView { bazaar_paused: false, ..t },
        tasks: seq![
            TaskView::Print(
                "§f[§4BAF§f]: §aBazaar flips resumed, requesting new recommendations..."@,
            ),
        ] + (if t.enable_bazaar_flips {
            seq![TaskView::Send(bazaar_request())]
        } else {
            Seq::empty()
        }),
    }
}

/// What comes of a message of the flip service.
pub open spec fn on_cofl_event(
    t: TraderView,
    event: CoflEvent,
    bot_state: BotState,
    at_order_limit: bool,
    inventory: Option<Seq<char>>,
    now: u64,
) -> Reaction {
    match event {
        CoflEvent::AuctionFlip(flip) => on_auction_flip(t, flip@, bot_state, now),
        CoflEvent::BazaarFlip(flip) => Reaction {
            trader: t,
            tasks: on_bazaar_flip(t, flip@, bot_state, at_order_limit),
        },
        CoflEvent::ChatMessage(message) => on_service_chat(t, message@),
        CoflEvent::Command(command) => Reaction {
            trader: t,
            tasks: route_tasks(service_route(command@, lowercase(trimmed(command@)))),
        },
        CoflEvent::GetInventory => Reaction {
            trader: t,
            tasks: match inventory {
                Some(text) => seq![TaskView::Send(service_message("uploadInventory"@, text))],
                None => Seq::empty(),
            },
        },
        CoflEvent::TradeResponse => Reaction {
            trader: t,
            tasks: seq![TaskView::Enqueue(urgent(CommandView::ClickSlot(39)))],
        },
        CoflEvent::SwapProfile(name) => Reaction {
            trader: t,
            tasks: seq![TaskView::Enqueue(urgent(CommandView::SwapProfile(name@)))],
        },
        CoflEvent::CreateAuction(data) => Reaction {
            trader: t,
            tasks: auction_tasks(parsed_json(data@)),
        },
        CoflEvent::Trade(data) => Reaction { trader: t, tasks: trade_tasks(parsed_json(data@)) },
        CoflEvent::Countdown => on_countdown(t),
        CoflEvent::PrivacySettings(_) | CoflEvent::RunSequence(_) => Reaction {
            trader: t,
            tasks: Seq::empty(),
        },
    }
}

/// A command that goes ahead of others and is not to be interrupted.
fn enqueue_urgent(command_type: CommandType) -> (r: Vec<Task>)
    ensures
        tasks_of(r@) == seq![TaskView::Enqueue(urgent(command_type@))],
{
    one_task(
        Task::Enqueue(
            QueuedCommand { command_type, priority: CommandPriority::High, interruptible: false },
        ),
    )
}

/// The text of a member, if there is one.
fn member_text(value: &Json, key: &str) -> (r: Option<String>)
    ensures
        opt_text(r) == match value@.get(key@) {
            Some(v) => v.as_text(),
            None => None,
        },
{
    match value.get(key) {
        Some(v) => match v.as_text() {
            Some(text) => Some(text.to_owned()),
            None => None,
        },
        None => None,
    }
}

/// The number of a member, if there is one.
fn member_number(value: &Json, key: &str) -> (r: Option<u64>)
    ensures
        r == match value@.get(key@) {
            Some(v) => v.as_unsigned(),
            None => None,
        },
{
    match value.get(key) {
        Some(v) => v.as_unsigned(),
        None => None,
    }
}

/// Queue the auction that a JSON value describes, if it describes one.
pub fn queue_auction(parsed: &Option<Json>) -> (r: Vec<Task>)
    ensures
        tasks_of(r@) == auction_tasks(
            match parsed {
                Some(value) => Some(value@),
                None => None,
            },
        ),
{
    match parsed {
        Some(value) => {
            let item = member_text(value, "itemName");
            let price = member_number(value, "price");
            let duration = member_number(value, "duration");
            match (item, price, duration) {
                (Some(item), Some(starting_bid), Some(duration_hours)) => enqueue_urgent(
                    CommandType::SellToAuction {
                        item_name: remove_mc_colors(item.as_str()),
                        starting_bid,
                        duration_hours,
                        item_slot: member_number(value, "slot"),
                        item_id: member_text(value, "id"),
                    },
                ),
                _ => no_tasks(),
            }
        },
        None => no_tasks(),
    }
}

/// Queue the trade that a JSON value describes, if it describes one.
pub fn queue_trade(parsed: &Option<Json>) -> (r: Vec<Task>)
    ensures
        tasks_of(r@) == trade_tasks(
            match parsed {
                Some(value) => Some(value@),
                None => None,
            },
        ),
{
    match parsed {
        Some(value) => match member_text(value, "playerName") {
            Some(player_name) => enqueue_urgent(CommandType::AcceptTrade { player_name }),
            None => no_tasks(),
        },
        None => no_tasks(),
    }
}

impl Trader {
    /// Buy an auction flip, if that is possible now.
    fn take_auction_flip(&mut self, flip: &Flip, bot_state: BotState, now: u64) -> (r: Vec<Task>)
        ensures
            final(self)@ == on_auction_flip(old(self)@, flip@, bot_state, now).trader,
            tasks_of(r@) == on_auction_flip(old(self)@, flip@, bot_state, now).tasks,
    {
        if !self.enable_ah_flips || !bot_state.allows_commands() {
            return no_tasks();
        }
        let line = announce_flip(flip);
        self.flips.flip_received(flip, now);
        let purchase = QueuedCommand {
            command_type: CommandType::PurchaseAuction { flip: flip.copy() },
            priority: CommandPriority::Normal,
            interruptible: false,
        };
        two_tasks(Task::Print(line), Task::Enqueue(purchase))
    }

    /// Order a bazaar flip, if that is possible now.
    fn take_bazaar_flip(
        &self,
        flip: &BazaarFlip,
        bot_state: BotState,
        at_order_limit: bool,
    ) -> (r: Vec<Task>)
        ensures
            tasks_of(r@) == on_bazaar_flip(self@, flip@, bot_state, at_order_limit),
    {
        if !self.enable_bazaar_flips || bot_state == BotState::Startup || bot_state
            == BotState::ManagingOrders || at_order_limit || self.bazaar_paused {
            return no_tasks();
        }
        let line = announce_bazaar_flip(flip);
        let order = if flip.is_buy_order {
            QueuedCommand {
                command_type: CommandType::BazaarBuyOrder {
                    item_name: flip.item_name.clone(),
                    item_tag: copy_opt(&flip.item_tag),
                    amount: flip.amount,
                    price_per_unit: flip.price_per_unit.clone(),
                },
                priority: CommandPriority::Normal,
                interruptible: true,
            }
        } else {
            QueuedCommand {
                command_type: CommandType::BazaarSellOrder {
                    item_name: flip.item_name.clone(),
                    item_tag: copy_opt(&flip.item_tag),
                    amount: flip.amount,
                    price_per_unit: flip.price_per_unit.clone(),
                },
                priority: CommandPriority::High,
                interruptible: true,
            }
        };
        two_tasks(Task::Print(line), Task::Enqueue(order))
    }

    /// Read a chat message of the flip service.
    fn take_chat(&mut self, message: &String) -> (r: Vec<Task>)
        ensures
            final(self)@ == on_service_chat(old(self)@, message@).trader,
            tasks_of(r@) == on_service_chat(old(self)@, message@).tasks,
    {
        if let Some(id) = parse_connection_id(message.as_str()) {
            self.connection = Some(id);
        }
        if let Some(tier) = parse_premium(message.as_str()) {
            self.premium = Some(tier);
        }
        if self.use_cofl_chat {
            one_task(Task::Print(message.clone()))
        } else {
            no_tasks()
        }
    }

    /// Handle a message of the flip service. `inventory` is the inventory that was last seen, as
    /// JSON text.
    pub fn handle_cofl_event(
        &mut self,
        event: &CoflEvent,
        bot_state: BotState,
        at_order_limit: bool,
        inventory: &Option<String>,
        now: u64,
    ) -> (r: Vec<Task>)
        ensures
            ({
                let reaction = on_cofl_event(
                    old(self)@,
                    *event,
                    bot_state,
                    at_order_limit,
                    opt_text(*inventory),
                    now,
                );
                &&& final(self)@ == reaction.trader
                &&& tasks_of(r@) == reaction.tasks
            }),
    {
        match event {
            CoflEvent::AuctionFlip(flip) => self.take_auction_flip(flip, bot_state, now),
            CoflEvent::BazaarFlip(flip) => self.take_bazaar_flip(flip, bot_state, at_order_limit),
            CoflEvent::ChatMessage(message) => self.take_chat(message),
            CoflEvent::Command(command) => match route_service_command(command.as_str()) {
                Route::Send(message) => one_task(Task::Send(message)),
                Route::Queue(command) => one_task(Task::Enqueue(command)),
                _ => no_tasks(),
            },
            CoflEvent::GetInventory => match inventory {
                Some(text) => one_task(
                    Task::Send(make_message("uploadInventory", text.as_str())),
                ),
                None => no_tasks(),
            },
            CoflEvent::TradeResponse => enqueue_urgent(CommandType::ClickSlot { slot: 39 }),
            CoflEvent::SwapProfile(name) => enqueue_urgent(
                CommandType::SwapProfile { profile_name: name.clone() },
            ),
            CoflEvent::CreateAuction(data) => {
                let parsed = parse_json(data.as_str());
                queue_auction(&parsed)
            },
            CoflEvent::Trade(data) => {
                let parsed = parse_json(data.as_str());
                queue_trade(&parsed)
            },
            CoflEvent::Countdown => {
                if self.enable_bazaar_flips && self.enable_ah_flips {
                    self.bazaar_paused = true;
                    two_tasks(
                        Task::Print(
                            "§f[§4BAF§f]: §cAH Flips incoming, pausing bazaar flips".to_owned(),
                        ),
                        Task::ResumeBazaarAfter(BAZAAR_PAUSE_MS),
                    )
                } else {
                    no_tasks()
                }
            },
            CoflEvent::PrivacySettings(_) => no_tasks(),
            CoflEvent::RunSequence(_) => no_tasks(),
        }
    }

    /// End the pause of the bazaar flips.
    pub fn resume_bazaar(&mut self) -> (r: Vec<Task>)
        ensures
            final(self)@ == on_resume(old(self)@).trader,
            tasks_of(r@) == on_resume(old(self)@).tasks,
    {
        self.bazaar_paused = false;
        let told = one_task(
            Task::Print(
                "§f[§4BAF§f]: §aBazaar flips resumed, requesting new recommendations...".to_owned(),
            ),
        );
        if self.enable_bazaar_flips {
            let r = and_then(told, Task::Send(make_bazaar_request()));
            proof {
                assert(tasks_of(r@) =~= on_resume(old(self)@).tasks);
            }
            r
        } else {
            proof {
                assert(tasks_of(told@) =~= on_resume(old(self)@).tasks);
            }
            told
        }
    }
}

// ---- What holds of it all ----

/// The flip service changes no setting: whatever it sends, the bot trades what the user enabled.
pub proof fn law_settings_are_the_users(
    t: TraderView,
    event: CoflEvent,
    bot_state: BotState,
    at_order_limit: bool,
    inventory: Option<Seq<char>>,
    now: u64,
)
    ensures
        ({
            let after = on_cofl_event(t, event, bot_state, at_order_limit, inventory, now).trader;
            &&& after.enable_ah_flips == t.enable_ah_flips
            &&& after.enable_bazaar_flips == t.enable_bazaar_flips
            &&& after.use_cofl_chat == t.use_cofl_chat
            &&& after.notifies == t.notifies
        }),
{
}

/// The task trades on its own account: it buys an auction or orders on the bazaar.
pub open spec fn is_trade(task: TaskView) -> bool {
    task matches TaskView::Enqueue(queued) && (queued.command is PurchaseAuction
        || queued.command is BazaarBuyOrder || queued.command is BazaarSellOrder)
}

/// Nothing is bought or ordered that the user has not enabled, nor during the startup or while
/// orders are managed; and while the bot claims, no auction is bought.
pub proof fn law_only_enabled_flips_are_traded(
    t: TraderView,
    event: CoflEvent,
    bot_state: BotState,
    at_order_limit: bool,
    inventory: Option<Seq<char>>,
    now: u64,
    i: int,
)
    requires
        0 <= i < on_cofl_event(t, event, bot_state, at_order_limit, inventory, now).tasks.len(),
        is_trade(on_cofl_event(t, event, bot_state, at_order_limit, inventory, now).tasks[i]),
    ensures
        event is AuctionFlip && t.enable_ah_flips && bot_state.takes_commands() || event is BazaarFlip
            && t.enable_bazaar_flips && !t.bazaar_paused && !at_order_limit,
        !(bot_state is Startup) && !(bot_state is ManagingOrders),
{
    match event {
        CoflEvent::Command(command) => {
            let route = service_route(command@, lowercase(trimmed(command@)));
            assert(route is Queue ==> route->Queue_0 == chat_command(command@));
        },
        CoflEvent::CreateAuction(data) => {
            assert(auction_tasks(parsed_json(data@)).len() <= 1);
        },
        _ => {},
    }
}

/// Bazaar flips are paused while auction flips are coming, and only for that time: after a
/// countdown none is ordered, and after the pause all is as before.
pub proof fn law_countdown_pauses_bazaar_flips(
    t: TraderView,
    flip: BazaarFlipView,
    bot_state: BotState,
    at_order_limit: bool,
)
    requires
        t.enable_ah_flips,
    ensures
        on_bazaar_flip(on_countdown(t).trader, flip, bot_state, at_order_limit).len() == 0,
        !t.bazaar_paused ==> on_resume(on_countdown(t).trader).trader == t,
        t.enable_bazaar_flips ==> on_countdown(t).tasks.last() == TaskView::ResumeBazaarAfter(
            BAZAAR_PAUSE_MS,
        ),
{
}

/// A flip is followed to its profit: what is bought as a flip is reported with the profit that the
/// flip is expected to make, and its sale with the profit that it has made.
pub proof fn law_flip_profit_is_reported(
    t: TraderView,
    flip: FlipView,
    bot_state: BotState,
    paid: u64,
    gained: u64,
    received_at: u64,
    bought_at: u64,
    sold_at: u64,
)
    requires
        t.enable_ah_flips,
        bot_state.takes_commands(),
        paid > 0,
        profit_fits(flip.target, paid),
        profit_fits(gained, paid),
        bought_at <= sold_at,
    ensures
        ({
            let received = on_auction_flip(t, flip, bot_state, received_at).trader.flips;
            let key = flip_key(flip.item_name);
            let bought = received.insert(
                key,
                RecordView { buy_price: paid, bought_at, ..received[key] },
            );
            &&& expected_profit(Some(received[key].flip), paid) == Some(
                profit(flip.target, paid) as i64,
            )
            &&& made_profit(Some(bought[key]), gained) == Some(profit(gained, paid) as i64)
            &&& held_secs(Some(bought[key]), sold_at) == Some(
                ((sold_at - bought_at) / 1_000_000_000) as u64,
            )
            &&& bought[key].flip.uuid == flip.uuid
        }),
{
}

/// A flip is followed by its events: after it was received, the report of its purchase, under
/// whatever colors, is answered with the flip, and the report of its sale with the flip, the price
/// that was paid and the time at which it was. After the sale nothing more is known of it.
pub proof fn law_flip_is_reported_from_offer_to_sale(
    t: TraderView,
    flip: FlipView,
    bot_state: BotState,
    received_at: u64,
    bought_name: Seq<char>,
    paid: u64,
    at_purchase: CircumstancesView,
    sold_name: Seq<char>,
    gained: u64,
    buyer: Seq<char>,
    at_sale: CircumstancesView,
)
    requires
        t.enable_ah_flips,
        bot_state.takes_commands(),
        flip_key(bought_name) == flip_key(flip.item_name),
        flip_key(sold_name) == flip_key(flip.item_name),
        profit_fits(flip.target, paid),
        profit_fits(gained, paid),
    ensures
        ({
            let t1 = on_auction_flip(t, flip, bot_state, received_at).trader;
            let (t2, bought) = on_bot_event(
                t1,
                BotEventView::ItemPurchased(bought_name, paid),
                at_purchase,
            );
            let (t3, sold) = on_bot_event(
                t2,
                BotEventView::ItemSold(sold_name, gained, buyer),
                at_sale,
            );
            let record = RecordView { flip, buy_price: paid, bought_at: at_purchase.now, received_at };
            &&& bought == Some(
                on_purchased(
                    t,
                    Some(flip),
                    bought_name,
                    paid,
                    at_purchase.buy_speed_ms,
                    at_purchase.lines,
                    at_purchase.purse,
                ),
            )
            &&& sold == Some(
                on_sold(t, Some(record), sold_name, gained, buyer, at_sale.purse, at_sale.now),
            )
            &&& lookup(t3.flips, flip_key(flip.item_name)) is None
        }),
{
}

/// A bot that is on its island is left there, and so is one whose whereabouts are not known.
pub proof fn law_island_guard_leaves_home_alone(bot_state: BotState, lines: Seq<Seq<char>>)
    ensures
        is_home(lines) || lines.len() == 0 ==> guard_tasks(bot_state, lines).len() == 0,
        guard_tasks(bot_state, lines).len() > 0 ==> guard_tasks(bot_state, lines) == return_home(),
{
}

} // verus!
