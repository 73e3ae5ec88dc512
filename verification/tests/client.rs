use frikadellen_baf::actions::{
    click_window_slot, Action, AuctionStep, Background, BazaarStep, BotEvent, ClickType, Window,
};
use frikadellen_baf::client::{
    detects_skyblock, event_handler, names_skyblock_profile, BotClient, BotClientState,
    ClientEvent, SKYBLOCK_JOIN_TIMEOUT_NANOS,
};
use frikadellen_baf::inventory::Menu;
use frikadellen_baf::startup::{
    begin_background, expire_watchdog, run_startup_workflow, StartupPhase,
};
use frikadellen_baf::turns::{take_turn, TurnPhase};
use frikadellen_baf::types::{BotState, CommandType};

fn chat(message: &str, now: u64) -> ClientEvent {
    ClientEvent::Chat { message: message.to_string(), overlay: false, now }
}

fn said(message: &str) -> Action {
    Action::Emit(BotEvent::ChatMessage(message.to_string()))
}

#[test]
fn new_client_is_in_its_grace_period() {
    let client = BotClient::new();
    assert_eq!(client.state(), BotState::GracePeriod);
    assert_eq!(client.action_counter(), 1);
    assert_eq!(client.last_window_id(), 0);
    assert!(client.get_scoreboard_lines().is_empty());
    assert!(!client.confirm_skip);
    assert_eq!(client.handler.auction_duration_hours, 24);
    assert!(client.handler.bazaar_is_buy_order);
    assert_eq!(AuctionStep::default(), AuctionStep::Initial);
    assert_eq!(BazaarStep::default(), BazaarStep::Initial);
    assert_eq!(BotClient::default().state(), BotState::GracePeriod);
    assert_eq!(BotClientState::default().bot_state, BotState::GracePeriod);
}

#[test]
fn client_setters() {
    let mut client = BotClient::new();
    client.set_state(BotState::Idle);
    client.increment_action_counter();
    client.set_last_window_id(9);
    assert_eq!(client.state(), BotState::Idle);
    assert_eq!(client.action_counter(), 2);
    assert_eq!(client.last_window_id(), 9);
}

#[test]
fn connecting_starts_the_handlers_afresh() {
    let mut client = BotClient::new();
    client.confirm_skip = true;
    client.set_state(BotState::Idle);
    client.set_last_window_id(3);
    client.handler.teleported_to_island = true;
    client.handler.auction_item_name = "x".to_string();
    client.handler.scoreboard.set_sidebar("s");
    client.handler.scoreboard.set_score("s", "line", &None, 1);
    client.connect(true);
    assert_eq!(client.state(), BotState::Idle);
    assert_eq!(client.last_window_id(), 3);
    assert_eq!(client.get_scoreboard_lines(), vec!["line"]);
    assert!(client.handler.confirm_skip && client.handler.ws_connected);
    assert!(!client.handler.teleported_to_island);
    assert_eq!(client.handler.auction_item_name, "");
}

#[test]
fn outside_calls_are_refused() {
    let client = BotClient::new();
    let start = |r: Result<(), String>| r.unwrap_err().split(' ').next().unwrap().to_string();
    assert_eq!(start(client.chat("/bz")), "chat()");
    assert_eq!(start(client.click_window(1, 0, ClickType::Pickup)), "click_window()");
    assert_eq!(start(client.click_purchase(5)), "click_purchase()");
    assert_eq!(start(client.click_confirm(5, "x")), "click_confirm()");
    assert_eq!(
        client.click_purchase(5),
        Err("click_purchase() cannot be called from outside event handlers. See click_window() documentation for how to send window click packets.".to_string())
    );
}

#[test]
fn login_starts_over() {
    let mut state = BotClientState::default();
    state.joined_skyblock = true;
    state.teleported_to_island = true;
    state.skyblock_join_time = Some(5);
    state.bot_state = BotState::Selling;
    let actions = event_handler(&mut state, &ClientEvent::Login);
    assert_eq!(
        actions,
        vec![Action::Emit(BotEvent::Login), Action::Spawn(Background::StartupWatchdog)]
    );
    assert!(!state.joined_skyblock && !state.teleported_to_island);
    assert_eq!(state.skyblock_join_time, None);
    assert_eq!(state.bot_state, BotState::GracePeriod);
}

#[test]
fn first_spawn_joins_skyblock() {
    let mut state = BotClientState::default();
    let actions = event_handler(&mut state, &ClientEvent::Init { now: 77 });
    assert_eq!(
        actions,
        vec![Action::Emit(BotEvent::Spawn), Action::Spawn(Background::JoinSkyblock)]
    );
    assert_eq!(state.skyblock_join_time, Some(77));
    state.joined_skyblock = true;
    let again = event_handler(&mut state, &ClientEvent::Init { now: 99 });
    assert_eq!(again, vec![Action::Emit(BotEvent::Spawn)]);
    assert_eq!(state.skyblock_join_time, Some(77));
}

#[test]
fn overlay_messages_are_skipped() {
    let mut state = BotClientState::default();
    let event = ClientEvent::Chat {
        message: "You purchased Dirt for 100 coins!".to_string(),
        overlay: true,
        now: 0,
    };
    assert!(event_handler(&mut state, &event).is_empty());
}

#[test]
fn purchase_is_reported() {
    let mut state = BotClientState::default();
    let message = "§aYou purchased §6Dirt §7for §6100 coins!";
    let actions = event_handler(&mut state, &chat(message, 0));
    assert_eq!(
        actions,
        vec![
            said(message),
            Action::Emit(BotEvent::ItemPurchased { item_name: "Dirt".to_string(), price: 100 }),
        ]
    );
}

#[test]
fn sale_is_reported_with_its_auction() {
    let mut state = BotClientState::default();
    let message = "[Auction] Bob bought Dirt for 1,500 coins CLICK /viewauction abc123";
    let actions = event_handler(&mut state, &chat(message, 0));
    assert_eq!(
        actions,
        vec![
            said(message),
            Action::Emit(BotEvent::ItemSold {
                item_name: "Dirt".to_string(),
                price: 1500,
                buyer: "Bob".to_string(),
            }),
        ]
    );
    assert_eq!(state.claim_sold_uuid, Some("abc123".to_string()));
    let broken = "[Auction] bought for coins";
    assert_eq!(event_handler(&mut state, &chat(broken, 0)), vec![said(broken)]);
    assert_eq!(state.claim_sold_uuid, Some("abc123".to_string()));
}

#[test]
fn listing_is_reported() {
    let mut state = BotClientState::default();
    let message = "BIN Auction started for Sword!";
    assert_eq!(event_handler(&mut state, &chat(message, 0)), vec![said(message)]);
    state.auction_item_name = "Sword".to_string();
    state.auction_starting_bid = 9;
    state.auction_duration_hours = 48;
    assert_eq!(
        event_handler(&mut state, &chat(message, 0)),
        vec![
            said(message),
            Action::Emit(BotEvent::AuctionListed {
                item_name: "Sword".to_string(),
                starting_bid: 9,
                duration_hours: 48,
            }),
        ]
    );
}

#[test]
fn skyblock_is_detected() {
    assert!(detects_skyblock("Welcome to Hypixel SkyBlock!"));
    assert!(detects_skyblock("[Profile] You are currently on Apple"));
    assert!(detects_skyblock("[Info] your SkyBlock profile is Apple"));
    assert!(!detects_skyblock("Your skyblock profile is Apple"));
    assert!(!detects_skyblock("[Info] skyblock"));
    assert!(!detects_skyblock("[Profile]"));
    assert!(names_skyblock_profile("SKYBLOCK PROFILE"));
    assert!(!names_skyblock_profile("skyblock profile"));
}

#[test]
fn island_trip_once_per_login() {
    let mut state = BotClientState::default();
    let welcome = "Welcome to Hypixel SkyBlock!";
    assert_eq!(event_handler(&mut state, &chat(welcome, 0)), vec![said(welcome)]);
    event_handler(&mut state, &ClientEvent::Init { now: 100 });
    let go = vec![said(welcome), Action::Spawn(Background::GoToIsland)];
    assert_eq!(event_handler(&mut state, &chat(welcome, 200)), go);
    assert!(state.joined_skyblock && state.teleported_to_island);
    assert_eq!(event_handler(&mut state, &chat(welcome, 300)), vec![said(welcome)]);
    event_handler(&mut state, &ClientEvent::Login);
    event_handler(&mut state, &ClientEvent::Init { now: 400 });
    assert_eq!(event_handler(&mut state, &chat(welcome, 500)), go);
}

#[test]
fn island_trip_after_the_timeout() {
    let mut state = BotClientState::default();
    event_handler(&mut state, &ClientEvent::Init { now: 100 });
    let hi = "hi";
    let limit = 100 + SKYBLOCK_JOIN_TIMEOUT_NANOS;
    assert_eq!(event_handler(&mut state, &chat(hi, 50)), vec![said(hi)]);
    assert_eq!(event_handler(&mut state, &chat(hi, limit)), vec![said(hi)]);
    assert_eq!(
        event_handler(&mut state, &chat(hi, limit + 1)),
        vec![said(hi), Action::Spawn(Background::GoToIsland)]
    );
}

#[test]
fn windows_are_reported_and_handled() {
    let mut state = BotClientState::default();
    let open = ClientEvent::OpenScreen {
        container_id: 258,
        menu_type: "Generic9x6".to_string(),
        title: "Bazaar".to_string(),
    };
    assert_eq!(
        event_handler(&mut state, &open),
        vec![
            Action::Emit(BotEvent::WindowOpen(2, "Generic9x6".to_string(), "Bazaar".to_string())),
            Action::Interact(Window { id: 2, title: "Bazaar".to_string() }),
        ]
    );
    assert_eq!(state.last_window_id, 2);
    assert_eq!(
        event_handler(&mut state, &ClientEvent::ContainerClose),
        vec![Action::Emit(BotEvent::WindowClose)]
    );
    assert_eq!(
        event_handler(&mut state, &ClientEvent::Disconnect { reason: "bye".to_string() }),
        vec![Action::Emit(BotEvent::Disconnected("bye".to_string()))]
    );
    assert!(event_handler(&mut state, &ClientEvent::Other).is_empty());
}

fn sign(text: &str) -> Vec<Action> {
    vec![Action::WriteSign(vec![text.to_string(), String::new(), String::new(), String::new()])]
}

#[test]
fn bazaar_signs() {
    let mut state = BotClientState::default();
    state.bot_state = BotState::Bazaar;
    state.bazaar_amount = 640;
    state.bazaar_price_per_unit = "12.5".to_string();
    assert!(event_handler(&mut state, &ClientEvent::OpenSign).is_empty());
    state.bazaar_step = BazaarStep::SetAmount;
    assert_eq!(event_handler(&mut state, &ClientEvent::OpenSign), sign("640"));
    assert_eq!(state.bazaar_step, BazaarStep::SetAmount);
    state.bazaar_step = BazaarStep::SelectOrderType;
    assert_eq!(event_handler(&mut state, &ClientEvent::OpenSign), sign("12.5"));
    assert_eq!(state.bazaar_step, BazaarStep::SetPrice);
    assert_eq!(event_handler(&mut state, &ClientEvent::OpenSign), sign("12.5"));
    assert_eq!(state.bazaar_step, BazaarStep::SetPrice);
    state.bot_state = BotState::Idle;
    assert!(event_handler(&mut state, &ClientEvent::OpenSign).is_empty());
}

#[test]
fn auction_signs() {
    let mut state = BotClientState::default();
    state.bot_state = BotState::Selling;
    state.auction_starting_bid = 1_000_000;
    state.auction_duration_hours = 12;
    assert!(event_handler(&mut state, &ClientEvent::OpenSign).is_empty());
    state.auction_step = AuctionStep::PriceSign;
    assert_eq!(event_handler(&mut state, &ClientEvent::OpenSign), sign("1000000"));
    assert_eq!(state.auction_step, AuctionStep::SetDuration);
    assert!(event_handler(&mut state, &ClientEvent::OpenSign).is_empty());
    state.auction_step = AuctionStep::DurationSign;
    assert_eq!(event_handler(&mut state, &ClientEvent::OpenSign), sign("12"));
    assert_eq!(state.auction_step, AuctionStep::ConfirmSell);
}

#[test]
fn actions_that_set_something_change_the_state() {
    let mut state = BotClientState::default();
    state.apply(&Action::SetState(BotState::Idle));
    state.apply(&Action::SetBazaarStep(BazaarStep::Confirm));
    state.apply(&Action::SetAuctionStep(AuctionStep::SelectBIN));
    state.apply(&Action::Chat("/is".to_string()));
    assert_eq!(state.action_counter, 1);
    state.apply(&Action::Click(click_window_slot(1, 2)));
    state.apply(&Action::Click(click_window_slot(1, 3)));
    assert_eq!(state.action_counter, 3);
    state.action_counter = i16::MAX;
    state.apply(&Action::Click(click_window_slot(1, 4)));
    assert_eq!(state.action_counter, i16::MIN);
    assert_eq!(state.bot_state, BotState::Idle);
    assert_eq!(state.bazaar_step, BazaarStep::Confirm);
    assert_eq!(state.auction_step, AuctionStep::SelectBIN);
}

fn words(message: &str) -> Action {
    Action::Chat(message.to_string())
}

#[test]
fn startup_workflow() {
    let begin = run_startup_workflow(BotState::GracePeriod, StartupPhase::Begin, 0);
    assert_eq!(
        begin.actions,
        vec![
            Action::SetState(BotState::Startup),
            words("/ah"),
            Action::SetState(BotState::ClaimingSold),
            Action::Wait(500),
        ]
    );
    assert_eq!(begin.next, StartupPhase::Claiming);
    let poll = run_startup_workflow(BotState::ClaimingSold, StartupPhase::Claiming, 29_999);
    assert_eq!((poll.actions, poll.next), (vec![Action::Wait(500)], StartupPhase::Claiming));
    let end = vec![Action::SetState(BotState::Idle), Action::Emit(BotEvent::StartupComplete)];
    let idle = run_startup_workflow(BotState::Idle, StartupPhase::Claiming, 500);
    assert_eq!((idle.actions, idle.next), (end, StartupPhase::Done));
    let late = run_startup_workflow(BotState::ClaimingSold, StartupPhase::Claiming, 30_000);
    assert_eq!(late.next, StartupPhase::Done);
    assert!(run_startup_workflow(BotState::Idle, StartupPhase::Done, 0).actions.is_empty());
}

#[test]
fn background_work() {
    assert_eq!(
        begin_background(Background::JoinSkyblock),
        vec![Action::Wait(3000), words("/play sb")]
    );
    assert_eq!(
        begin_background(Background::GoToIsland),
        vec![Action::Wait(2000), words("/is"), Action::Wait(3000), Action::RunStartup]
    );
    assert_eq!(begin_background(Background::StartupWatchdog), vec![Action::Wait(30_000)]);
    let mut state = BotClientState::default();
    assert_eq!(
        expire_watchdog(&mut state),
        vec![
            words("/play sb"),
            Action::Wait(7000),
            words("/is"),
            Action::Wait(3000),
            Action::RunStartup,
        ]
    );
    assert!(state.joined_skyblock && state.teleported_to_island);
    assert!(expire_watchdog(&mut state).is_empty());
}

fn no_menu() -> Menu {
    Menu { slots: vec![], player_start: 0, player_end: 0 }
}

#[test]
fn waiting_command_goes_before_the_event() {
    let mut state = BotClientState::default();
    state.bot_state = BotState::Selling;
    state.auction_step = AuctionStep::PriceSign;
    let pending = Some(CommandType::ClaimPurchasedItem);
    let event = ClientEvent::OpenSign;
    let first = take_turn(&mut state, TurnPhase::Begin, &pending, &no_menu(), &event);
    assert_eq!(first.actions, vec![Action::Chat("/ah".to_string())]);
    assert_eq!(first.next, TurnPhase::Event);
    assert_eq!(state.bot_state, BotState::ClaimingPurchased);
    assert_eq!(state.auction_step, AuctionStep::PriceSign);
    // The sign is no longer asked for once the command has been carried out.
    let second = take_turn(&mut state, first.next, &pending, &no_menu(), &event);
    assert!(second.actions.is_empty());
    assert_eq!(second.next, TurnPhase::Done);
    assert_eq!(state.auction_step, AuctionStep::PriceSign);
    let third = take_turn(&mut state, second.next, &pending, &no_menu(), &event);
    assert!(third.actions.is_empty());
    assert_eq!(third.next, TurnPhase::Done);
}

#[test]
fn slot_command_does_not_click_the_window_that_opens_behind_it() {
    let mut state = BotClientState::default();
    state.last_window_id = 3;
    let pending = Some(CommandType::ClickSlot { slot: 7 });
    let event = ClientEvent::OpenScreen {
        container_id: 4,
        menu_type: "Generic9x3".to_string(),
        title: "Trade".to_string(),
    };
    let first = take_turn(&mut state, TurnPhase::Begin, &pending, &no_menu(), &event);
    assert_eq!(first.actions, vec![Action::Wait(3400), Action::ClickOpenWindow(7)]);
    assert_eq!(state.last_window_id, 3);
    let second = take_turn(&mut state, first.next, &pending, &no_menu(), &event);
    assert_eq!(second.actions.len(), 2);
    assert_eq!(state.last_window_id, 4);
}

#[test]
fn turn_without_a_command_is_the_event() {
    let mut state = BotClientState::default();
    let step = take_turn(
        &mut state,
        TurnPhase::Begin,
        &None,
        &no_menu(),
        &ClientEvent::ContainerClose,
    );
    assert_eq!(step.actions, vec![Action::Emit(BotEvent::WindowClose)]);
    assert_eq!(step.next, TurnPhase::Done);
}
