use frikadellen_baf::actions::{
    click_window_slot, click_window_slot_carrying, Action, AuctionStep, BazaarStep, BotEvent,
    ClickType, ContainerClick, Window,
};
use frikadellen_baf::client::{event_handler, BotClientState, ClientEvent};
use frikadellen_baf::commands::{click_open_window, execute_command};
use frikadellen_baf::inventory::Menu;
use frikadellen_baf::items::ItemStack;
use frikadellen_baf::json::{parse_json, render_json, Json};
use frikadellen_baf::letters::to_title_case;
use frikadellen_baf::types::{BotState, CommandType, Flip};
use frikadellen_baf::windows::{
    find_item_slot, handle_window_interaction, names_claim_all, says_auction_limit, says_sold,
    OrderContext, WindowPhase, WindowStep,
};

fn item(kind: &str, name: &str, lore: &[&str]) -> ItemStack {
    let quoted: Vec<String> = lore.iter().map(|l| render_json(&Json::text(l))).collect();
    let data = format!(
        "{{\"components\":{{\"minecraft:custom_name\":{},\"minecraft:lore\":[{}]}}}}",
        render_json(&Json::text(name)),
        quoted.join(",")
    );
    ItemStack {
        empty: false,
        kind_id: 1,
        kind: kind.to_string(),
        count: 1,
        data: parse_json(&data),
    }
}

fn named(name: &str) -> ItemStack {
    item("minecraft:stone", name, &[])
}

fn empty() -> ItemStack {
    ItemStack { empty: true, kind_id: 0, kind: "minecraft:air".to_string(), count: 0, data: None }
}

fn menu(slots: Vec<ItemStack>) -> Menu {
    let size = slots.len();
    Menu { slots, player_start: 0, player_end: size }
}

fn window(title: &str) -> Window {
    Window { id: 5, title: title.to_string() }
}

fn click(slot: i16) -> Action {
    Action::Click(click_window_slot(5, slot))
}

fn idle() -> Action {
    Action::SetState(BotState::Idle)
}

fn state(bot_state: BotState) -> BotClientState {
    let mut state = BotClientState::default();
    state.bot_state = bot_state;
    state
}

/// One phase of the handling.
fn step(
    state: &BotClientState,
    phase: &WindowPhase,
    title: &str,
    slots: Vec<ItemStack>,
    elapsed_ms: u64,
) -> WindowStep {
    handle_window_interaction(state, phase, &window(title), &menu(slots), elapsed_ms)
}

/// What is done in a phase after which nothing more is done.
fn last(state: &BotClientState, phase: &WindowPhase, title: &str, slots: Vec<ItemStack>) -> Vec<Action> {
    let r = step(state, phase, title, slots, 0);
    assert_eq!(r.next, WindowPhase::Done);
    r.actions
}

fn apply(state: &mut BotClientState, actions: &[Action]) {
    for action in actions {
        state.apply(action);
    }
}

#[test]
fn clicks_are_left_clicks() {
    assert_eq!(
        click_window_slot(200, 31),
        ContainerClick {
            container_id: 200,
            state_id: 0,
            slot_num: 31,
            button_num: 0,
            click_type: ClickType::Pickup,
            carried_from: None,
        }
    );
    assert_eq!(click_window_slot_carrying(1, 31, 60).carried_from, Some(60));
}

#[test]
fn purchase_without_and_with_skip() {
    let mut s = state(BotState::Purchasing);
    assert_eq!(last(&s, &WindowPhase::Opened, "BIN Auction View", vec![]), vec![click(31)]);
    assert_eq!(last(&s, &WindowPhase::Opened, "Confirm Purchase", vec![]), vec![click(11), idle()]);
    assert!(last(&s, &WindowPhase::Opened, "Auction View", vec![]).is_empty());
    s.confirm_skip = true;
    assert_eq!(
        last(&s, &WindowPhase::Opened, "BIN Auction View", vec![]),
        vec![click(31), click(31), Action::Click(click_window_slot(6, 11))]
    );
    let hundred = Window { id: 100, title: "BIN Auction View".to_string() };
    let r = handle_window_interaction(&s, &WindowPhase::Opened, &hundred, &menu(vec![]), 0);
    assert_eq!(r.actions[2], Action::Click(click_window_slot(1, 11)));
}

#[test]
fn other_states_leave_windows_alone() {
    for s in [BotState::Idle, BotState::GracePeriod, BotState::Startup, BotState::ManagingOrders] {
        assert!(last(&state(s), &WindowPhase::Opened, "Auction House", vec![]).is_empty());
    }
}

fn order(step: BazaarStep, is_buy_order: bool) -> OrderContext {
    OrderContext { item_name: "Coal".to_string(), is_buy_order, step }
}

#[test]
fn order_button_is_polled_for() {
    let s = state(BotState::Bazaar);
    let opened = step(&s, &WindowPhase::Opened, "Mining ➜ Coal", vec![], 0);
    assert!(opened.actions.is_empty());
    let mut context = order(BazaarStep::Initial, true);
    context.item_name = String::new();
    assert_eq!(opened.next, WindowPhase::BazaarButton(context));
    let phase = WindowPhase::BazaarButton(order(BazaarStep::Initial, true));
    let wait = step(&s, &phase, "Mining ➜ Coal", vec![named("Create Sell Offer")], 0);
    assert_eq!(wait.actions, vec![Action::Wait(50)]);
    assert_eq!(wait.next, phase);
    let late = step(&s, &phase, "Mining ➜ Coal", vec![], 1500);
    assert_eq!(late.actions, vec![Action::Wait(200)]);
    assert_eq!(late.next, WindowPhase::BazaarScreen(order(BazaarStep::Initial, true)));
    assert_eq!(last(&s, &late.next, "Mining ➜ Coal", vec![]), vec![idle()]);
    let found = vec![empty(), named("§aCreate Buy Order")];
    assert_eq!(
        last(&s, &phase, "Mining ➜ Coal", found),
        vec![
            Action::SetBazaarStep(BazaarStep::SelectOrderType),
            Action::Wait(200),
            click(1),
        ]
    );
    let sell = WindowPhase::BazaarButton(order(BazaarStep::Initial, false));
    let offer = vec![named("Create Buy Order"), named("Create Sell Offer")];
    assert_eq!(last(&s, &sell, "Mining ➜ Coal", offer)[2], click(1));
}

#[test]
fn search_results_are_polled_for() {
    let s = state(BotState::Bazaar);
    let phase = WindowPhase::BazaarButton(order(BazaarStep::Initial, true));
    let search = step(&s, &phase, "Bazaar", vec![], 0);
    assert_eq!(search.actions, vec![Action::SetBazaarStep(BazaarStep::SearchResults)]);
    let next = WindowPhase::BazaarSearch(order(BazaarStep::Initial, true));
    assert_eq!(search.next, next);
    let wait = step(&s, &next, "Bazaar", vec![named("Iron")], 1499);
    assert_eq!((wait.actions, wait.next), (vec![Action::Wait(50)], next));
    let next = WindowPhase::BazaarSearch(order(BazaarStep::Initial, true));
    assert_eq!(
        last(&s, &next, "Bazaar", vec![named("Iron"), named("Enchanted Coal")]),
        vec![Action::Wait(200), click(1)]
    );
    let gone = step(&s, &next, "Bazaar", vec![], 1500);
    assert_eq!((gone.actions, gone.next), (vec![idle()], WindowPhase::Done));
}

#[test]
fn order_screens() {
    let s = state(BotState::Bazaar);
    let both = || vec![named("Custom Price"), named("Custom Amount")];
    let screen = |step, buy| WindowPhase::BazaarScreen(order(step, buy));
    assert_eq!(
        last(&s, &screen(BazaarStep::SelectOrderType, true), "How many?", both()),
        vec![Action::SetBazaarStep(BazaarStep::SetAmount), click(1)]
    );
    assert_eq!(
        last(&s, &screen(BazaarStep::SelectOrderType, false), "How much?", both()),
        vec![Action::SetBazaarStep(BazaarStep::SetPrice), click(0)]
    );
    assert_eq!(
        last(&s, &screen(BazaarStep::SetAmount, true), "How much?", both()),
        vec![Action::SetBazaarStep(BazaarStep::SetPrice), click(0)]
    );
    assert!(last(&s, &screen(BazaarStep::SearchResults, true), "How much?", both()).is_empty());
    assert!(last(&s, &screen(BazaarStep::Initial, true), "How much?", both()).is_empty());
}

#[test]
fn buy_order_from_command_to_announcement() {
    let mut s = BotClientState::default();
    let command = CommandType::BazaarBuyOrder {
        item_name: "coal".to_string(),
        item_tag: Some("COAL".to_string()),
        amount: 640,
        price_per_unit: "2.5".to_string(),
    };
    let said = execute_command(&mut s, &command, &menu(vec![]));
    assert_eq!(said, vec![Action::Chat("/bz COAL".to_string())]);
    assert_eq!(s.bot_state, BotState::Bazaar);

    let opened = step(&s, &WindowPhase::Opened, "Mining ➜ Coal", vec![], 0);
    let button = last(&s, &opened.next, "Mining ➜ Coal", vec![named("Create Buy Order")]);
    apply(&mut s, &button);

    let opened = step(&s, &WindowPhase::Opened, "How many?", vec![], 0);
    assert_eq!(opened.actions, vec![Action::Wait(200)]);
    let amount = last(&s, &opened.next, "How many?", vec![named("Custom Amount")]);
    apply(&mut s, &amount);
    let sign = event_handler(&mut s, &ClientEvent::OpenSign);
    assert!(matches!(&sign[0], Action::WriteSign(lines) if lines[0] == "640"));

    let opened = step(&s, &WindowPhase::Opened, "How much?", vec![], 0);
    let past = step(&s, &opened.next, "How much?", vec![named("Custom Price")], 0);
    assert_eq!(past.actions, vec![Action::Wait(200)]);
    let price = last(&s, &past.next, "How much?", vec![named("Custom Price")]);
    apply(&mut s, &price);
    let sign = event_handler(&mut s, &ClientEvent::OpenSign);
    assert!(matches!(&sign[0], Action::WriteSign(lines) if lines[0] == "2.5"));

    let opened = step(&s, &WindowPhase::Opened, "Confirm Buy Order", vec![], 0);
    let past = step(&s, &opened.next, "Confirm Buy Order", vec![], 1500);
    let confirm = step(&s, &past.next, "Confirm Buy Order", vec![], 1700);
    assert_eq!(
        confirm.actions,
        vec![Action::SetBazaarStep(BazaarStep::Confirm), click(13), Action::Wait(500)]
    );
    apply(&mut s, &confirm.actions);
    let placed = last(&s, &confirm.next, "Confirm Buy Order", vec![]);
    assert_eq!(
        placed,
        vec![
            Action::Emit(BotEvent::BazaarOrderPlaced {
                item_name: "coal".to_string(),
                amount: 640,
                price_per_unit: "2.5".to_string(),
                is_buy_order: true,
            }),
            idle(),
        ]
    );
    apply(&mut s, &placed);
    assert_eq!(s.bot_state, BotState::Idle);
}

#[test]
fn purchases_are_claimed() {
    let s = state(BotState::ClaimingPurchased);
    assert_eq!(
        last(&s, &WindowPhase::Opened, "Co-op Auction House", vec![]),
        vec![Action::Wait(300), click(13)]
    );
    let bids = step(&s, &WindowPhase::Opened, "Your Bids", vec![], 0);
    assert_eq!((bids.actions, bids.next), (vec![Action::Wait(300)], WindowPhase::ClaimBids));
    assert_eq!(
        last(&s, &WindowPhase::Opened, "Auction View", vec![]),
        vec![Action::Wait(200), click(31), idle()]
    );
    let cauldron = item("minecraft:cauldron", "Claim All", &[]);
    let sold = item("minecraft:stone", "x", &["§7Status: §aSold!"]);
    assert_eq!(
        last(&s, &WindowPhase::ClaimBids, "Your Bids", vec![named("x"), sold, cauldron]),
        vec![click(2), idle()]
    );
    let sold = item("minecraft:stone", "x", &["Status: Sold!"]);
    assert_eq!(
        last(&s, &WindowPhase::ClaimBids, "Your Bids", vec![named("Claim All"), sold]),
        vec![click(1)]
    );
    assert_eq!(last(&s, &WindowPhase::ClaimBids, "Your Bids", vec![named("x")]), vec![idle()]);
    assert!(last(&s, &WindowPhase::Opened, "Bazaar", vec![]).is_empty());
}

#[test]
fn sales_are_claimed() {
    let s = state(BotState::ClaimingSold);
    let wait = |title: &str| {
        let r = step(&s, &WindowPhase::Opened, title, vec![], 0);
        (r.actions, r.next)
    };
    assert_eq!(wait("Auction House"), (vec![Action::Wait(300)], WindowPhase::ClaimHouse));
    assert_eq!(wait("Manage Auctions"), (vec![Action::Wait(300)], WindowPhase::ClaimManage));
    assert_eq!(wait("BIN Auction View"), (vec![Action::Wait(200)], WindowPhase::ClaimView));
    assert_eq!(wait("Bazaar"), (vec![], WindowPhase::Done));
    let house = vec![named("x"), named("Manage Auctions")];
    assert_eq!(last(&s, &WindowPhase::ClaimHouse, "Auction House", house), vec![click(1)]);
    assert_eq!(last(&s, &WindowPhase::ClaimHouse, "Auction House", vec![]), vec![idle()]);
    let sold = || item("minecraft:stone", "x", &["Sold!"]);
    assert_eq!(
        last(&s, &WindowPhase::ClaimManage, "Manage Auctions", vec![sold(), named("Claim All")]),
        vec![click(1), idle()]
    );
    assert_eq!(
        last(&s, &WindowPhase::ClaimManage, "Manage Auctions", vec![named("x"), sold()]),
        vec![click(1)]
    );
    assert_eq!(last(&s, &WindowPhase::ClaimManage, "Manage Auctions", vec![]), vec![idle()]);
    assert_eq!(
        last(&s, &WindowPhase::ClaimView, "Auction View", vec![named("x"), named("claim coins")]),
        vec![click(1)]
    );
    assert_eq!(last(&s, &WindowPhase::ClaimView, "Auction View", vec![]), vec![click(31)]);
}

fn listing(slot: Option<u64>) -> CommandType {
    CommandType::SellToAuction {
        item_name: "Sword".to_string(),
        starting_bid: 1_000,
        duration_hours: 48,
        item_slot: slot,
        item_id: None,
    }
}

fn sell(s: &mut BotClientState, title: &str, slots: Vec<ItemStack>) -> Vec<Action> {
    let opened = step(s, &WindowPhase::Opened, title, vec![], 0);
    assert_eq!((opened.actions, opened.next), (vec![Action::Wait(300)], WindowPhase::Selling));
    let actions = last(s, &WindowPhase::Selling, title, slots);
    apply(s, &actions);
    actions
}

fn advance(step: AuctionStep, slot: i16) -> Vec<Action> {
    vec![Action::SetAuctionStep(step), Action::Wait(200), click(slot)]
}

#[test]
fn listing_from_command_to_announcement() {
    let mut s = BotClientState::default();
    assert_eq!(
        execute_command(&mut s, &listing(None), &menu(vec![])),
        vec![Action::Chat("/ah".to_string())]
    );
    assert_eq!(sell(&mut s, "Auction House", vec![]), advance(AuctionStep::OpenManage, 15));
    assert_eq!(
        sell(&mut s, "Manage Auctions", vec![named("Create Auction")]),
        advance(AuctionStep::ClickCreate, 0)
    );
    assert_eq!(sell(&mut s, "Create Auction", vec![]), advance(AuctionStep::SelectBIN, 48));
    assert_eq!(
        sell(&mut s, "Create BIN Auction", vec![empty(), named("§6Sword")]),
        vec![
            Action::Wait(200),
            click(1),
            Action::Wait(300),
            Action::SetAuctionStep(AuctionStep::PriceSign),
            Action::Click(click_window_slot_carrying(5, 31, 1)),
        ]
    );
    assert!(sell(&mut s, "Create BIN Auction", vec![]).is_empty());
    let sign = event_handler(&mut s, &ClientEvent::OpenSign);
    assert!(matches!(&sign[0], Action::WriteSign(lines) if lines[0] == "1000" && lines.len() == 4));
    assert_eq!(sell(&mut s, "Create BIN Auction", vec![]), advance(AuctionStep::DurationSign, 33));
    assert_eq!(sell(&mut s, "Auction Duration", vec![]), vec![Action::Wait(200), click(16)]);
    let sign = event_handler(&mut s, &ClientEvent::OpenSign);
    assert!(matches!(&sign[0], Action::WriteSign(lines) if lines[0] == "48"));
    assert_eq!(sell(&mut s, "Create BIN Auction", vec![]), advance(AuctionStep::FinalConfirm, 29));
    assert_eq!(
        sell(&mut s, "Confirm BIN Auction", vec![]),
        vec![Action::Wait(200), click(11), Action::Wait(500), idle()]
    );
    assert_eq!(s.bot_state, BotState::Idle);
    let told = ClientEvent::Chat {
        message: "§eBIN Auction started for Sword!".to_string(),
        overlay: false,
        now: 0,
    };
    assert_eq!(
        event_handler(&mut s, &told)[1],
        Action::Emit(BotEvent::AuctionListed {
            item_name: "Sword".to_string(),
            starting_bid: 1_000,
            duration_hours: 48,
        })
    );
}

#[test]
fn listing_takes_shortcuts_and_gives_up() {
    let start = |step: AuctionStep| {
        let mut s = state(BotState::Selling);
        s.auction_step = step;
        s.auction_item_name = "Sword".to_string();
        s
    };
    let selling = &WindowPhase::Selling;
    let mut s = start(AuctionStep::OpenManage);
    assert_eq!(last(&s, selling, "Create Auction", vec![]), advance(AuctionStep::SelectBIN, 48));
    assert_eq!(last(&s, selling, "Create BIN Auction", vec![named("Sword")])[1], click(0));
    assert_eq!(last(&s, selling, "Create BIN Auction", vec![]), vec![idle()]);
    assert_eq!(last(&s, selling, "Manage Auctions", vec![]), vec![idle()]);
    let full = item("x", "Create Auction", &["You reached the Maximum", "number of auctions"]);
    assert_eq!(last(&s, selling, "Manage Auctions", vec![full]), vec![idle()]);
    assert!(last(&s, selling, "Bazaar", vec![]).is_empty());
    s = start(AuctionStep::ClickCreate);
    assert_eq!(last(&s, selling, "Create BIN Auction", vec![named("Sword")])[1], click(0));
    assert!(last(&s, selling, "Manage Auctions", vec![]).is_empty());
    s = start(AuctionStep::Initial);
    assert!(last(&s, selling, "Manage Auctions", vec![]).is_empty());
    s = start(AuctionStep::SelectBIN);
    assert!(last(&s, selling, "Create Auction", vec![]).is_empty());
    s = start(AuctionStep::FinalConfirm);
    assert!(last(&s, selling, "Create BIN Auction", vec![]).is_empty());
    assert_eq!(last(&s, selling, "Confirm", vec![]).len(), 4);
}

#[test]
fn item_to_auction_by_slot_or_by_name() {
    let mut s = state(BotState::Selling);
    s.auction_item_name = "Sword".to_string();
    let m = Menu {
        slots: vec![named("Sword"), named("Pane"), named("A"), named("B"), empty()],
        player_start: 2,
        player_end: 5,
    };
    assert_eq!(find_item_slot(&s, &m), Some(0));
    s.auction_item_slot = Some(10);
    assert_eq!(find_item_slot(&s, &m), Some(3));
    s.auction_item_slot = Some(11);
    assert_eq!(find_item_slot(&s, &m), Some(0));
    s.auction_item_slot = Some(44);
    assert_eq!(find_item_slot(&s, &m), Some(0));
    s.auction_item_slot = Some(8);
    assert_eq!(find_item_slot(&s, &m), Some(0));
    s.auction_item_slot = Some(45);
    s.auction_item_name = "Shield".to_string();
    assert_eq!(find_item_slot(&s, &m), None);
}

#[test]
fn lowered_texts_decide() {
    assert!(names_claim_all("minecraft:cauldron", "claim all"));
    assert!(!names_claim_all("minecraft:stone", "claim all"));
    assert!(says_sold("status: sold!") && !says_sold("Status: Sold!") && !says_sold("sold"));
    assert!(says_auction_limit("the limit") && says_auction_limit("maximum"));
    assert!(!says_auction_limit("Maximum"));
}

#[test]
fn commands_write_chat() {
    let m = menu(vec![]);
    let run = |s: &mut BotClientState, c: CommandType| execute_command(s, &c, &m);
    let words = |t: &str| vec![Action::Chat(t.to_string())];
    let mut s = BotClientState::default();
    assert_eq!(run(&mut s, CommandType::SendChat { message: "hi".to_string() }), words("hi"));
    assert_eq!(
        run(&mut s, CommandType::SwapProfile { profile_name: "Apple".to_string() }),
        words("/profiles")
    );
    assert_eq!(
        run(&mut s, CommandType::AcceptTrade { player_name: "Bob".to_string() }),
        words("/trade Bob")
    );
    assert_eq!(s.bot_state, BotState::GracePeriod);
    let order = CommandType::BazaarSellOrder {
        item_name: "ENCHANTED coal".to_string(),
        item_tag: None,
        amount: 1,
        price_per_unit: "9".to_string(),
    };
    assert_eq!(run(&mut s, order), words("/bz Enchanted Coal"));
    assert_eq!(s.bazaar_item_name, "ENCHANTED coal");
    assert!(!s.bazaar_is_buy_order);
    assert_eq!(to_title_case("  éCLAIR oF  x "), "Éclair Of X");
    assert_eq!(to_title_case(""), "");
    for c in [CommandType::CheckCookie, CommandType::DiscoverOrders, CommandType::ExecuteOrders] {
        assert!(run(&mut s, c).is_empty());
    }
}

#[test]
fn purchase_needs_an_auction() {
    let buy = |uuid: Option<&str>| CommandType::PurchaseAuction {
        flip: Flip {
            item_name: "x".to_string(),
            starting_bid: 1,
            target: 2,
            uuid: uuid.map(|u| u.to_string()),
        },
    };
    let mut s = BotClientState::default();
    assert!(execute_command(&mut s, &buy(None), &menu(vec![])).is_empty());
    assert!(execute_command(&mut s, &buy(Some("")), &menu(vec![])).is_empty());
    assert_eq!(s.bot_state, BotState::GracePeriod);
    assert_eq!(
        execute_command(&mut s, &buy(Some("abc")), &menu(vec![])),
        vec![Action::Chat("/viewauction abc".to_string())]
    );
    assert_eq!(s.bot_state, BotState::Purchasing);
}

#[test]
fn claims_start_at_the_auction_or_the_house() {
    let m = menu(vec![]);
    let mut s = BotClientState::default();
    s.claim_sold_uuid = Some("abc".to_string());
    assert_eq!(
        execute_command(&mut s, &CommandType::ClaimSoldItem, &m),
        vec![Action::Chat("/viewauction abc".to_string())]
    );
    assert_eq!((s.bot_state, s.claiming_purchased), (BotState::ClaimingSold, false));
    assert_eq!(
        execute_command(&mut s, &CommandType::ClaimPurchasedItem, &m),
        vec![Action::Chat("/ah".to_string())]
    );
    assert_eq!((s.bot_state, s.claiming_purchased), (BotState::ClaimingPurchased, true));
    assert_eq!(s.claim_sold_uuid, None);
    assert_eq!(
        execute_command(&mut s, &CommandType::ClaimSoldItem, &m),
        vec![Action::Chat("/ah".to_string())]
    );
}

#[test]
fn slot_click_waits_and_needs_a_window() {
    let mut s = BotClientState::default();
    assert_eq!(
        execute_command(&mut s, &CommandType::ClickSlot { slot: 39 }, &menu(vec![])),
        vec![Action::Wait(3400), Action::ClickOpenWindow(39)]
    );
    assert_eq!(click_open_window(&s, 39), None);
    s.last_window_id = 4;
    let click = click_open_window(&s, 39).unwrap();
    assert_eq!(click, click_window_slot(4, 39));
    assert_eq!(s.action_counter, 1);
    s.apply(&Action::Click(click));
    assert_eq!(s.action_counter, 2);
}

#[test]
fn inventory_is_uploaded_to_a_connection_only() {
    let mut s = BotClientState::default();
    let m = menu(vec![named("Sword")]);
    assert!(execute_command(&mut s, &CommandType::UploadInventory, &m).is_empty());
    s.ws_connected = true;
    let actions = execute_command(&mut s, &CommandType::UploadInventory, &m);
    match &actions[..] {
        [Action::Upload(message)] => {
            let value = parse_json(message).unwrap();
            assert_eq!(value.get("type"), Some(&Json::text("uploadInventory")));
        }
        _ => panic!("no upload"),
    }
}
