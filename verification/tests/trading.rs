use frikadellen_baf::actions::BotEvent;
use frikadellen_baf::client::BotClient;
use frikadellen_baf::config::Config;
use frikadellen_baf::flips::FlipTracker;
use frikadellen_baf::json::{parse_json, render_json, Json};
use frikadellen_baf::processor::{busy_kind, check_progress, first_wait, Busy, Progress};
use frikadellen_baf::routing::{
    is_for_service, route_input, route_line, route_service_command, route_service_line, Route,
};
use frikadellen_baf::sessions::Sessions;
use frikadellen_baf::trader::{
    guard_island, island_wait, make_bazaar_request, make_board_message, periodic_bazaar_request,
    periodic_board_upload, queue_auction, queue_trade, Circumstances, CoflEvent, Notice, Task, Trader,
};
use frikadellen_baf::types::{
    BazaarFlip, BotState, CommandPriority, CommandType, Flip, QueuedCommand,
};
use frikadellen_baf::web::{
    command_answer, events, inventory, inventory_answer, send_command, status, CommandBody,
    WebCommand,
};

fn queued(command_type: CommandType, priority: CommandPriority, interruptible: bool) -> QueuedCommand {
    QueuedCommand { command_type, priority, interruptible }
}

fn urgent(command_type: CommandType) -> Task {
    Task::Enqueue(queued(command_type, CommandPriority::High, false))
}

fn game_chat(message: &str) -> QueuedCommand {
    queued(CommandType::SendChat { message: message.to_string() }, CommandPriority::High, false)
}

fn message(kind: &str, data: &str) -> String {
    let quoted = render_json(&Json::text(data));
    format!("{{\"data\":{},\"type\":\"{}\"}}", quoted, kind)
}

fn texts(lines: &[&str]) -> Vec<String> {
    lines.iter().map(|l| l.to_string()).collect()
}

#[test]
fn input_is_routed() {
    assert_eq!(route_input("  \t"), Route::Nothing);
    assert_eq!(route_input(" /cofl  Queue now"), Route::ShowQueue);
    assert_eq!(route_input("/BAF ClearQueue"), Route::ClearQueue);
    assert_eq!(
        route_input("/Cofl set  lang \t en "),
        Route::Send(message("set", "\"lang en\""))
    );
    assert_eq!(route_input("/cofl"), Route::Send(message("chat", "\"\"")));
    assert_eq!(route_input("/coflsomething"), Route::Send(message("chat", "\"\"")));
    assert_eq!(route_input(" /is now "), Route::Queue(game_chat("/is now")));
    assert_eq!(route_input(" say \"hi\" "), Route::Send(message("chat", "\"say \\\"hi\\\"\"")));
}

#[test]
fn lowered_line_decides() {
    assert!(is_for_service("/cofl x") && is_for_service("/baf") && !is_for_service("/COFL"));
    assert_eq!(route_line("/COFL x", "/cofl x", "x"), Route::Send(message("x", "\"\"")));
    assert_eq!(route_line("/COFL x", "/COFL x", "x"), Route::Queue(game_chat("/COFL x")));
    assert_eq!(route_line("/cofl a", "/cofl a", "queue"), Route::ShowQueue);
    assert_eq!(route_line("", "", ""), Route::Nothing);
}

#[test]
fn service_commands_are_routed() {
    assert_eq!(
        route_service_command(" /cofl report a  b"),
        Route::Send(message("report", "\"a b\""))
    );
    assert_eq!(route_service_command("/BAF queue"), Route::Send(message("queue", "\"\"")));
    assert_eq!(route_service_command("/cofl"), Route::Nothing);
    assert_eq!(route_service_command(" /is "), Route::Queue(game_chat(" /is ")));
    assert_eq!(route_service_command("hello"), Route::Queue(game_chat("hello")));
    assert_eq!(route_service_line("/X y", "/cofl"), Route::Send(message("y", "\"\"")));
}

fn trader() -> Trader {
    Trader {
        enable_ah_flips: true,
        enable_bazaar_flips: true,
        use_cofl_chat: true,
        notifies: true,
        connection: None,
        premium: None,
        flips: FlipTracker::new(),
        bazaar_paused: false,
    }
}

fn react(t: &mut Trader, event: CoflEvent) -> Vec<Task> {
    t.handle_cofl_event(&event, BotState::Idle, false, &None, 7)
}

fn flip() -> Flip {
    Flip {
        item_name: "§6Sword".to_string(),
        starting_bid: 1_000,
        target: 5_000,
        uuid: Some("u".to_string()),
    }
}

fn bazaar_flip(is_buy_order: bool) -> BazaarFlip {
    BazaarFlip {
        item_name: "Coal".to_string(),
        item_tag: Some("COAL".to_string()),
        amount: 5,
        price_per_unit: "2.5".to_string(),
        price_in_coins: 2,
        is_buy_order,
    }
}

#[test]
fn auction_flips_are_bought() {
    let mut t = trader();
    let tasks = react(&mut t, CoflEvent::AuctionFlip(flip()));
    assert!(matches!(&tasks[0], Task::Print(line) if line.contains("Trying to purchase flip")));
    assert_eq!(
        tasks[1],
        Task::Enqueue(queued(
            CommandType::PurchaseAuction { flip: flip() },
            CommandPriority::Normal,
            false
        ))
    );
    assert_eq!(t.flips.records.len(), 1);
    assert_eq!(t.flips.records[0].key, "sword");
    for busy in [BotState::Startup, BotState::ClaimingSold, BotState::ClaimingPurchased] {
        let none = t.handle_cofl_event(&CoflEvent::AuctionFlip(flip()), busy, false, &None, 7);
        assert!(none.is_empty());
    }
    t.enable_ah_flips = false;
    assert!(react(&mut t, CoflEvent::AuctionFlip(flip())).is_empty());
}

#[test]
fn bazaar_flips_are_ordered() {
    let mut t = trader();
    let buy = react(&mut t, CoflEvent::BazaarFlip(bazaar_flip(true)));
    assert_eq!(
        buy[1],
        Task::Enqueue(queued(
            CommandType::BazaarBuyOrder {
                item_name: "Coal".to_string(),
                item_tag: Some("COAL".to_string()),
                amount: 5,
                price_per_unit: "2.5".to_string(),
            },
            CommandPriority::Normal,
            true
        ))
    );
    let sell = react(&mut t, CoflEvent::BazaarFlip(bazaar_flip(false)));
    assert!(matches!(
        &sell[1],
        Task::Enqueue(QueuedCommand {
            command_type: CommandType::BazaarSellOrder { .. },
            priority: CommandPriority::High,
            interruptible: true,
        })
    ));
    let event = CoflEvent::BazaarFlip(bazaar_flip(true));
    assert!(t.handle_cofl_event(&event, BotState::Startup, false, &None, 0).is_empty());
    assert!(t.handle_cofl_event(&event, BotState::ManagingOrders, false, &None, 0).is_empty());
    assert_eq!(t.handle_cofl_event(&event, BotState::ClaimingSold, false, &None, 0).len(), 2);
    assert!(t.handle_cofl_event(&event, BotState::Idle, true, &None, 0).is_empty());
    t.enable_bazaar_flips = false;
    assert!(react(&mut t, CoflEvent::BazaarFlip(bazaar_flip(true))).is_empty());
}

#[test]
fn countdown_pauses_bazaar_flips() {
    let mut t = trader();
    assert_eq!(
        react(&mut t, CoflEvent::Countdown),
        vec![
            Task::Print("§f[§4BAF§f]: §cAH Flips incoming, pausing bazaar flips".to_string()),
            Task::ResumeBazaarAfter(20_000),
        ]
    );
    assert!(t.bazaar_paused);
    assert!(react(&mut t, CoflEvent::BazaarFlip(bazaar_flip(true))).is_empty());
    assert_eq!(
        t.resume_bazaar(),
        vec![
            Task::Print(
                "§f[§4BAF§f]: §aBazaar flips resumed, requesting new recommendations...".to_string()
            ),
            Task::Send(message("getbazaarflips", "\"\"")),
        ]
    );
    assert_eq!(react(&mut t, CoflEvent::BazaarFlip(bazaar_flip(true))).len(), 2);
    t.enable_ah_flips = false;
    assert!(react(&mut t, CoflEvent::Countdown).is_empty());
    assert!(!t.bazaar_paused);
}

#[test]
fn service_chat_is_read_and_printed() {
    let mut t = trader();
    let id = "0123456789abcdef0123456789abcdef";
    let line = format!("Your connection id is {}", id);
    assert_eq!(react(&mut t, CoflEvent::ChatMessage(line.clone())), vec![Task::Print(line)]);
    assert_eq!(t.connection, Some(id.to_string()));
    t.use_cofl_chat = false;
    let line = "You have Premium until tomorrow".to_string();
    assert!(react(&mut t, CoflEvent::ChatMessage(line)).is_empty());
    assert_eq!(t.premium, Some(("Premium".to_string(), "tomorrow".to_string())));
    react(&mut t, CoflEvent::ChatMessage("hello".to_string()));
    assert_eq!(t.connection, Some(id.to_string()));
    assert!(t.premium.is_some());
}

#[test]
fn other_service_events() {
    let mut t = trader();
    assert_eq!(
        react(&mut t, CoflEvent::TradeResponse),
        vec![urgent(CommandType::ClickSlot { slot: 39 })]
    );
    assert_eq!(
        react(&mut t, CoflEvent::SwapProfile("Apple".to_string())),
        vec![urgent(CommandType::SwapProfile { profile_name: "Apple".to_string() })]
    );
    assert_eq!(
        react(&mut t, CoflEvent::Command("/is".to_string())),
        vec![Task::Enqueue(game_chat("/is"))]
    );
    assert_eq!(
        react(&mut t, CoflEvent::Command("/cofl x y".to_string())),
        vec![Task::Send(message("x", "\"y\""))]
    );
    assert!(react(&mut t, CoflEvent::Command("/cofl".to_string())).is_empty());
    assert!(react(&mut t, CoflEvent::PrivacySettings("{}".to_string())).is_empty());
    assert!(react(&mut t, CoflEvent::RunSequence("{}".to_string())).is_empty());
    assert!(react(&mut t, CoflEvent::GetInventory).is_empty());
    let cached = Some("{\"a\":1}".to_string());
    assert_eq!(
        t.handle_cofl_event(&CoflEvent::GetInventory, BotState::Startup, false, &cached, 0),
        vec![Task::Send(message("uploadInventory", "{\"a\":1}"))]
    );
}

#[test]
fn auctions_are_created_from_json() {
    let mut t = trader();
    let data = "{\"itemName\":\"§6Sword\",\"price\":100,\"duration\":24,\"slot\":9,\"id\":\"X\"}";
    assert_eq!(
        react(&mut t, CoflEvent::CreateAuction(data.to_string())),
        vec![urgent(CommandType::SellToAuction {
            item_name: "Sword".to_string(),
            starting_bid: 100,
            duration_hours: 24,
            item_slot: Some(9),
            item_id: Some("X".to_string()),
        })]
    );
    let short = parse_json("{\"itemName\":\"Sword\",\"price\":100,\"duration\":24,\"slot\":-1}");
    assert_eq!(
        queue_auction(&short),
        vec![urgent(CommandType::SellToAuction {
            item_name: "Sword".to_string(),
            starting_bid: 100,
            duration_hours: 24,
            item_slot: None,
            item_id: None,
        })]
    );
    assert!(queue_auction(&parse_json("{\"itemName\":\"Sword\",\"price\":1.5,\"duration\":2}")).is_empty());
    assert!(queue_auction(&parse_json("{\"price\":1,\"duration\":2}")).is_empty());
    assert!(queue_auction(&None).is_empty());
    assert!(react(&mut t, CoflEvent::CreateAuction("nonsense".to_string())).is_empty());
}

#[test]
fn trades_are_read_from_json() {
    let mut t = trader();
    assert_eq!(
        react(&mut t, CoflEvent::Trade("{\"playerName\":\"Bob\"}".to_string())),
        vec![urgent(CommandType::AcceptTrade { player_name: "Bob".to_string() })]
    );
    assert!(queue_trade(&parse_json("{\"playerName\":5}")).is_empty());
    assert!(queue_trade(&None).is_empty());
}

#[test]
fn messages_to_the_service() {
    assert_eq!(make_bazaar_request(), message("getbazaarflips", "\"\""));
    assert_eq!(
        make_board_message(&texts(&["a", "b\""])),
        message("uploadScoreboard", "[\"a\",\"b\\\"\"]")
    );
    assert_eq!(periodic_bazaar_request(BotState::ClaimingSold), None);
    assert_eq!(periodic_bazaar_request(BotState::GracePeriod), Some(make_bazaar_request()));
    assert_eq!(periodic_board_upload(BotState::Idle, &Vec::new()), None);
    assert_eq!(periodic_board_upload(BotState::Startup, &texts(&["a"])), None);
    assert_eq!(
        periodic_board_upload(BotState::Idle, &texts(&["a"])),
        Some(make_board_message(&texts(&["a"])))
    );
}

#[test]
fn startup_is_reported() {
    let mut t = trader();
    let lines = texts(&["x"]);
    let tasks = t.startup_complete(&lines, 3);
    assert_eq!(tasks.len(), 4);
    assert_eq!(tasks[0], Task::Send(make_board_message(&lines)));
    assert_eq!(tasks[1], Task::Send(message("uploadTab", "[]")));
    assert_eq!(tasks[2], Task::Send(make_bazaar_request()));
    assert!(matches!(
        &tasks[3],
        Task::Notify(Notice::StartupComplete { orders_cancelled: 3, auction_house: true, .. })
    ));
    assert!(matches!(&t.initialized()[..], [Task::Notify(Notice::Initialized { .. })]));
    t.enable_bazaar_flips = false;
    t.notifies = false;
    assert_eq!(t.startup_complete(&lines, 3).len(), 2);
    assert!(t.initialized().is_empty());
}

#[test]
fn purchase_and_sale_are_reported_with_profit() {
    let mut t = trader();
    react(&mut t, CoflEvent::AuctionFlip(flip()));
    let bought = t.flips.item_purchased("sword", 1_000, 1_000_000_000);
    let lines = texts(&["x"]);
    let tasks = t.report_purchase(&bought, "Sword", 1_000, Some(50), &lines, Some(9));
    assert_eq!(tasks.len(), 5);
    assert_eq!(
        tasks[2],
        Task::Enqueue(queued(CommandType::ClaimPurchasedItem, CommandPriority::Normal, false))
    );
    assert!(matches!(&tasks[3], Task::Print(line) if line.contains("§6Sword") && line.contains("§a3,950§r")));
    assert_eq!(
        tasks[4],
        Task::Notify(Notice::ItemPurchased {
            item: "Sword".to_string(),
            price: 1_000,
            target: Some(5_000),
            profit: Some(3_950),
            purse: Some(9),
            buy_speed_ms: Some(50),
            uuid: Some("u".to_string()),
        })
    );
    let record = t.flips.item_sold("SWORD");
    let tasks = t.report_sale(&record, "Sword", 4_000, "Bob", None, 63_500_000_000);
    assert_eq!(
        tasks[0],
        Task::Enqueue(queued(CommandType::ClaimSoldItem, CommandPriority::High, true))
    );
    assert!(matches!(&tasks[1], Task::Print(line) if line.ends_with("§7| Profit: §a2,960§r")));
    assert_eq!(
        tasks[2],
        Task::Notify(Notice::ItemSold {
            item: "Sword".to_string(),
            price: 4_000,
            buyer: "Bob".to_string(),
            profit: Some(2_960),
            buy_price: Some(1_000),
            held_secs: Some(62),
            purse: None,
            uuid: Some("u".to_string()),
        })
    );
}

#[test]
fn purchase_and_sale_without_a_flip() {
    let mut t = trader();
    t.notifies = false;
    let tasks = t.report_purchase(&None, "Dirt", 5, None, &Vec::new(), None);
    assert_eq!(tasks.len(), 4);
    assert!(matches!(&tasks[3], Task::Print(line) if line.ends_with("§65§7 coins!")));
    assert_eq!(t.report_sale(&None, "Dirt", 5, "Bob", None, 0).len(), 2);
    react(&mut t, CoflEvent::AuctionFlip(flip()));
    let record = t.flips.item_sold("Sword");
    let tasks = t.report_sale(&record, "Sword", u64::MAX, "Bob", None, 0);
    assert!(matches!(&tasks[1], Task::Print(line) if line.ends_with("§6-1§7 coins!")));
}

#[test]
fn orders_and_listings_are_reported() {
    let t = trader();
    let tasks = t.report_order_placed("Coal", 5, "2.5", 2, true, Some(1));
    assert!(matches!(&tasks[0], Task::Print(line) if line.contains("5x Coal @ §62§7")));
    assert_eq!(
        tasks[1],
        Task::Notify(Notice::BazaarOrderPlaced {
            item: "Coal".to_string(),
            amount: 5,
            price_per_unit: "2.5".to_string(),
            is_buy_order: true,
            purse: Some(1),
        })
    );
    let tasks = t.report_listed("Sword", 7, 24, None);
    assert_eq!(
        tasks[1],
        Task::Notify(Notice::AuctionListed {
            item: "Sword".to_string(),
            starting_bid: 7,
            duration_hours: 24,
            purse: None,
        })
    );
}

#[test]
fn island_guard() {
    let away = texts(&["§7Hub", "x"]);
    let tasks = guard_island(BotState::Idle, &away);
    assert_eq!(
        tasks,
        vec![
            Task::Print("§f[§4BAF§f]: §eNot detected on island — returning to island...".to_string()),
            Task::Enqueue(game_chat("/lobby")),
            Task::Enqueue(game_chat("/play sb")),
            Task::Enqueue(game_chat("/is")),
        ]
    );
    assert!(guard_island(BotState::Startup, &away).is_empty());
    assert!(guard_island(BotState::ManagingOrders, &away).is_empty());
    assert!(guard_island(BotState::Idle, &Vec::new()).is_empty());
    assert!(guard_island(BotState::Idle, &texts(&["x", "⏣ Your Island"])).is_empty());
}

#[test]
fn commands_get_their_time() {
    let order = CommandType::BazaarSellOrder {
        item_name: String::new(),
        item_tag: None,
        amount: 1,
        price_per_unit: String::new(),
    };
    assert_eq!(busy_kind(&order), Busy::Bazaar);
    assert_eq!(busy_kind(&CommandType::ClaimSoldItem), Busy::Claiming);
    assert_eq!(busy_kind(&CommandType::CheckCookie), Busy::Cookie);
    assert_eq!(busy_kind(&CommandType::UploadInventory), Busy::Anything);
    assert_eq!((first_wait(Busy::Anything), first_wait(Busy::Selling)), (5000, 250));
    let done = |reset_to_idle| Progress::Done { reset_to_idle };
    assert_eq!(check_progress(Busy::Bazaar, BotState::Bazaar, 19_999), Progress::Wait(250));
    assert_eq!(check_progress(Busy::Bazaar, BotState::Bazaar, 20_000), done(true));
    assert_eq!(check_progress(Busy::Bazaar, BotState::Idle, 250), done(false));
    assert_eq!(check_progress(Busy::Selling, BotState::Selling, 15_000), done(true));
    assert_eq!(check_progress(Busy::Claiming, BotState::ClaimingSold, 29_999), Progress::Wait(250));
    assert_eq!(check_progress(Busy::Claiming, BotState::ClaimingSold, 30_000), done(false));
    assert_eq!(check_progress(Busy::Cookie, BotState::BuyingCookie, 30_000), done(true));
    assert_eq!(check_progress(Busy::Anything, BotState::Purchasing, 0), done(false));
}

fn config() -> Config {
    Config {
        ingame_name: None,
        enable_ah_flips: true,
        enable_bazaar_flips: false,
        webhook_url: None,
        web_gui_port: 8080,
        websocket_url: String::new(),
        confirm_skip: false,
        auto_cookie: 0,
        use_cofl_chat: true,
        sessions: Sessions::new(),
    }
}

#[test]
fn status_is_served() {
    let mut bot = BotClient::new();
    assert!(render_json(&status(&bot, 0, 0, "Bob", &config())).contains("\"purse\":null"));
    bot.set_state(BotState::ClaimingSold);
    bot.handler.scoreboard.set_sidebar("s");
    bot.handler.scoreboard.set_score("s", "Purse: 1,000", &None, 1);
    assert_eq!(
        render_json(&status(&bot, 4, 77, "Bob", &config())),
        "{\"ahFlips\":true,\"allowsCommands\":false,\"bazaarFlips\":false,\"player\":\"Bob\",\"purse\":1000,\"queueDepth\":4,\"scoreboard\":[\"Purse: 1,000\"],\"state\":\"ClaimingSold\",\"uptimeSecs\":77}"
    );
}

#[test]
fn inventory_and_events_are_served() {
    assert_eq!(render_json(&inventory(&None)), "{\"inventory\":null}");
    assert_eq!(
        render_json(&inventory(&Some("{\"a\":[1]}".to_string()))),
        "{\"inventory\":{\"a\":[1]}}"
    );
    assert_eq!(render_json(&inventory(&Some("{broken".to_string()))), "{\"inventory\":null}");
    assert_eq!(render_json(&inventory_answer(Some(Json::Bool(true)))), "{\"inventory\":true}");
    assert_eq!(render_json(&inventory_answer(None)), "{\"inventory\":null}");
    assert_eq!(render_json(&events(vec![Json::text("a"), Json::Null])), "{\"events\":[\"a\",null]}");
}

#[test]
fn web_commands_follow_the_console() {
    let send = |command: &str| send_command(&CommandBody { command: command.to_string() });
    match send(" \n ") {
        WebCommand::Answer(answer) => {
            assert_eq!(render_json(&answer), "{\"error\":\"empty command\",\"ok\":false}")
        }
        _ => panic!("not refused"),
    }
    for line in [" /is ", "/cofl queue", "/cofl", "/baf set x", "hello"] {
        assert_eq!(
            send(line),
            WebCommand::Run {
                route: route_input(line),
                log_entry: format!("[Web] {}", line.trim()),
            }
        );
    }
    assert_eq!(render_json(&command_answer(&Ok(()))), "{\"ok\":true}");
    assert_eq!(
        render_json(&command_answer(&Err("closed".to_string()))),
        "{\"error\":\"closed\",\"ok\":false}"
    );
}

#[test]
fn states_and_their_names() {
    assert_eq!(BotState::Idle.name(), "Idle");
    assert_eq!(BotState::BuyingCookie.name(), "BuyingCookie");
    assert!(BotState::GracePeriod.allows_commands() && BotState::Bazaar.allows_commands());
    assert!(!BotState::Startup.allows_commands() && !BotState::ManagingOrders.allows_commands());
    assert!(!BotState::ClaimingSold.allows_commands());
    assert!(!BotState::ClaimingPurchased.allows_commands());
}

fn circumstances(now: u64) -> Circumstances {
    Circumstances {
        lines: texts(&["x"]),
        purse: Some(9),
        orders_cancelled: 3,
        buy_speed_ms: Some(50),
        price_in_coins: 2,
        now,
    }
}

#[test]
fn flip_is_reported_from_offer_to_sale() {
    let mut t = trader();
    react(&mut t, CoflEvent::AuctionFlip(flip()));
    let bought = BotEvent::ItemPurchased { item_name: "§aSWORD".to_string(), price: 1_000 };
    let tasks = t.handle_bot_event(&bought, &circumstances(1_000_000_000)).unwrap();
    assert_eq!(
        tasks,
        t.report_purchase(&Some(flip()), "§aSWORD", 1_000, Some(50), &texts(&["x"]), Some(9))
    );
    let sold = BotEvent::ItemSold {
        item_name: "Sword".to_string(),
        price: 4_000,
        buyer: "Bob".to_string(),
    };
    let tasks = t.handle_bot_event(&sold, &circumstances(63_500_000_000)).unwrap();
    assert!(matches!(
        &tasks[2],
        Task::Notify(Notice::ItemSold {
            profit: Some(2_960),
            buy_price: Some(1_000),
            held_secs: Some(62),
            purse: Some(9),
            ..
        })
    ));
    assert!(t.flips.records.is_empty());
    let again = t.handle_bot_event(&sold, &circumstances(0)).unwrap();
    assert!(matches!(&again[2], Task::Notify(Notice::ItemSold { profit: None, uuid: None, .. })));
}

#[test]
fn profit_that_cannot_be_computed_has_no_report() {
    let mut t = trader();
    react(&mut t, CoflEvent::AuctionFlip(flip()));
    let huge = BotEvent::ItemPurchased { item_name: "Sword".to_string(), price: 1 << 63 };
    assert_eq!(t.handle_bot_event(&huge, &circumstances(5)), None);
    assert_eq!(t.flips.records[0].buy_price, 1 << 63);
    let sold = BotEvent::ItemSold {
        item_name: "Sword".to_string(),
        price: 1,
        buyer: "Bob".to_string(),
    };
    assert_eq!(t.handle_bot_event(&sold, &circumstances(6)), None);
    assert!(t.flips.records.is_empty());
}

#[test]
fn other_reports_are_answered() {
    let mut t = trader();
    let c = circumstances(0);
    assert_eq!(
        t.handle_bot_event(&BotEvent::ChatMessage("hi".to_string()), &c),
        Some(vec![Task::Print("hi".to_string())])
    );
    assert_eq!(
        t.handle_bot_event(&BotEvent::StartupComplete, &c),
        Some(t.startup_complete(&texts(&["x"]), 3))
    );
    let placed = BotEvent::BazaarOrderPlaced {
        item_name: "Coal".to_string(),
        amount: 5,
        price_per_unit: "2.5".to_string(),
        is_buy_order: true,
    };
    assert_eq!(
        t.handle_bot_event(&placed, &c),
        Some(t.report_order_placed("Coal", 5, "2.5", 2, true, Some(9)))
    );
    let listed = BotEvent::AuctionListed {
        item_name: "Sword".to_string(),
        starting_bid: 7,
        duration_hours: 24,
    };
    assert_eq!(
        t.handle_bot_event(&listed, &c),
        Some(t.report_listed("Sword", 7, 24, Some(9)))
    );
    assert_eq!(t.handle_bot_event(&BotEvent::WindowClose, &c), Some(vec![]));
    assert_eq!(t.handle_bot_event(&BotEvent::Login, &c), Some(vec![]));
}

#[test]
fn island_guard_waits_for_the_way_back() {
    assert_eq!(island_wait(false), 10_000);
    assert_eq!(island_wait(true), 40_000);
}
