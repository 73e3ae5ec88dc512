use frikadellen_baf::inventory::{make_inventory, make_message, upload_inventory, Menu};
use frikadellen_baf::items::{
    extract_text_from_chat_component, find_slot_by_name, get_item_display_name_from_slot,
    get_item_lore_from_slot, is_claimable_auction_slot, is_claimable_lore, show_text,
    to_plain_text, ItemStack,
};
use frikadellen_baf::json::{parse_json, render_json, Json};

fn item(kind: &str, data: &str) -> ItemStack {
    ItemStack {
        empty: false,
        kind_id: 7,
        kind: kind.to_string(),
        count: 3,
        data: parse_json(data),
    }
}

fn empty() -> ItemStack {
    ItemStack { empty: true, kind_id: 0, kind: "minecraft:air".to_string(), count: 0, data: None }
}

fn named(name: &str) -> ItemStack {
    let quoted = render_json(&Json::text(name));
    item("minecraft:stone", &format!("{{\"components\":{{\"minecraft:custom_name\":{}}}}}", quoted))
}

fn with_lore(lines: &[&str]) -> ItemStack {
    let quoted: Vec<String> = lines.iter().map(|l| render_json(&Json::text(l))).collect();
    item(
        "minecraft:stone",
        &format!("{{\"components\":{{\"minecraft:lore\":[{}]}}}}", quoted.join(",")),
    )
}

#[test]
fn json_is_read() {
    assert_eq!(parse_json("null"), Some(Json::Null));
    assert_eq!(parse_json(" true "), Some(Json::Bool(true)));
    assert_eq!(parse_json("18446744073709551615"), Some(Json::Unsigned(u64::MAX)));
    assert_eq!(parse_json("-5"), Some(Json::Negative(-5)));
    assert_eq!(parse_json("2.50"), Some(Json::Fraction("2.5".to_string())));
    assert_eq!(parse_json("\"a\\u00e4\""), Some(Json::Text("aä".to_string())));
    assert_eq!(
        parse_json("[1,[]]"),
        Some(Json::Array(vec![Json::Unsigned(1), Json::Array(vec![])]))
    );
    assert_eq!(
        parse_json("{\"b\":1,\"a\":2}"),
        Some(Json::Object(vec![
            ("a".to_string(), Json::Unsigned(2)),
            ("b".to_string(), Json::Unsigned(1)),
        ]))
    );
    assert_eq!(parse_json("{\"a\":}"), None);
    assert_eq!(parse_json(""), None);
    assert_eq!(parse_json("plain"), None);
}

#[test]
fn json_is_written() {
    let value = Json::Object(vec![
        ("type".to_string(), Json::text("a\"b")),
        ("data".to_string(), Json::Array(vec![Json::Null, Json::Bool(false), Json::Negative(-1)])),
        ("n".to_string(), Json::Fraction("2.5".to_string())),
    ]);
    assert_eq!(
        render_json(&value),
        "{\"data\":[null,false,-1],\"n\":2.5,\"type\":\"a\\\"b\"}"
    );
}

#[test]
fn message_is_read_back() {
    let message = make_message("chat", "\"x\ny\"");
    assert_eq!(message, "{\"data\":\"\\\"x\\ny\\\"\",\"type\":\"chat\"}");
    let value = parse_json(&message).unwrap();
    assert_eq!(value.get("type").and_then(|v| v.as_text()), Some("chat"));
    assert_eq!(value.get("data").and_then(|v| v.as_text()), Some("\"x\ny\""));
    assert!(value.get("other").is_none());
}

#[test]
fn chat_components_are_read() {
    let value =
        parse_json("{\"text\":\"§aHello \",\"extra\":[{\"text\":\"W\",\"extra\":[{\"text\":\"o\"}]},{\"text\":\"rld\"}]}")
            .unwrap();
    assert_eq!(extract_text_from_chat_component(&value), "Hello World");
    assert_eq!(extract_text_from_chat_component(&Json::text("Hello")), "");
    let split = parse_json("{\"text\":\"a§\",\"extra\":[{\"text\":\"bc\"}]}").unwrap();
    assert_eq!(extract_text_from_chat_component(&split), "ac");
}

#[test]
fn shown_text_depends_on_what_was_read() {
    assert_eq!(show_text("§aHi", &None), "Hi");
    assert_eq!(show_text("42", &Some(Json::Unsigned(42))), "");
    let component = parse_json("{\"text\":\"Hi\"}");
    assert_eq!(show_text("whatever", &component), "Hi");
    assert_eq!(to_plain_text(&Json::text("§bPlain")), "Plain");
    assert_eq!(to_plain_text(&Json::text("{\"text\":\"Inner\"}")), "Inner");
    assert_eq!(to_plain_text(&parse_json("{\"text\":\"Outer\"}").unwrap()), "Outer");
}

#[test]
fn display_name_prefers_the_custom_name() {
    let both = item(
        "x",
        "{\"components\":{\"minecraft:custom_name\":\"§6Custom\",\"minecraft:item_name\":\"Base\"}}",
    );
    assert_eq!(get_item_display_name_from_slot(&both), Some("Custom".to_string()));
    let base = item("x", "{\"components\":{\"minecraft:item_name\":{\"text\":\"Base\"}}}");
    assert_eq!(get_item_display_name_from_slot(&base), Some("Base".to_string()));
    assert_eq!(get_item_display_name_from_slot(&item("x", "{\"components\":{}}")), None);
    assert_eq!(get_item_display_name_from_slot(&item("x", "{}")), None);
    assert_eq!(get_item_display_name_from_slot(&empty()), None);
}

#[test]
fn lore_is_read_line_by_line() {
    let lines = item(
        "x",
        "{\"components\":{\"minecraft:lore\":[\"§7One\",{\"text\":\"Two\"},\"{\\\"text\\\":\\\"Three\\\"}\"]}}",
    );
    assert_eq!(get_item_lore_from_slot(&lines), vec!["One", "Two", "Three"]);
    assert!(get_item_lore_from_slot(&empty()).is_empty());
    assert!(get_item_lore_from_slot(&item("x", "{\"components\":{\"minecraft:lore\":3}}")).is_empty());
}

#[test]
fn slots_are_found_by_name() {
    let slots = vec![empty(), named("§aGo Back"), named("CREATE buy Order"), named("Create Buy Order")];
    assert_eq!(find_slot_by_name(&slots, "create BUY"), Some(2));
    assert_eq!(find_slot_by_name(&slots, "go"), Some(1));
    assert_eq!(find_slot_by_name(&slots, ""), Some(1));
    assert_eq!(find_slot_by_name(&slots, "Claim"), None);
    assert_eq!(find_slot_by_name(&vec![named("ÄPFEL")], "äpfel"), Some(0));
}

#[test]
fn claimable_auctions() {
    assert!(is_claimable_auction_slot(&with_lore(&["Status: SOLD!"])));
    assert!(is_claimable_auction_slot(&with_lore(&["§cExpired", "x"])));
    assert!(is_claimable_auction_slot(&with_lore(&["Click to Claim"])));
    assert!(!is_claimable_auction_slot(&with_lore(&["Sold!", "Ends in 3h"])));
    assert!(!is_claimable_auction_slot(&with_lore(&["Ended", "Buy it now: 5"])));
    assert!(!is_claimable_auction_slot(&with_lore(&["Ended", "Starting bid: 5"])));
    assert!(!is_claimable_auction_slot(&with_lore(&["Nothing"])));
    assert!(!is_claimable_auction_slot(&with_lore(&[])));
    assert!(!is_claimable_auction_slot(&empty()));
    assert!(is_claimable_lore("claim your"));
    assert!(!is_claimable_lore("SOLD!"));
}

fn menu(slots: Vec<ItemStack>, player_start: usize, player_end: usize) -> Menu {
    Menu { slots, player_start, player_end }
}

#[test]
fn inventory_has_46_slots() {
    let sword = item("minecraft:iron_sword", "{\"count\":1,\"components\":{\"a\":1}}");
    let stone = item("minecraft:stone", "{\"count\":3}");
    let value = make_inventory(&menu(vec![empty(), empty(), sword, stone], 1, 4));
    let slots = match value.get("slots") {
        Some(Json::Array(slots)) => slots,
        _ => panic!("no slots"),
    };
    assert_eq!(slots.len(), 46);
    assert_eq!(slots[9], Json::Null);
    assert_eq!(
        render_json(&slots[10]),
        "{\"count\":3,\"metadata\":0,\"name\":\"minecraft:iron_sword\",\"nbt\":{\"a\":1},\"slot\":10,\"type\":7}"
    );
    assert_eq!(
        render_json(&slots[11]),
        "{\"count\":3,\"metadata\":0,\"name\":\"minecraft:stone\",\"nbt\":{\"count\":3},\"slot\":11,\"type\":7}"
    );
    assert!(slots.iter().enumerate().all(|(k, s)| k == 10 || k == 11 || *s == Json::Null));
}

#[test]
fn inventory_stops_at_slot_44() {
    let slots: Vec<ItemStack> = (0..40).map(|_| named("x")).collect();
    let value = make_inventory(&menu(slots, 0, 40));
    match value.get("slots") {
        Some(Json::Array(slots)) => {
            assert_eq!(slots.len(), 46);
            assert!(slots[44] != Json::Null && slots[45] == Json::Null && slots[8] == Json::Null);
        }
        _ => panic!("no slots"),
    }
}

#[test]
fn inventory_upload_is_text_in_text() {
    let message = upload_inventory(&menu(vec![], 0, 0));
    let value = parse_json(&message).unwrap();
    assert_eq!(value.get("type").and_then(|v| v.as_text()), Some("uploadInventory"));
    let inner = parse_json(value.get("data").and_then(|v| v.as_text()).unwrap()).unwrap();
    assert_eq!(inner.get("type"), Some(&Json::text("SKYBLOCK_MENU")));
    assert_eq!(inner.get("title"), Some(&Json::text("Inventory")));
    assert_eq!(inner.get("id"), Some(&Json::Unsigned(0)));
    assert_eq!(inner.get("inventoryStart"), Some(&Json::Unsigned(9)));
    assert_eq!(inner.get("inventoryEnd"), Some(&Json::Unsigned(45)));
    assert_eq!(inner.get("hotbarStart"), Some(&Json::Unsigned(36)));
    assert_eq!(inner.get("craftingResultSlot"), Some(&Json::Unsigned(0)));
    assert_eq!(inner.get("requiresConfirmation"), Some(&Json::Bool(true)));
    assert_eq!(inner.get("selectedItem"), Some(&Json::Null));
}
