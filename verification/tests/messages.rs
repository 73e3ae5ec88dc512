use frikadellen_baf::messages::{
    extract_viewauction_uuid, parse_connection_id, parse_premium, parse_purchased_message,
    parse_sold_message,
};
use frikadellen_baf::text::{
    contains, join, parse_u64, remove_commas, remove_mc_colors, split_whitespace, starts_with,
    to_decimal, trim,
};

#[test]
fn test_parse_purchased_message() {
    let msg = "You purchased Gemstone Fuel Tank for 40,000,000 coins!";
    let result = parse_purchased_message(msg);
    assert_eq!(result, Some(("Gemstone Fuel Tank".to_string(), 40_000_000)));
}

#[test]
fn test_parse_purchased_message_simple_price() {
    let msg = "You purchased Dirt for 100 coins!";
    let result = parse_purchased_message(msg);
    assert_eq!(result, Some(("Dirt".to_string(), 100)));
}

#[test]
fn test_parse_sold_message() {
    let msg = "[Auction] SomePlayer bought Gemstone Fuel Tank for 45,000,000 coins!";
    let result = parse_sold_message(msg);
    assert_eq!(
        result,
        Some(("SomePlayer".to_string(), "Gemstone Fuel Tank".to_string(), 45_000_000))
    );
}

#[test]
fn test_extract_viewauction_uuid() {
    let msg = "click /viewauction 26e353e9556a4b9791f5e03710ddc505 to view";
    let result = extract_viewauction_uuid(msg);
    assert_eq!(result, Some("26e353e9556a4b9791f5e03710ddc505".to_string()));
}

#[test]
fn test_remove_mc_colors() {
    assert_eq!(remove_mc_colors("§aHello §r§bWorld"), "Hello World");
    assert_eq!(remove_mc_colors("No colors"), "No colors");
}

#[test]
fn color_codes_at_the_edges() {
    assert_eq!(remove_mc_colors(""), "");
    assert_eq!(remove_mc_colors("§"), "");
    assert_eq!(remove_mc_colors("abc§"), "abc");
    assert_eq!(remove_mc_colors("§§x"), "x");
    assert_eq!(remove_mc_colors(&remove_mc_colors("§§§ab")), remove_mc_colors("§§§ab"));
}

#[test]
fn purchased_item_may_hold_for() {
    assert_eq!(
        parse_purchased_message("You purchased Fuel for Drills for 1,234 coins!"),
        Some(("Fuel for Drills".to_string(), 1234))
    );
}

#[test]
fn purchased_message_is_refused() {
    assert_eq!(parse_purchased_message("He purchased Dirt for 100 coins!"), None);
    assert_eq!(parse_purchased_message("You purchased Dirt"), None);
    assert_eq!(parse_purchased_message("You purchased Dirt for many coins!"), None);
    assert_eq!(parse_purchased_message("You purchased Dirt for 100 gems!"), None);
    assert_eq!(
        parse_purchased_message("You purchased Dirt for 18,446,744,073,709,551,616 coins!"),
        None
    );
}

#[test]
fn sold_message_is_refused() {
    assert_eq!(parse_sold_message("SomePlayer bought Dirt for 1 coins"), None);
    assert_eq!(parse_sold_message("[Auction] SomePlayer sold Dirt for 1 coins"), None);
    assert_eq!(parse_sold_message("[Auction] SomePlayer bought Dirt"), None);
    assert_eq!(parse_sold_message("[Auction] SomePlayer bought Dirt for 1 gem"), None);
}

#[test]
fn viewauction_uuid_edges() {
    assert_eq!(extract_viewauction_uuid("/viewauction abc"), Some("abc".to_string()));
    assert_eq!(extract_viewauction_uuid("/viewauction  abc"), None);
    assert_eq!(extract_viewauction_uuid("/viewauction "), None);
    assert_eq!(extract_viewauction_uuid("nothing here"), None);
    assert_eq!(
        extract_viewauction_uuid("x /viewauction a\u{a0}b /viewauction c"),
        Some("a".to_string())
    );
}

#[test]
fn connection_id_has_32_hex_digits() {
    let id = "0123456789abcdefABCDEF0123456789";
    let msg = format!("§7Your connection id is {}§r (copy that)", id);
    assert_eq!(parse_connection_id(&msg), Some(id.to_string()));
    assert_eq!(parse_connection_id("Your connection id is 0123"), None);
    let long = format!("Your connection id is {}0", id);
    assert_eq!(parse_connection_id(&long), None);
    assert_eq!(parse_connection_id("no id"), None);
}

#[test]
fn premium_tier_and_end() {
    assert_eq!(
        parse_premium("You have Premium Plus until 2026-Feb-10 08:55 UTC"),
        Some(("Premium Plus".to_string(), "2026-Feb-10 08:55 UTC".to_string()))
    );
    assert_eq!(
        parse_premium("Hi. You have  X  until  then \nand more"),
        Some(("X".to_string(), "then".to_string()))
    );
    assert_eq!(
        parse_premium("You have X until then\\nmore"),
        Some(("X".to_string(), "then".to_string()))
    );
    assert_eq!(parse_premium("You have  until then"), None);
    assert_eq!(parse_premium("You have X until \n"), None);
    assert_eq!(parse_premium("You have X forever"), None);
}

#[test]
fn numbers_are_read_and_written() {
    assert_eq!(parse_u64("0"), Some(0));
    assert_eq!(parse_u64("+7"), Some(7));
    assert_eq!(parse_u64("007"), Some(7));
    assert_eq!(parse_u64("18446744073709551615"), Some(u64::MAX));
    assert_eq!(parse_u64("18446744073709551616"), None);
    assert_eq!(parse_u64(""), None);
    assert_eq!(parse_u64("+"), None);
    assert_eq!(parse_u64("-1"), None);
    assert_eq!(parse_u64("1 "), None);
    assert_eq!(to_decimal(u64::MAX), "18446744073709551615");
    assert_eq!(to_decimal(0), "0");
    assert_eq!(parse_u64(&to_decimal(1_234_567)), Some(1_234_567));
}

#[test]
fn words_and_spaces() {
    assert_eq!(trim(" \t\u{2003}a b\r\n"), "a b");
    assert_eq!(trim("\u{3000}"), "");
    assert_eq!(split_whitespace("  a \u{a0} b\tc "), vec!["a", "b", "c"]);
    assert!(split_whitespace(" \n").is_empty());
    assert_eq!(join(&vec!["a".to_string(), "b".to_string(), "".to_string()], ", "), "a, b, ");
    assert_eq!(join(&Vec::new(), ", "), "");
    assert_eq!(remove_commas("1,,2,"), "12");
    assert!(contains("abc", "") && contains("abc", "bc") && !contains("abc", "ac"));
    assert!(starts_with("abc", "ab") && starts_with("abc", "") && !starts_with("a", "ab"));
}
