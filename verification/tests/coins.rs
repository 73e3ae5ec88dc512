use frikadellen_baf::announce::{
    announce_bazaar_flip, announce_flip, announce_listed, announce_order_placed,
    announce_purchase, announce_sale, format_amount,
};
use frikadellen_baf::coins::{calculate_ah_fee, format_coins};
use frikadellen_baf::flips::{calculate_profit, can_calculate_profit, to_signed, FlipTracker};
use frikadellen_baf::messages::parse_purchased_message;
use frikadellen_baf::types::{BazaarFlip, Flip};

fn flip(name: &str, starting_bid: u64, target: u64, uuid: Option<&str>) -> Flip {
    Flip {
        item_name: name.to_string(),
        starting_bid,
        target,
        uuid: uuid.map(|s| s.to_string()),
    }
}

#[test]
fn fee_tiers() {
    assert_eq!(calculate_ah_fee(0), 0);
    assert_eq!(calculate_ah_fee(99), 0);
    assert_eq!(calculate_ah_fee(9_999_999), 99_999);
    assert_eq!(calculate_ah_fee(10_000_000), 200_000);
    assert_eq!(calculate_ah_fee(99_999_999), 1_999_999);
    assert_eq!(calculate_ah_fee(100_000_000), 2_500_000);
    assert_eq!(calculate_ah_fee(100_000_039), 2_500_000);
    assert_eq!(calculate_ah_fee(100_000_040), 2_500_001);
    assert_eq!(calculate_ah_fee(737_869_762_948_382_065), 18_446_744_073_709_551);
    assert_eq!(calculate_ah_fee(u64::MAX), 461_168_601_842_738_790);
}

#[test]
fn fee_grows_with_the_price() {
    let mut last = 0;
    for price in [0u64, 99, 100, 9_999_999, 10_000_000, 99_999_999, 100_000_000, 1_000_000_000] {
        let fee = calculate_ah_fee(price);
        assert!(fee >= last && fee * 40 <= price);
        last = fee;
    }
    assert!(9_999_999 - calculate_ah_fee(9_999_999) > 10_000_000 - calculate_ah_fee(10_000_000));
}

#[test]
fn coins_are_grouped() {
    assert_eq!(format_coins(24_000_000), "24,000,000");
    assert_eq!(format_coins(-500_000), "-500,000");
    assert_eq!(format_coins(0), "0");
    assert_eq!(format_coins(999), "999");
    assert_eq!(format_coins(1_000), "1,000");
    assert_eq!(format_coins(-1), "-1");
    assert_eq!(format_coins(i64::MAX), "9,223,372,036,854,775,807");
    assert_eq!(format_coins(i64::MIN), "-9,223,372,036,854,775,808");
}

#[test]
fn formatted_price_is_read_back() {
    let msg = format!("You purchased A for B for {} coins!", format_coins(1_234_567_890));
    assert_eq!(parse_purchased_message(&msg), Some(("A for B".to_string(), 1_234_567_890)));
}

#[test]
fn signed_reading_of_amounts() {
    assert_eq!(to_signed(5), 5);
    assert_eq!(to_signed(i64::MAX as u64), i64::MAX);
    assert_eq!(to_signed(1 << 63), i64::MIN);
    assert_eq!(to_signed(u64::MAX), -1);
    assert_eq!(format_amount(u64::MAX), "-1");
    assert_eq!(format_amount(1_000_000), "1,000,000");
}

#[test]
fn profit_takes_the_fee_off() {
    assert_eq!(calculate_profit(10_000_000, 8_000_000), 1_800_000);
    assert_eq!(calculate_profit(1_000, 2_000), -1_010);
    assert_eq!(calculate_profit(0, 0), 0);
    assert_eq!(calculate_profit(1_000, 500) - calculate_profit(1_000, 700), 200);
    assert!(can_calculate_profit(0, i64::MAX as u64));
    assert!(can_calculate_profit(i64::MAX as u64, 0));
    assert_eq!(calculate_profit(i64::MAX as u64, 0), i64::MAX - i64::MAX / 40);
    assert!(!can_calculate_profit(1 << 63, 1));
    assert!(!can_calculate_profit(0, 1 << 63));
    assert!(can_calculate_profit(0, u64::MAX));
    assert_eq!(calculate_profit(0, u64::MAX), 1);
}

#[test]
fn flip_is_followed_to_its_sale() {
    let mut tracker = FlipTracker::new();
    tracker.flip_received(&flip("§6Epic §lSword", 100, 200, Some("u1")), 10);
    tracker.flip_received(&flip("Bow", 1, 2, None), 11);
    let bought = tracker.item_purchased("§aepic SWORD", 90, 20).unwrap();
    assert_eq!(bought, flip("§6Epic §lSword", 100, 200, Some("u1")));
    let record = tracker.item_sold("Epic Sword").unwrap();
    assert_eq!(record.buy_price, 90);
    assert_eq!(record.bought_at, 20);
    assert_eq!(record.received_at, 10);
    assert_eq!(record.flip.uuid, Some("u1".to_string()));
    assert!(tracker.item_sold("Epic Sword").is_none());
    assert!(tracker.item_purchased("Epic Sword", 1, 1).is_none());
    let other = tracker.item_sold("BOW").unwrap();
    assert_eq!(other.buy_price, 0);
    assert_eq!(other.bought_at, 11);
}

#[test]
fn later_flip_replaces_earlier_one() {
    let mut tracker = FlipTracker::new();
    tracker.flip_received(&flip("Ärmel", 1, 2, Some("a")), 1);
    tracker.item_purchased("ÄRMEL", 1, 2);
    tracker.flip_received(&flip("ärmel", 3, 4, Some("b")), 3);
    let record = tracker.item_sold("ÄrmeL").unwrap();
    assert_eq!((record.buy_price, record.flip.uuid), (0, Some("b".to_string())));
    assert!(tracker.records.is_empty());
}

#[test]
fn purchase_is_announced() {
    assert_eq!(
        announce_purchase("§6Sword", 1_000_000, Some(25_000), Some(120)),
        "§f[§4BAF§f]: §a✦ PURCHASED §r§6Sword§r §7for §61,000,000§7 coins! §7| Expected profit: §a25,000§r §7| Buy speed: §e120ms§r"
    );
    assert_eq!(
        announce_purchase("Sword", 5, Some(-1), None),
        "§f[§4BAF§f]: §a✦ PURCHASED §rSword§r §7for §65§7 coins! §7| Expected profit: §c-1§r"
    );
    assert_eq!(
        announce_purchase("Sword", 5, None, None),
        "§f[§4BAF§f]: §a✦ PURCHASED §rSword§r §7for §65§7 coins!"
    );
}

#[test]
fn sale_is_announced() {
    assert_eq!(
        announce_sale("Sword", "Bob", 2_000, Some(0)),
        "§f[§4BAF§f]: §6⚡ SOLD §rSword §7to §eBob§7 for §62,000§7 coins! §7| Profit: §a0§r"
    );
    assert_eq!(
        announce_sale("Sword", "Bob", 2_000, None),
        "§f[§4BAF§f]: §6⚡ SOLD §rSword §7to §eBob§7 for §62,000§7 coins!"
    );
}

#[test]
fn orders_and_listings_are_announced() {
    assert_eq!(
        announce_order_placed("Coal", 640, 1_500, true),
        "§f[§4BAF§f]: §6[BZ] §aBUY§7 order placed: 640x Coal @ §61,500§7 coins/unit"
    );
    assert_eq!(
        announce_order_placed("Coal", 1, 2, false),
        "§f[§4BAF§f]: §6[BZ] §cSELL§7 order placed: 1x Coal @ §62§7 coins/unit"
    );
    assert_eq!(
        announce_listed("Sword", 1_000, 24),
        "§f[§4BAF§f]: §a🏷️ BIN listed: §rSword §7@ §61,000§7 coins for §e24h"
    );
}

#[test]
fn flips_are_announced() {
    assert_eq!(
        announce_flip(&flip("§5Sword", 1_000, 3_500, None)),
        "§f[§4BAF§f]: §eTrying to purchase flip: §r§5Sword§r §7for §61,000§7 coins §7(Target: §63,500§7, Profit: §a2,500§7)"
    );
    assert_eq!(
        announce_flip(&flip("X", 10, 3, None)),
        "§f[§4BAF§f]: §eTrying to purchase flip: §rX§r §7for §610§7 coins §7(Target: §63§7, Profit: §a0§7)"
    );
    let order = BazaarFlip {
        item_name: "Coal".to_string(),
        item_tag: None,
        amount: 64,
        price_per_unit: "2.5".to_string(),
        price_in_coins: 2,
        is_buy_order: false,
    };
    assert_eq!(
        announce_bazaar_flip(&order),
        "§f[§4BAF§f]: §6[BZ] §cSELL§7 order: §rCoal§r §7x64 @ §62§7 coins/unit"
    );
}
