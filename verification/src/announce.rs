//! What the bot prints about its trades, with color codes.

use vstd::prelude::*;

use crate::coins::{coins_text, format_coins};
use crate::flips::{as_signed, to_signed};
use crate::text::{decimal, lemma_occurs_through, occurs_at, occurs_in, plus, to_decimal};
use crate::types::{BazaarFlip, Flip, FlipView};

verus! {

/// A coin amount of 64 bits, read as a signed number.
pub open spec fn amount_text(amount: u64) -> Seq<char> {
    coins_text(as_signed(amount))
}

/// A coin amount of 64 bits, read as a signed number.
pub fn format_amount(amount: u64) -> (r: String)
    ensures
        r@ == amount_text(amount),
{
    format_coins(to_signed(amount))
}

/// A profit behind `label`, green unless it is a loss. Nothing where it is not known.
pub open spec fn profit_text(label: Seq<char>, profit: Option<i64>) -> Seq<char> {
    match profit {
        Some(p) => label + (if p >= 0 {
            "§a"@
        } else {
            "§c"@
        }) + coins_text(p as int) + "§r"@,
        None => Seq::empty(),
    }
}

/// A profit behind `label`.
fn format_profit(label: &str, profit: Option<i64>) -> (r: String)
    ensures
        r@ == profit_text(label@, profit),
{
    match profit {
        Some(p) => {
            let color = if p >= 0 {
                "§a"
            } else {
                "§c"
            };
            let amount = format_coins(p);
            plus(plus(plus(label.to_owned(), color), amount.as_str()), "§r")
        },
        None => String::new(),
    }
}

/// How fast something was bought. Nothing where it is not known.
pub open spec fn speed_text(buy_speed_ms: Option<u64>) -> Seq<char> {
    match buy_speed_ms {
        Some(ms) => " §7| Buy speed: §e"@ + decimal(ms as nat) + "ms§r"@,
        None => Seq::empty(),
    }
}

/// How fast something was bought.
fn format_speed(buy_speed_ms: Option<u64>) -> (r: String)
    ensures
        r@ == speed_text(buy_speed_ms),
{
    match buy_speed_ms {
        Some(ms) => {
            let digits = to_decimal(ms);
            plus(plus(" §7| Buy speed: §e".to_owned(), digits.as_str()), "ms§r")
        },
        None => String::new(),
    }
}

/// A purchase.
pub open spec fn purchase_text(
    name: Seq<char>,
    price: u64,
    profit: Option<i64>,
    buy_speed_ms: Option<u64>,
) -> Seq<char> {
    "§f[§4BAF§f]: §a✦ PURCHASED §r"@ + name + "§r §7for §6"@ + amount_text(price) + "§7 coins!"@
        + profit_text(" §7| Expected profit: "@, profit) + speed_text(buy_speed_ms)
}

/// Announce a purchase.
pub fn announce_purchase(
    name: &str,
    price: u64,
    profit: Option<i64>,
    buy_speed_ms: Option<u64>,
) -> (r: String)
    ensures
        r@ == purchase_text(name@, price, profit, buy_speed_ms),
{
    let amount = format_amount(price);
    let gain = format_profit(" §7| Expected profit: ", profit);
    let speed = format_speed(buy_speed_ms);
    let what = plus("§f[§4BAF§f]: §a✦ PURCHASED §r".to_owned(), name);
    let paid = plus(plus(plus(what, "§r §7for §6"), amount.as_str()), "§7 coins!");
    plus(plus(paid, gain.as_str()), speed.as_str())
}

/// A sale.
pub open spec fn sale_text(
    name: Seq<char>,
    buyer: Seq<char>,
    price: u64,
    profit: Option<i64>,
) -> Seq<char> {
    "§f[§4BAF§f]: §6⚡ SOLD §r"@ + name + " §7to §e"@ + buyer + "§7 for §6"@ + amount_text(price)
        + "§7 coins!"@ + profit_text(" §7| Profit: "@, profit)
}

/// Announce a sale.
pub fn announce_sale(name: &str, buyer: &str, price: u64, profit: Option<i64>) -> (r: String)
    ensures
        r@ == sale_text(name@, buyer@, price, profit),
{
    let amount = format_amount(price);
    let gain = format_profit(" §7| Profit: ", profit);
    let what = plus("§f[§4BAF§f]: §6⚡ SOLD §r".to_owned(), name);
    let whom = plus(plus(what, " §7to §e"), buyer);
    let paid = plus(plus(plus(whom, "§7 for §6"), amount.as_str()), "§7 coins!");
    plus(paid, gain.as_str())
}

/// The side of a bazaar order, in its color.
pub open spec fn side_text(is_buy_order: bool) -> Seq<char> {
    if is_buy_order {
        "§aBUY"@
    } else {
        "§cSELL"@
    }
}

/// The side of a bazaar order.
fn format_side(is_buy_order: bool) -> (r: &'static str)
    ensures
        r@ == side_text(is_buy_order),
{
    if is_buy_order {
        "§aBUY"
    } else {
        "§cSELL"
    }
}

/// A bazaar order that has been placed.
pub open spec fn order_placed_text(
    name: Seq<char>,
    amount: u64,
    price_in_coins: i64,
    is_buy_order: bool,
) -> Seq<char> {
    "§f[§4BAF§f]: §6[BZ] "@ + side_text(is_buy_order) + "§7 order placed: "@ + decimal(
        amount as nat,
    ) + "x "@ + name + " @ §6"@ + coins_text(price_in_coins as int) + "§7 coins/unit"@
}

/// Announce a bazaar order that has been placed. The price per unit is given in whole coins.
pub fn announce_order_placed(
    name: &str,
    amount: u64,
    price_in_coins: i64,
    is_buy_order: bool,
) -> (r: String)
    ensures
        r@ == order_placed_text(name@, amount, price_in_coins, is_buy_order),
{
    let count = to_decimal(amount);
    let price = format_coins(price_in_coins);
    let side = plus("§f[§4BAF§f]: §6[BZ] ".to_owned(), format_side(is_buy_order));
    let many = plus(plus(plus(side, "§7 order placed: "), count.as_str()), "x ");
    plus(plus(plus(plus(many, name), " @ §6"), price.as_str()), "§7 coins/unit")
}

/// An auction that has been put up.
pub open spec fn listed_text(name: Seq<char>, starting_bid: u64, duration_hours: u64) -> Seq<char> {
    "§f[§4BAF§f]: §a🏷️ BIN listed: §r"@ + name + " §7@ §6"@ + amount_text(starting_bid)
        + "§7 coins for §e"@ + decimal(duration_hours as nat) + "h"@
}

/// Announce an auction that has been put up.
pub fn announce_listed(name: &str, starting_bid: u64, duration_hours: u64) -> (r: String)
    ensures
        r@ == listed_text(name@, starting_bid, duration_hours),
{
    let bid = format_amount(starting_bid);
    let hours = to_decimal(duration_hours);
    let what = plus("§f[§4BAF§f]: §a🏷️ BIN listed: §r".to_owned(), name);
    let price = plus(plus(what, " §7@ §6"), bid.as_str());
    plus(plus(plus(price, "§7 coins for §e"), hours.as_str()), "h")
}

/// What a flip is hoped to gain, not less than nothing.
pub open spec fn hoped_gain(flip: FlipView) -> u64 {
    if flip.target >= flip.starting_bid {
        (flip.target - flip.starting_bid) as u64
    } else {
        0
    }
}

/// A flip that the bot tries to buy.
pub open spec fn flip_text(flip: FlipView) -> Seq<char> {
    "§f[§4BAF§f]: §eTrying to purchase flip: §r"@ + flip.item_name + "§r §7for §6"@ + amount_text(
        flip.starting_bid,
    ) + "§7 coins §7(Target: §6"@ + amount_text(flip.target) + "§7, Profit: §a"@ + amount_text(
        hoped_gain(flip),
    ) + "§7)"@
}

/// Announce a flip that the bot tries to buy.
pub fn announce_flip(flip: &Flip) -> (r: String)
    ensures
        r@ == flip_text(flip@),
{
    let gain: u64 = if flip.target >= flip.starting_bid {
        flip.target - flip.starting_bid
    } else {
        0
    };
    let bid = format_amount(flip.starting_bid);
    let target = format_amount(flip.target);
    let hoped = format_amount(gain);
    let what = plus(
        "§f[§4BAF§f]: §eTrying to purchase flip: §r".to_owned(),
        flip.item_name.as_str(),
    );
    let price = plus(plus(what, "§r §7for §6"), bid.as_str());
    let aim = plus(plus(price, "§7 coins §7(Target: §6"), target.as_str());
    plus(plus(plus(aim, "§7, Profit: §a"), hoped.as_str()), "§7)")
}

/// A bazaar order that the bot is about to place.
pub open spec fn bazaar_flip_text(
    name: Seq<char>,
    amount: u64,
    price_in_coins: i64,
    is_buy_order: bool,
) -> Seq<char> {
    "§f[§4BAF§f]: §6[BZ] "@ + side_text(is_buy_order) + "§7 order: §r"@ + name + "§r §7x"@
        + decimal(amount as nat) + " @ §6"@ + coins_text(price_in_coins as int) + "§7 coins/unit"@
}

/// Announce a bazaar order that the bot is about to place.
pub fn announce_bazaar_flip(flip: &BazaarFlip) -> (r: String)
    ensures
        r@ == bazaar_flip_text(
            flip.item_name@,
            flip.amount,
            flip.price_in_coins,
            flip.is_buy_order,
        ),
{
    let count = to_decimal(flip.amount);
    let price = format_coins(flip.price_in_coins);
    let side = plus("§f[§4BAF§f]: §6[BZ] ".to_owned(), format_side(flip.is_buy_order));
    let what = plus(plus(side, "§7 order: §r"), flip.item_name.as_str());
    let many = plus(plus(what, "§r §7x"), count.as_str());
    plus(plus(plus(many, " @ §6"), price.as_str()), "§7 coins/unit")
}

/// What stands between two texts stands in the whole.
proof fn lemma_stands_between(before: Seq<char>, part: Seq<char>, after: Seq<char>)
    ensures
        occurs_in(before + part + after, part),
{
    let text = before + part + after;
    assert(text.subrange(before.len() as int, before.len() as int + part.len()) =~= part);
    assert(occurs_at(text, part, before.len() as int));
}

/// A flip is announced with its item, its price, its target and what it is hoped to gain.
pub proof fn law_flip_is_named(flip: FlipView)
    ensures
        occurs_in(flip_text(flip), flip.item_name),
        occurs_in(flip_text(flip), amount_text(flip.starting_bid)),
        occurs_in(flip_text(flip), amount_text(flip.target)),
        occurs_in(
            flip_text(flip),
            amount_text(
                if flip.target >= flip.starting_bid {
                    (flip.target - flip.starting_bid) as u64
                } else {
                    0
                },
            ),
        ),
{
    let gain = amount_text(hoped_gain(flip));
    let bid = amount_text(flip.starting_bid);
    let target = amount_text(flip.target);
    let a = "§f[§4BAF§f]: §eTrying to purchase flip: §r"@;
    let b = "§r §7for §6"@;
    let c = "§7 coins §7(Target: §6"@;
    let d = "§7, Profit: §a"@;
    let e = "§7)"@;
    lemma_stands_between(a, flip.item_name, b + bid + c + target + d + gain + e);
    assert(flip_text(flip) =~= a + flip.item_name + (b + bid + c + target + d + gain + e));
    lemma_stands_between(a + flip.item_name + b, bid, c + target + d + gain + e);
    assert(flip_text(flip) =~= (a + flip.item_name + b) + bid + (c + target + d + gain + e));
    lemma_stands_between(a + flip.item_name + b + bid + c, target, d + gain + e);
    assert(flip_text(flip) =~= (a + flip.item_name + b + bid + c) + target + (d + gain + e));
    lemma_stands_between(a + flip.item_name + b + bid + c + target + d, gain, e);
    assert(flip_text(flip) =~= (a + flip.item_name + b + bid + c + target + d) + gain + e);
}

/// A bazaar order is announced with its side, its item, its amount and its price.
pub proof fn law_bazaar_flip_is_named(
    name: Seq<char>,
    amount: u64,
    price_in_coins: i64,
    is_buy_order: bool,
)
    ensures
        ({
            let text = bazaar_flip_text(name, amount, price_in_coins, is_buy_order);
            &&& occurs_in(text, name)
            &&& occurs_in(text, decimal(amount as nat))
            &&& occurs_in(text, coins_text(price_in_coins as int))
            &&& occurs_in(
                text,
                if is_buy_order {
                    "BUY"@
                } else {
                    "SELL"@
                },
            )
        }),
{
    let text = bazaar_flip_text(name, amount, price_in_coins, is_buy_order);
    let side = side_text(is_buy_order);
    let a = "§f[§4BAF§f]: §6[BZ] "@;
    let b = "§7 order: §r"@;
    let c = "§r §7x"@;
    let d = " @ §6"@;
    let e = "§7 coins/unit"@;
    let count = decimal(amount as nat);
    let price = coins_text(price_in_coins as int);
    lemma_side_is_named(is_buy_order);
    lemma_stands_between(a, side, b + name + c + count + d + price + e);
    assert(text =~= a + side + (b + name + c + count + d + price + e));
    lemma_occurs_through(
        text,
        side,
        if is_buy_order {
            "BUY"@
        } else {
            "SELL"@
        },
    );
    lemma_stands_between(a + side + b, name, c + count + d + price + e);
    assert(text =~= (a + side + b) + name + (c + count + d + price + e));
    lemma_stands_between(a + side + b + name + c, count, d + price + e);
    assert(text =~= (a + side + b + name + c) + count + (d + price + e));
    lemma_stands_between(a + side + b + name + c + count + d, price, e);
    assert(text =~= (a + side + b + name + c + count + d) + price + e);
}

/// The side of an order is told by its word.
proof fn lemma_side_is_named(is_buy_order: bool)
    ensures
        occurs_in(
            side_text(is_buy_order),
            if is_buy_order {
                "BUY"@
            } else {
                "SELL"@
            },
        ),
{
    reveal_strlit("§aBUY");
    reveal_strlit("§cSELL");
    reveal_strlit("BUY");
    reveal_strlit("SELL");
    assert("§aBUY"@.subrange(2, 5) =~= "BUY"@);
    assert("§cSELL"@.subrange(2, 6) =~= "SELL"@);
    assert(occurs_at("§aBUY"@, "BUY"@, 2));
    assert(occurs_at("§cSELL"@, "SELL"@, 2));
}

/// An order that has been placed is announced with its side, its item, its amount and its price.
pub proof fn law_placed_order_is_named(
    name: Seq<char>,
    amount: u64,
    price_in_coins: i64,
    is_buy_order: bool,
)
    ensures
        ({
            let text = order_placed_text(name, amount, price_in_coins, is_buy_order);
            &&& occurs_in(text, name)
            &&& occurs_in(text, decimal(amount as nat))
            &&& occurs_in(text, coins_text(price_in_coins as int))
            &&& occurs_in(
                text,
                if is_buy_order {
                    "BUY"@
                } else {
                    "SELL"@
                },
            )
        }),
{
    let text = order_placed_text(name, amount, price_in_coins, is_buy_order);
    let side = side_text(is_buy_order);
    let a = "§f[§4BAF§f]: §6[BZ] "@;
    let b = "§7 order placed: "@;
    let c = "x "@;
    let d = " @ §6"@;
    let e = "§7 coins/unit"@;
    let count = decimal(amount as nat);
    let price = coins_text(price_in_coins as int);
    lemma_side_is_named(is_buy_order);
    lemma_stands_between(a, side, b + count + c + name + d + price + e);
    assert(text =~= a + side + (b + count + c + name + d + price + e));
    lemma_occurs_through(
        text,
        side,
        if is_buy_order {
            "BUY"@
        } else {
            "SELL"@
        },
    );
    lemma_stands_between(a + side + b, count, c + name + d + price + e);
    assert(text =~= (a + side + b) + count + (c + name + d + price + e));
    lemma_stands_between(a + side + b + count + c, name, d + price + e);
    assert(text =~= (a + side + b + count + c) + name + (d + price + e));
    lemma_stands_between(a + side + b + count + c + name + d, price, e);
    assert(text =~= (a + side + b + count + c + name + d) + price + e);
}

/// A purchase is announced with its item, its price and, where they are known, what it is expected
/// to gain, green unless it is a loss, and how fast it was.
pub proof fn law_purchase_is_named(
    name: Seq<char>,
    price: u64,
    profit: Option<i64>,
    buy_speed_ms: Option<u64>,
)
    ensures
        ({
            let text = purchase_text(name, price, profit, buy_speed_ms);
            &&& occurs_in(text, name)
            &&& occurs_in(text, amount_text(price))
            &&& profit matches Some(p) ==> occurs_in(
                text,
                (if p >= 0 {
                    "§a"@
                } else {
                    "§c"@
                }) + coins_text(p as int),
            )
            &&& buy_speed_ms matches Some(ms) ==> occurs_in(text, decimal(ms as nat) + "ms"@)
        }),
{
    let text = purchase_text(name, price, profit, buy_speed_ms);
    let a = "§f[§4BAF§f]: §a✦ PURCHASED §r"@;
    let b = "§r §7for §6"@;
    let c = "§7 coins!"@;
    let label = " §7| Expected profit: "@;
    let amount = amount_text(price);
    let gain = profit_text(label, profit);
    let speed = speed_text(buy_speed_ms);
    lemma_stands_between(a, name, b + amount + c + gain + speed);
    assert(text =~= a + name + (b + amount + c + gain + speed));
    lemma_stands_between(a + name + b, amount, c + gain + speed);
    assert(text =~= (a + name + b) + amount + (c + gain + speed));
    let head = a + name + b + amount + c;
    if let Some(p) = profit {
        lemma_profit_is_told(label, p);
        let own = (if p >= 0 {
            "§a"@
        } else {
            "§c"@
        }) + coins_text(p as int);
        lemma_stands_between(head, gain, speed);
        lemma_occurs_through(text, gain, own);
    }
    if let Some(ms) = buy_speed_ms {
        lemma_speed_is_told(ms);
        lemma_stands_between(head + gain, speed, Seq::empty());
        assert(text =~= head + gain + speed + Seq::empty());
        lemma_occurs_through(text, speed, decimal(ms as nat) + "ms"@);
    }
}

/// A profit is told in its color.
proof fn lemma_profit_is_told(label: Seq<char>, p: i64)
    ensures
        occurs_in(
            profit_text(label, Some(p)),
            (if p >= 0 {
                "§a"@
            } else {
                "§c"@
            }) + coins_text(p as int),
        ),
{
    let own = (if p >= 0 {
        "§a"@
    } else {
        "§c"@
    }) + coins_text(p as int);
    lemma_stands_between(label, own, "§r"@);
    assert(profit_text(label, Some(p)) =~= label + own + "§r"@);
}

/// A speed is told in milliseconds.
proof fn lemma_speed_is_told(ms: u64)
    ensures
        occurs_in(speed_text(Some(ms)), decimal(ms as nat) + "ms"@),
{
    assert("ms§r"@ =~= "ms"@ + "§r"@) by {
        reveal_strlit("ms§r");
        reveal_strlit("ms");
        reveal_strlit("§r");
    }
    let own = decimal(ms as nat) + "ms"@;
    lemma_stands_between(" §7| Buy speed: §e"@, own, "§r"@);
    assert(speed_text(Some(ms)) =~= " §7| Buy speed: §e"@ + own + "§r"@);
}

/// A sale is announced with its item, its buyer, its price and, where it is known, what it has
/// gained, green unless it is a loss.
pub proof fn law_sale_is_named(name: Seq<char>, buyer: Seq<char>, price: u64, profit: Option<i64>)
    ensures
        ({
            let text = sale_text(name, buyer, price, profit);
            &&& occurs_in(text, name)
            &&& occurs_in(text, buyer)
            &&& occurs_in(text, amount_text(price))
            &&& profit matches Some(p) ==> occurs_in(
                text,
                (if p >= 0 {
                    "§a"@
                } else {
                    "§c"@
                }) + coins_text(p as int),
            )
        }),
{
    let text = sale_text(name, buyer, price, profit);
    let a = "§f[§4BAF§f]: §6⚡ SOLD §r"@;
    let b = " §7to §e"@;
    let c = "§7 for §6"@;
    let d = "§7 coins!"@;
    let label = " §7| Profit: "@;
    let amount = amount_text(price);
    let gain = profit_text(label, profit);
    lemma_stands_between(a, name, b + buyer + c + amount + d + gain);
    assert(text =~= a + name + (b + buyer + c + amount + d + gain));
    lemma_stands_between(a + name + b, buyer, c + amount + d + gain);
    assert(text =~= (a + name + b) + buyer + (c + amount + d + gain));
    lemma_stands_between(a + name + b + buyer + c, amount, d + gain);
    assert(text =~= (a + name + b + buyer + c) + amount + (d + gain));
    if let Some(p) = profit {
        let color = if p >= 0 {
            "§a"@
        } else {
            "§c"@
        };
        let own = color + coins_text(p as int);
        let before = a + name + b + buyer + c + amount + d + label;
        lemma_stands_between(before, own, "§r"@);
        assert(text =~= before + own + "§r"@);
    }
}

/// A listing is announced with its item, its starting bid and its duration in hours.
pub proof fn law_listing_is_named(name: Seq<char>, starting_bid: u64, duration_hours: u64)
    ensures
        ({
            let text = listed_text(name, starting_bid, duration_hours);
            &&& occurs_in(text, name)
            &&& occurs_in(text, amount_text(starting_bid))
            &&& occurs_in(text, decimal(duration_hours as nat) + "h"@)
        }),
{
    let text = listed_text(name, starting_bid, duration_hours);
    let a = "§f[§4BAF§f]: §a🏷️ BIN listed: §r"@;
    let b = " §7@ §6"@;
    let c = "§7 coins for §e"@;
    let bid = amount_text(starting_bid);
    let hours = decimal(duration_hours as nat) + "h"@;
    lemma_stands_between(a, name, b + bid + c + hours);
    assert(text =~= a + name + (b + bid + c + hours));
    lemma_stands_between(a + name + b, bid, c + hours);
    assert(text =~= (a + name + b) + bid + (c + hours));
    lemma_stands_between(a + name + b + bid + c, hours, Seq::empty());
    assert(text =~= (a + name + b + bid + c) + hours + Seq::empty());
}

/// An amount that the signed range holds is announced as it is.
pub proof fn law_amounts_are_announced_as_they_are(amount: u64)
    requires
        amount <= i64::MAX,
    ensures
        amount_text(amount) == coins_text(amount as int),
{
}

/// Nine parts, taken together in three ways.
proof fn lemma_nine_parts(
    a: Seq<char>,
    name: Seq<char>,
    b: Seq<char>,
    bid: Seq<char>,
    c: (Seq<char>, Seq<char>),
    target: Seq<char>,
    d: (Seq<char>, Seq<char>),
    gain: Seq<char>,
    e: Seq<char>,
)
    ensures
        ({
            let text = a + name + b + bid + (c.0 + c.1) + target + (d.0 + d.1) + gain + e;
            &&& occurs_in(text, name + b + bid)
            &&& occurs_in(text, c.1 + target)
            &&& occurs_in(text, d.1 + gain)
        }),
{
    let text = a + name + b + bid + (c.0 + c.1) + target + (d.0 + d.1) + gain + e;
    let rest = (c.0 + c.1) + target + (d.0 + d.1) + gain + e;
    lemma_stands_between(a, name + b + bid, rest);
    assert(text =~= a + (name + b + bid) + rest);
    let tail = (d.0 + d.1) + gain + e;
    lemma_stands_between(a + name + b + bid + c.0, c.1 + target, tail);
    assert(text =~= (a + name + b + bid + c.0) + (c.1 + target) + tail);
    let ahead = a + name + b + bid + (c.0 + c.1) + target + d.0;
    lemma_stands_between(ahead, d.1 + gain, e);
    assert(text =~= ahead + (d.1 + gain) + e);
}

/// Every amount is announced behind its own words: of a flip, what it costs, what it is to fetch and
/// what it is hoped to gain.
pub proof fn law_flip_amounts_are_told_apart(flip: FlipView)
    ensures
        occurs_in(flip_text(flip), flip.item_name + "§r §7for §6"@ + amount_text(flip.starting_bid)),
        occurs_in(flip_text(flip), "Target: §6"@ + amount_text(flip.target)),
        occurs_in(flip_text(flip), "Profit: §a"@ + amount_text(hoped_gain(flip))),
{
    assert("§7 coins §7(Target: §6"@ =~= "§7 coins §7("@ + "Target: §6"@) by {
        reveal_strlit("§7 coins §7(Target: §6");
        reveal_strlit("§7 coins §7(");
        reveal_strlit("Target: §6");
    }
    assert("§7, Profit: §a"@ =~= "§7, "@ + "Profit: §a"@) by {
        reveal_strlit("§7, Profit: §a");
        reveal_strlit("§7, ");
        reveal_strlit("Profit: §a");
    }
    lemma_nine_parts(
        "§f[§4BAF§f]: §eTrying to purchase flip: §r"@,
        flip.item_name,
        "§r §7for §6"@,
        amount_text(flip.starting_bid),
        ("§7 coins §7("@, "Target: §6"@),
        amount_text(flip.target),
        ("§7, "@, "Profit: §a"@),
        amount_text(hoped_gain(flip)),
        "§7)"@,
    );
}

/// Of an order, how many of what at which price, whether it is about to be placed or has been.
pub proof fn law_order_amounts_are_told_apart(
    name: Seq<char>,
    amount: u64,
    price_in_coins: i64,
    is_buy_order: bool,
)
    ensures
        occurs_in(
            bazaar_flip_text(name, amount, price_in_coins, is_buy_order),
            name + "§r §7x"@ + decimal(amount as nat) + " @ §6"@ + coins_text(price_in_coins as int),
        ),
        occurs_in(
            order_placed_text(name, amount, price_in_coins, is_buy_order),
            decimal(amount as nat) + "x "@ + name + " @ §6"@ + coins_text(price_in_coins as int),
        ),
{
    let side = side_text(is_buy_order);
    let count = decimal(amount as nat);
    let price = coins_text(price_in_coins as int);
    let e = "§7 coins/unit"@;
    lemma_eight_parts(
        "§f[§4BAF§f]: §6[BZ] "@,
        side,
        "§7 order: §r"@,
        name,
        "§r §7x"@,
        count,
        " @ §6"@,
        price,
        e,
    );
    lemma_eight_parts(
        "§f[§4BAF§f]: §6[BZ] "@,
        side,
        "§7 order placed: "@,
        count,
        "x "@,
        name,
        " @ §6"@,
        price,
        e,
    );
}

/// What stands between three parts and a last one stands in the whole.
proof fn lemma_eight_parts(
    a: Seq<char>,
    b: Seq<char>,
    c: Seq<char>,
    d: Seq<char>,
    e: Seq<char>,
    f: Seq<char>,
    g: Seq<char>,
    h: Seq<char>,
    last: Seq<char>,
)
    ensures
        occurs_in(a + b + c + d + e + f + g + h + last, d + e + f + g + h),
{
    lemma_stands_between(a + b + c, d + e + f + g + h, last);
    assert(a + b + c + d + e + f + g + h + last =~= (a + b + c) + (d + e + f + g + h) + last);
}

/// Of a purchase, what was bought and for how much.
pub proof fn law_purchase_price_is_told(
    name: Seq<char>,
    price: u64,
    profit: Option<i64>,
    buy_speed_ms: Option<u64>,
)
    ensures
        occurs_in(
            purchase_text(name, price, profit, buy_speed_ms),
            "PURCHASED §r"@ + name + "§r §7for §6"@ + amount_text(price),
        ),
{
    let head = "§f[§4BAF§f]: §a✦ "@;
    let word = "PURCHASED §r"@;
    assert("§f[§4BAF§f]: §a✦ PURCHASED §r"@ =~= head + word) by {
        reveal_strlit("§f[§4BAF§f]: §a✦ PURCHASED §r");
        reveal_strlit("§f[§4BAF§f]: §a✦ ");
        reveal_strlit("PURCHASED §r");
    }
    let bought = word + name + "§r §7for §6"@ + amount_text(price);
    let gain = profit_text(" §7| Expected profit: "@, profit);
    let speed = speed_text(buy_speed_ms);
    let rest = "§7 coins!"@ + gain + speed;
    lemma_stands_between(head, bought, rest);
    assert(purchase_text(name, price, profit, buy_speed_ms) =~= head + bought + rest);
}

/// Of a sale, what was sold to whom and for how much.
pub proof fn law_sale_price_is_told(
    name: Seq<char>,
    buyer: Seq<char>,
    price: u64,
    profit: Option<i64>,
)
    ensures
        occurs_in(
            sale_text(name, buyer, price, profit),
            "SOLD §r"@ + name + " §7to §e"@ + buyer + "§7 for §6"@ + amount_text(price),
        ),
{
    let head = "§f[§4BAF§f]: §6⚡ "@;
    let word = "SOLD §r"@;
    assert("§f[§4BAF§f]: §6⚡ SOLD §r"@ =~= head + word) by {
        reveal_strlit("§f[§4BAF§f]: §6⚡ SOLD §r");
        reveal_strlit("§f[§4BAF§f]: §6⚡ ");
        reveal_strlit("SOLD §r");
    }
    let sold = word + name + " §7to §e"@ + buyer + "§7 for §6"@ + amount_text(price);
    let tail = "§7 coins!"@ + profit_text(" §7| Profit: "@, profit);
    lemma_stands_between(head, sold, tail);
    assert(sale_text(name, buyer, price, profit) =~= head + sold + tail);
}

/// Of a listing, what was put up, for how much and for how long.
pub proof fn law_listing_price_is_told(name: Seq<char>, price: u64, duration_hours: u64)
    ensures
        occurs_in(
            listed_text(name, price, duration_hours),
            name + " §7@ §6"@ + amount_text(price) + "§7 coins for §e"@ + decimal(
                duration_hours as nat,
            ) + "h"@,
        ),
{
    let head = "§f[§4BAF§f]: §a🏷️ BIN listed: §r"@;
    let listed = name + " §7@ §6"@ + amount_text(price) + "§7 coins for §e"@ + decimal(
        duration_hours as nat,
    ) + "h"@;
    lemma_stands_between(head, listed, Seq::empty());
    lemma_parts_belong_together(
        head,
        name,
        " §7@ §6"@,
        amount_text(price),
        "§7 coins for §e"@,
        decimal(duration_hours as nat),
        "h"@,
    );
}

/// Parts that follow a text one by one follow it together.
proof fn lemma_parts_belong_together(
    head: Seq<char>,
    a: Seq<char>,
    b: Seq<char>,
    c: Seq<char>,
    d: Seq<char>,
    e: Seq<char>,
    f: Seq<char>,
)
    ensures
        head + a + b + c + d + e + f == head + (a + b + c + d + e + f) + Seq::<char>::empty(),
{
    assert(head + a + b + c + d + e + f =~= head + (a + b + c + d + e + f) + Seq::<char>::empty());
}

/// What a flip is hoped to gain and what it costs make up its target, where it is not a loss.
pub proof fn law_hoped_gain_makes_up_the_target(flip: FlipView)
    ensures
        flip.starting_bid <= flip.target ==> hoped_gain(flip) + flip.starting_bid == flip.target,
        flip.starting_bid > flip.target ==> hoped_gain(flip) == 0,
{
}

} // verus!
