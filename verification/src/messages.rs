//! What the chat messages of the server and of the flip service say.

use vstd::prelude::*;

use crate::coins::{coins_text, grouped, law_separators_come_out_again, lemma_grouped_chars};
use crate::text::{
    begins_with, chars_of, decimal, find_from, first_index, is_digit, is_space,
    is_whitespace, last_index, lemma_decimal_value, lemma_first_from, lemma_first_index_is,
    lemma_last_index_is, lemma_last_upto,
    lemma_word_end, occurs_at, occurs_in, parse_u64, parsed_u64, remove_commas, rfind, starts_with,
    text_between, trim, trimmed, without_commas, word_end,
};

verus! {

// ---- Sales and purchases ----

/// The price that `text` begins with: everything up to the first " coins", without commas and
/// without the white space around it, read as a number.
pub open spec fn price_before_coins(text: Seq<char>) -> Option<u64> {
    match first_index(text, " coins"@) {
        Some(i) => parsed_u64(trimmed(without_commas(text.take(i)))),
        None => None,
    }
}

/// `text` read as "<item> for <price> coins...", split at the last " for ".
pub open spec fn item_and_price(text: Seq<char>) -> Option<(Seq<char>, u64)> {
    match last_index(text, " for "@) {
        Some(i) => match price_before_coins(text.skip(i + " for "@.len())) {
            Some(price) => Some((text.take(i), price)),
            None => None,
        },
        None => None,
    }
}

/// `msg` read as "You purchased <item> for <price> coins...".
pub open spec fn purchased(msg: Seq<char>) -> Option<(Seq<char>, u64)> {
    if begins_with(msg, "You purchased "@) {
        item_and_price(msg.skip("You purchased "@.len() as int))
    } else {
        None
    }
}

/// `msg` read as "[Auction] <buyer> bought <item> for <price> coins...", where the buyer ends at
/// the first " bought ".
pub open spec fn sold(msg: Seq<char>) -> Option<(Seq<char>, Seq<char>, u64)> {
    if begins_with(msg, "[Auction] "@) {
        let after = msg.skip("[Auction] "@.len() as int);
        match first_index(after, " bought "@) {
            Some(i) => match item_and_price(after.skip(i + " bought "@.len())) {
                Some((item, price)) => Some((after.take(i), item, price)),
                None => None,
            },
            None => None,
        }
    } else {
        None
    }
}

/// The price that the characters of `t` from `from` on begin with.
fn parse_price_from(t: &Vec<char>, from: usize) -> (r: Option<u64>)
    requires
        from <= t@.len(),
    ensures
        r == price_before_coins(t@.skip(from as int)),
{
    let rest_text = text_between(t, from, t.len());
    let rest = chars_of(rest_text.as_str());
    proof {
        assert(rest@ =~= t@.skip(from as int));
    }
    let coins = chars_of(" coins");
    match find_from(&rest, &coins, 0) {
        Some(i) => {
            let amount = text_between(&rest, 0, i);
            proof {
                assert(amount@ =~= rest@.take(i as int));
            }
            let plain = remove_commas(amount.as_str());
            let bare = trim(plain.as_str());
            parse_u64(bare.as_str())
        },
        None => None,
    }
}

/// The item and the price in the characters of `t` from `from` on.
fn parse_item_and_price_from(t: &Vec<char>, from: usize) -> (r: Option<(String, u64)>)
    requires
        from <= t@.len(),
    ensures
        match r {
            Some((item, price)) => item_and_price(t@.skip(from as int)) == Some((item@, price)),
            None => item_and_price(t@.skip(from as int)) is None,
        },
{
    let rest_text = text_between(t, from, t.len());
    let rest = chars_of(rest_text.as_str());
    proof {
        assert(rest@ =~= t@.skip(from as int));
    }
    let sep = chars_of(" for ");
    match rfind(&rest, &sep) {
        Some(i) => {
            match parse_price_from(&rest, i + sep.len()) {
                Some(price) => {
                    let item = text_between(&rest, 0, i);
                    proof {
                        assert(item@ =~= rest@.take(i as int));
                    }
                    Some((item, price))
                },
                None => None,
            }
        },
        None => None,
    }
}

/// Parse "You purchased <item> for <price> coins!" into the item's name and the price.
pub fn parse_purchased_message(msg: &str) -> (r: Option<(String, u64)>)
    ensures
        match r {
            Some((item, price)) => purchased(msg@) == Some((item@, price)),
            None => purchased(msg@) is None,
        },
{
    if !starts_with(msg, "You purchased ") {
        return None;
    }
    let t = chars_of(msg);
    let prefix = chars_of("You purchased ");
    parse_item_and_price_from(&t, prefix.len())
}

/// Parse "[Auction] <buyer> bought <item> for <price> coins" into the buyer, the item's name and
/// the price.
pub fn parse_sold_message(msg: &str) -> (r: Option<(String, String, u64)>)
    ensures
        match r {
            Some((buyer, item, price)) => sold(msg@) == Some((buyer@, item@, price)),
            None => sold(msg@) is None,
        },
{
    if !starts_with(msg, "[Auction] ") {
        return None;
    }
    let t = chars_of(msg);
    let prefix = chars_of("[Auction] ");
    let after_text = text_between(&t, prefix.len(), t.len());
    let after = chars_of(after_text.as_str());
    proof {
        assert(after@ =~= msg@.skip(prefix@.len() as int));
    }
    let sep = chars_of(" bought ");
    match find_from(&after, &sep, 0) {
        Some(i) => {
            match parse_item_and_price_from(&after, i + sep.len()) {
                Some((item, price)) => {
                    let buyer = text_between(&after, 0, i);
                    proof {
                        assert(buyer@ =~= after@.take(i as int));
                    }
                    Some((buyer, item, price))
                },
                None => None,
            }
        },
        None => None,
    }
}

// ---- Auction identifiers ----

/// The word that follows the first "/viewauction " in `msg`, if it is not empty.
pub open spec fn viewauction_uuid(msg: Seq<char>) -> Option<Seq<char>> {
    match first_index(msg, "/viewauction "@) {
        Some(i) => {
            let rest = msg.skip(i + "/viewauction "@.len());
            if word_end(rest) == 0 {
                None
            } else {
                Some(rest.take(word_end(rest)))
            }
        },
        None => None,
    }
}

/// Extract the identifier from a message that may hold "/viewauction <identifier>".
pub fn extract_viewauction_uuid(msg: &str) -> (r: Option<String>)
    ensures
        match r {
            Some(uuid) => viewauction_uuid(msg@) == Some(uuid@),
            None => viewauction_uuid(msg@) is None,
        },
{
    let t = chars_of(msg);
    let command = chars_of("/viewauction ");
    match find_from(&t, &command, 0) {
        Some(i) => {
            let from: usize = i + command.len();
            let ghost rest = t@.skip(from as int);
            let mut to: usize = from;
            while to < t.len() && !is_whitespace(t[to])
                invariant
                    from <= to <= t@.len(),
                    rest == t@.skip(from as int),
                    word_end(rest) == (to - from) + word_end(t@.skip(to as int)),
                decreases t@.len() - to,
            {
                proof {
                    assert(t@.skip(to as int).skip(1) =~= t@.skip(to + 1));
                }
                to = to + 1;
            }
            if from == to {
                None
            } else {
                let uuid = text_between(&t, from, to);
                proof {
                    assert(uuid@ =~= rest.take(word_end(rest)));
                }
                Some(uuid)
            }
        },
        None => None,
    }
}

// ---- Messages of the flip service ----

/// `c` is a hexadecimal digit of either case.
pub open spec fn is_hex_digit(c: char) -> bool {
    '0' <= c <= '9' || 'a' <= c <= 'f' || 'A' <= c <= 'F'
}

/// How many hexadecimal digits `s` begins with.
pub open spec fn hex_run(s: Seq<char>) -> int
    decreases s.len(),
{
    if s.len() == 0 || !is_hex_digit(s[0]) {
        0
    } else {
        1 + hex_run(s.skip(1))
    }
}

/// The connection id that `msg` announces: the 32 hexadecimal digits after the first
/// "Your connection id is ", if exactly that many stand there.
pub open spec fn connection_id(msg: Seq<char>) -> Option<Seq<char>> {
    match first_index(msg, "Your connection id is "@) {
        Some(i) => {
            let rest = msg.skip(i + "Your connection id is "@.len());
            if hex_run(rest) == 32 {
                Some(rest.take(32))
            } else {
                None
            }
        },
        None => None,
    }
}

/// The connection id that `msg` announces.
pub fn parse_connection_id(msg: &str) -> (r: Option<String>)
    ensures
        match r {
            Some(id) => connection_id(msg@) == Some(id@),
            None => connection_id(msg@) is None,
        },
{
    let t = chars_of(msg);
    let intro = chars_of("Your connection id is ");
    match find_from(&t, &intro, 0) {
        Some(i) => {
            let from: usize = i + intro.len();
            let ghost rest = t@.skip(from as int);
            let mut to: usize = from;
            while to < t.len() && (('0' <= t[to] && t[to] <= '9') || ('a' <= t[to] && t[to] <= 'f')
                || ('A' <= t[to] && t[to] <= 'F'))
                invariant
                    from <= to <= t@.len(),
                    rest == t@.skip(from as int),
                    hex_run(rest) == (to - from) + hex_run(t@.skip(to as int)),
                decreases t@.len() - to,
            {
                proof {
                    assert(t@.skip(to as int).skip(1) =~= t@.skip(to + 1));
                }
                to = to + 1;
            }
            if to - from == 32 {
                let id = text_between(&t, from, to);
                proof {
                    assert(id@ =~= rest.take(32));
                }
                Some(id)
            } else {
                None
            }
        },
        None => None,
    }
}

/// How many characters `s` has before its first line break or backslash.
pub open spec fn line_run(s: Seq<char>) -> int
    decreases s.len(),
{
    if s.len() == 0 || s[0] == '\n' || s[0] == '\\' {
        0
    } else {
        1 + line_run(s.skip(1))
    }
}

/// The premium tier and its expiry in "You have <tier> until <expiry>": the tier reaches to the
/// first " until " after the first "You have ", the expiry to the end of the line; both are
/// trimmed and neither may be empty.
pub open spec fn premium(msg: Seq<char>) -> Option<(Seq<char>, Seq<char>)> {
    match first_index(msg, "You have "@) {
        Some(i) => {
            let rest = msg.skip(i + "You have "@.len());
            match first_index(rest, " until "@) {
                Some(k) => {
                    let tier = trimmed(rest.take(k));
                    let raw = rest.skip(k + " until "@.len());
                    let expires = trimmed(raw.take(line_run(raw)));
                    if tier.len() > 0 && expires.len() > 0 {
                        Some((tier, expires))
                    } else {
                        None
                    }
                },
                None => None,
            }
        },
        None => None,
    }
}

/// The premium tier and its expiry that `msg` announces.
pub fn parse_premium(msg: &str) -> (r: Option<(String, String)>)
    ensures
        match r {
            Some((tier, expires)) => premium(msg@) == Some((tier@, expires@)),
            None => premium(msg@) is None,
        },
{
    let t = chars_of(msg);
    let intro = chars_of("You have ");
    match find_from(&t, &intro, 0) {
        Some(i) => {
            let rest_text = text_between(&t, i + intro.len(), t.len());
            let rest = chars_of(rest_text.as_str());
            proof {
                assert(rest@ =~= msg@.skip(i + intro@.len()));
            }
            let sep = chars_of(" until ");
            match find_from(&rest, &sep, 0) {
                Some(k) => {
                    let tier_raw = text_between(&rest, 0, k);
                    proof {
                        assert(tier_raw@ =~= rest@.take(k as int));
                    }
                    let tier = trim(tier_raw.as_str());
                    let from: usize = k + sep.len();
                    let ghost raw = rest@.skip(from as int);
                    let mut to: usize = from;
                    while to < rest.len() && rest[to] != '\n' && rest[to] != '\\'
                        invariant
                            from <= to <= rest@.len(),
                            raw == rest@.skip(from as int),
                            line_run(raw) == (to - from) + line_run(rest@.skip(to as int)),
                        decreases rest@.len() - to,
                    {
                        proof {
                            assert(rest@.skip(to as int).skip(1) =~= rest@.skip(to + 1));
                        }
                        to = to + 1;
                    }
                    let expires_raw = text_between(&rest, from, to);
                    proof {
                        assert(expires_raw@ =~= raw.take(line_run(raw)));
                    }
                    let expires = trim(expires_raw.as_str());
                    if tier.as_str().is_empty() || expires.as_str().is_empty() {
                        None
                    } else {
                        Some((tier, expires))
                    }
                },
                None => None,
            }
        },
        None => None,
    }
}

// ---- Reading back what a message says ----

/// A price as the server writes it in chat: its digits with thousands separators.
pub open spec fn price_text(price: u64) -> Seq<char> {
    coins_text(price as int)
}

/// "<item> for <price> coins<tail>".
pub open spec fn item_and_price_text(item: Seq<char>, price: u64, tail: Seq<char>) -> Seq<char> {
    item + " for "@ + price_text(price) + (" coins"@ + tail)
}

/// "You purchased <item> for <price> coins<tail>".
pub open spec fn purchased_text(item: Seq<char>, price: u64, tail: Seq<char>) -> Seq<char> {
    "You purchased "@ + item_and_price_text(item, price, tail)
}

/// "[Auction] <buyer> bought <item> for <price> coins<tail>".
pub open spec fn sold_text(
    buyer: Seq<char>,
    item: Seq<char>,
    price: u64,
    tail: Seq<char>,
) -> Seq<char> {
    "[Auction] "@ + (buyer + " bought "@ + item_and_price_text(item, price, tail))
}

/// Where a text stands, its characters stand.
proof fn lemma_occurrence_chars(text: Seq<char>, needle: Seq<char>, i: int, k: int)
    requires
        occurs_at(text, needle, i),
        0 <= k < needle.len(),
    ensures
        text[i + k] == needle[k],
{
    assert(text.subrange(i, i + needle.len())[k] == needle[k]);
}

/// `needle` stands first where it was put, when it does not stand earlier.
proof fn lemma_first_index_after(before: Seq<char>, needle: Seq<char>, after: Seq<char>)
    requires
        needle.len() > 0,
        !occurs_in(before + needle.drop_last(), needle),
    ensures
        first_index(before + needle + after, needle) == Some(before.len() as int),
{
    let text = before + needle + after;
    let at = before.len() as int;
    let head = before + needle.drop_last();
    assert(text.subrange(at, at + needle.len()) =~= needle);
    assert forall|j: int| 0 <= j < at implies !occurs_at(text, needle, j) by {
        if occurs_at(text, needle, j) {
            assert(head.subrange(j, j + needle.len()) =~= text.subrange(j, j + needle.len()));
            assert(occurs_at(head, needle, j));
        }
    }
    lemma_first_index_is(text, needle, at);
}

/// A text that neither begins nor ends with white space is trimmed already.
proof fn lemma_trimmed_already(s: Seq<char>)
    requires
        s.len() > 0 ==> !is_space(s[0]) && !is_space(s.last()),
    ensures
        trimmed(s) == s,
{
}

/// The last " for " in the text of an item and its price is the one before the price.
proof fn lemma_last_for(item: Seq<char>, amount: Seq<char>, end: Seq<char>)
    requires
        !occurs_in(end, " for "@),
        amount.len() > 0,
        forall|i: int| 0 <= i < amount.len() ==> #[trigger] amount[i] != ' ' && amount[i] != 'f',
    ensures
        last_index(item + " for "@ + amount + end, " for "@) == Some(item.len() as int),
{
    reveal_strlit(" for ");
    let sep = " for "@;
    let text = item + sep + amount + end;
    let at = item.len() as int;
    let body = at + 5;
    assert(text.subrange(at, at + 5) =~= sep);
    assert(occurs_at(text, sep, at));
    assert forall|j: int| at < j implies !occurs_at(text, sep, j) by {
        if occurs_at(text, sep, j) {
            lemma_occurrence_chars(text, sep, j, 0);
            lemma_occurrence_chars(text, sep, j, 1);
            if j < body {
                assert(text[j] == sep[j - at]);
                if j == at + 4 {
                    assert(text[j + 1] == amount[0]);
                }
            } else if j < body + amount.len() {
                assert(text[j] == amount[j - body]);
            } else {
                let m = j - body - amount.len();
                assert(end.subrange(m, m + 5) =~= text.subrange(j, j + 5));
                assert(occurs_at(end, sep, m));
            }
        }
    }
    lemma_last_index_is(text, sep, at);
}

/// The price before " coins" is read back.
proof fn lemma_price_is_read_back(price: u64, tail: Seq<char>)
    ensures
        price_before_coins(price_text(price) + (" coins"@ + tail)) == Some(price),
{
    reveal_strlit(" coins");
    let digits = decimal(price as nat);
    let amount = grouped(digits);
    lemma_decimal_value(price as nat);
    lemma_grouped_chars(digits);
    let rest = amount + (" coins"@ + tail);
    assert(rest.subrange(amount.len() as int, amount.len() as int + 6) =~= " coins"@);
    assert forall|j: int| 0 <= j < amount.len() implies !occurs_at(rest, " coins"@, j) by {
        if occurs_at(rest, " coins"@, j) {
            lemma_occurrence_chars(rest, " coins"@, j, 0);
            assert(rest[j] == amount[j]);
        }
    }
    lemma_first_index_is(rest, " coins"@, amount.len() as int);
    assert(rest.take(amount.len() as int) =~= amount);
    law_separators_come_out_again(digits);
    assert(is_digit(digits[0]));
    assert(is_digit(digits.last()));
    lemma_trimmed_already(digits);
}

/// The item and the price of a sale are read back as they were written.
proof fn lemma_item_and_price_is_read_back(item: Seq<char>, price: u64, tail: Seq<char>)
    requires
        !occurs_in(" coins"@ + tail, " for "@),
    ensures
        item_and_price(item_and_price_text(item, price, tail)) == Some((item, price)),
{
    let digits = decimal(price as nat);
    let amount = grouped(digits);
    lemma_decimal_value(price as nat);
    lemma_grouped_chars(digits);
    let end = " coins"@ + tail;
    let text = item_and_price_text(item, price, tail);
    lemma_last_for(item, amount, end);
    lemma_price_is_read_back(price, tail);
    assert(" for "@.len() == 5) by {
        reveal_strlit(" for ");
    }
    assert(text.take(item.len() as int) =~= item);
    assert(text.skip(item.len() as int + 5) =~= amount + end);
}

/// A purchase message is read back: whatever the item is called and whatever it cost, the item
/// and the price come out as they went in. The end of the message may hold anything but another
/// " for ".
pub proof fn law_purchase_message_is_read_back(item: Seq<char>, price: u64, tail: Seq<char>)
    requires
        !occurs_in(" coins"@ + tail, " for "@),
    ensures
        purchased(purchased_text(item, price, tail)) == Some((item, price)),
{
    lemma_item_and_price_is_read_back(item, price, tail);
    let msg = purchased_text(item, price, tail);
    let prefix = "You purchased "@;
    assert(msg.subrange(0, prefix.len() as int) =~= prefix);
    assert(msg.skip(prefix.len() as int) =~= item_and_price_text(item, price, tail));
}

/// A sale message is read back: the buyer, the item and the price come out as they went in,
/// unless the buyer's name itself ends at an earlier " bought ".
pub proof fn law_sale_message_is_read_back(
    buyer: Seq<char>,
    item: Seq<char>,
    price: u64,
    tail: Seq<char>,
)
    requires
        !occurs_in(buyer + " bought"@, " bought "@),
        !occurs_in(" coins"@ + tail, " for "@),
    ensures
        sold(sold_text(buyer, item, price, tail)) == Some((buyer, item, price)),
{
    let prefix = "[Auction] "@;
    let sep = " bought "@;
    let sale = item_and_price_text(item, price, tail);
    let after = buyer + sep + sale;
    let msg = sold_text(buyer, item, price, tail);
    lemma_item_and_price_is_read_back(item, price, tail);
    assert(msg.subrange(0, prefix.len() as int) =~= prefix);
    assert(msg.skip(prefix.len() as int) =~= after);
    assert(sep.len() > 0 && sep.drop_last() =~= " bought"@) by {
        reveal_strlit(" bought ");
        reveal_strlit(" bought");
    }
    lemma_first_index_after(buyer, sep, sale);
    assert(after.skip(buyer.len() as int + sep.len()) =~= sale);
    assert(after.take(buyer.len() as int) =~= buyer);
}

/// The identifier after "/viewauction " is read back: a word that no earlier "/viewauction "
/// precedes comes out as it went in.
pub proof fn law_viewauction_uuid_is_read_back(
    before: Seq<char>,
    uuid: Seq<char>,
    after: Seq<char>,
)
    requires
        !occurs_in(before + "/viewauction"@, "/viewauction "@),
        uuid.len() > 0,
        forall|i: int| 0 <= i < uuid.len() ==> !is_space(#[trigger] uuid[i]),
        after.len() > 0 ==> is_space(after[0]),
    ensures
        viewauction_uuid(before + "/viewauction "@ + uuid + after) == Some(uuid),
{
    let command = "/viewauction "@;
    let at = before.len() as int;
    let msg = before + command + uuid + after;
    assert(command.len() > 0 && command.drop_last() =~= "/viewauction"@) by {
        reveal_strlit("/viewauction ");
        reveal_strlit("/viewauction");
    }
    assert(msg =~= before + command + (uuid + after));
    lemma_first_index_after(before, command, uuid + after);
    let rest = msg.skip(at + command.len());
    assert(rest =~= uuid + after);
    lemma_word_end(rest);
    let end = word_end(rest);
    if end < uuid.len() {
        assert(rest[end] == uuid[end]);
    } else if end > uuid.len() {
        assert(rest[uuid.len() as int] == after[0]);
    }
    assert(rest.take(end) =~= uuid);
}

/// Hexadecimal digits are counted to the first character that is none.
proof fn lemma_hex_run(s: Seq<char>, n: int)
    requires
        0 <= n <= s.len(),
        forall|i: int| 0 <= i < n ==> is_hex_digit(#[trigger] s[i]),
        n < s.len() ==> !is_hex_digit(s[n]),
    ensures
        hex_run(s) == n,
    decreases n,
{
    if n > 0 {
        let rest = s.skip(1);
        assert forall|i: int| 0 <= i < n - 1 implies is_hex_digit(#[trigger] rest[i]) by {
            assert(rest[i] == s[i + 1]);
        }
        assert(is_hex_digit(s[0]));
        lemma_hex_run(rest, n - 1);
    }
}

/// The connection id is read back: hexadecimal digits of either case that follow the first "Your
/// connection id is " and end there are the id exactly where they are thirty-two.
pub proof fn law_connection_id_is_read_back(before: Seq<char>, id: Seq<char>, after: Seq<char>)
    requires
        !occurs_in(before + "Your connection id is"@, "Your connection id is "@),
        forall|i: int|
            0 <= i < id.len() ==> {
                let c = #[trigger] id[i];
                '0' <= c <= '9' || 'a' <= c <= 'f' || 'A' <= c <= 'F'
            },
        after.len() > 0 ==> !('0' <= after[0] <= '9' || 'a' <= after[0] <= 'f' || 'A' <= after[0]
            <= 'F'),
    ensures
        connection_id(before + "Your connection id is "@ + id + after) == (if id.len() == 32 {
            Some(id)
        } else {
            None
        }),
{
    let words = "Your connection id is "@;
    let msg = before + words + id + after;
    assert(words.len() > 0 && words.drop_last() =~= "Your connection id is"@) by {
        reveal_strlit("Your connection id is ");
        reveal_strlit("Your connection id is");
    }
    assert(msg =~= before + words + (id + after));
    lemma_first_index_after(before, words, id + after);
    let rest = msg.skip(before.len() as int + words.len());
    assert(rest =~= id + after);
    lemma_hex_run(rest, id.len() as int);
    assert(rest.take(id.len() as int) =~= id);
}

/// A message without those words announces no connection, and one without "You have " and " until "
/// announces no premium tier.
pub proof fn law_other_messages_announce_nothing(msg: Seq<char>)
    ensures
        !occurs_in(msg, "Your connection id is "@) ==> connection_id(msg) is None,
        !occurs_in(msg, "You have "@) || !occurs_in(msg, " until "@) ==> premium(msg) is None,
        !occurs_in(msg, "/viewauction "@) ==> viewauction_uuid(msg) is None,
{
    lemma_first_from(msg, "Your connection id is "@, 0);
    lemma_first_from(msg, "You have "@, 0);
    lemma_first_from(msg, "/viewauction "@, 0);
    if let Some(i) = first_index(msg, "You have "@) {
        let rest = msg.skip(i + "You have "@.len());
        lemma_first_from(rest, " until "@, 0);
        if let Some(k) = first_index(rest, " until "@) {
            let at = i + "You have "@.len() + k;
            assert(msg.subrange(at, at + " until "@.len()) =~= rest.subrange(
                k,
                k + " until "@.len(),
            ));
            assert(occurs_at(msg, " until "@, at));
        }
    }
}

/// A line is counted to its first line break or backslash.
proof fn lemma_line_run(s: Seq<char>, n: int)
    requires
        0 <= n <= s.len(),
        forall|i: int| 0 <= i < n ==> #[trigger] s[i] != '\n' && s[i] != '\\',
        n < s.len() ==> s[n] == '\n' || s[n] == '\\',
    ensures
        line_run(s) == n,
    decreases n,
{
    if n > 0 {
        let rest = s.skip(1);
        assert forall|i: int| 0 <= i < n - 1 implies #[trigger] rest[i] != '\n' && rest[i]
            != '\\' by {
            assert(rest[i] == s[i + 1]);
        }
        assert(s[0] != '\n');
        lemma_line_run(rest, n - 1);
    }
}

/// The premium tier is read back: what stands between the first "You have " and the " until " behind
/// it is the tier, and the rest of the line is how long it runs.
pub proof fn law_premium_is_read_back(
    before: Seq<char>,
    tier: Seq<char>,
    expires: Seq<char>,
    after: Seq<char>,
)
    requires
        !occurs_in(before + "You have"@, "You have "@),
        !occurs_in(tier + " until"@, " until "@),
        tier.len() > 0 && !is_space(tier[0]) && !is_space(tier.last()),
        expires.len() > 0 && !is_space(expires[0]) && !is_space(expires.last()),
        forall|i: int|
            0 <= i < expires.len() ==> #[trigger] expires[i] != '\n' && expires[i] != '\\',
        after.len() > 0 ==> after[0] == '\n' || after[0] == '\\',
    ensures
        premium(before + "You have "@ + tier + " until "@ + expires + after) == Some(
            (tier, expires),
        ),
{
    let words = "You have "@;
    let sep = " until "@;
    let msg = before + words + tier + sep + expires + after;
    assert(words.len() > 0 && words.drop_last() =~= "You have"@) by {
        reveal_strlit("You have ");
        reveal_strlit("You have");
    }
    assert(sep.len() > 0 && sep.drop_last() =~= " until"@) by {
        reveal_strlit(" until ");
        reveal_strlit(" until");
    }
    let rest = tier + sep + (expires + after);
    assert(msg =~= before + words + rest);
    lemma_first_index_after(before, words, rest);
    assert(msg.skip(before.len() as int + words.len()) =~= rest);
    lemma_first_index_after(tier, sep, expires + after);
    assert(rest.take(tier.len() as int) =~= tier);
    let raw = rest.skip(tier.len() as int + sep.len());
    assert(raw =~= expires + after);
    lemma_line_run(raw, expires.len() as int);
    assert(raw.take(expires.len() as int) =~= expires);
    lemma_trimmed_already(tier);
    lemma_trimmed_already(expires);
}

/// Only the server's own words report a trade: a message that does not begin with them, or that names
/// no price in coins, reports none.
pub proof fn law_other_messages_report_no_trade(msg: Seq<char>)
    ensures
        !begins_with(msg, "You purchased "@) ==> purchased(msg) is None,
        !begins_with(msg, "[Auction] "@) ==> sold(msg) is None,
        !occurs_in(msg, " coins"@) || !occurs_in(msg, " for "@) ==> purchased(msg) is None
            && sold(msg) is None,
        !occurs_in(msg, " bought "@) ==> sold(msg) is None,
{
    let prefix = "You purchased "@;
    let lead = "[Auction] "@;
    if begins_with(msg, prefix) {
        lemma_nothing_without_words(msg, prefix.len() as int);
    }
    if begins_with(msg, lead) {
        let after = msg.skip(lead.len() as int);
        lemma_first_from(after, " bought "@, 0);
        if let Some(i) = first_index(after, " bought "@) {
            let from = lead.len() as int + i + " bought "@.len();
            assert(after.skip(i + " bought "@.len()) =~= msg.skip(from));
            lemma_nothing_without_words(msg, from);
            let at = lead.len() as int + i;
            assert(msg.subrange(at, at + " bought "@.len()) =~= after.subrange(
                i,
                i + " bought "@.len(),
            ));
            assert(occurs_at(msg, " bought "@, at));
        }
    }
}

/// No item and price are read where the words around them are missing.
proof fn lemma_nothing_without_words(msg: Seq<char>, from: int)
    requires
        0 <= from <= msg.len(),
    ensures
        !occurs_in(msg, " coins"@) || !occurs_in(msg, " for "@) ==> item_and_price(
            msg.skip(from),
        ) is None,
{
    let text = msg.skip(from);
    lemma_last_upto(text, " for "@, text.len() - " for "@.len());
    if let Some(i) = last_index(text, " for "@) {
        assert(msg.subrange(from + i, from + i + " for "@.len()) =~= text.subrange(
            i,
            i + " for "@.len(),
        ));
        assert(occurs_at(msg, " for "@, from + i));
        let rest = text.skip(i + " for "@.len());
        lemma_first_from(rest, " coins"@, 0);
        if let Some(k) = first_index(rest, " coins"@) {
            let at = from + i + " for "@.len() + k;
            assert(msg.subrange(at, at + " coins"@.len()) =~= rest.subrange(
                k,
                k + " coins"@.len(),
            ));
            assert(occurs_at(msg, " coins"@, at));
        }
    }
}

} // verus!
