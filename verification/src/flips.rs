//! The flips that are under way, and the profit they make.

use vstd::prelude::*;

use crate::coins::{ah_fee, calculate_ah_fee, law_fee_is_at_most_a_fortieth};
use crate::letters::{lowercase, to_lowercase};
use crate::text::{
    law_color_code_goes_out, law_plain_text_keeps_its_characters, remove_mc_colors, same_text,
    without_colors,
};
use crate::types::{Flip, FlipView};

verus! {

// ---- The tracker ----

/// A flip that is under way.
#[derive(Debug, PartialEq)]
pub struct FlipRecord {
    /// The item's name without color codes, in lower case.
    pub key: String,
    pub flip: Flip,
    /// What was paid for the item, 0 until it has been bought.
    pub buy_price: u64,
    /// When the item was bought, or the flip received, in nanoseconds of the process's clock.
    pub bought_at: u64,
    /// When the flip was received.
    pub received_at: u64,
}

/// A flip that is under way, as the contracts speak of it.
#[verifier::ext_equal]
pub struct RecordView {
    pub flip: FlipView,
    pub buy_price: u64,
    pub bought_at: u64,
    pub received_at: u64,
}

impl View for FlipRecord {
    type V = RecordView;

    open spec fn view(&self) -> RecordView {
        RecordView {
            flip: self.flip@,
            buy_price: self.buy_price,
            bought_at: self.bought_at,
            received_at: self.received_at,
        }
    }
}

/// The flips that are under way, by their key. A later flip of the same item replaces an earlier
/// one.
pub struct FlipTracker {
    pub records: Vec<FlipRecord>,
}

/// The records by their key.
pub open spec fn records_map(records: Seq<FlipRecord>) -> Map<Seq<char>, RecordView>
    decreases records.len(),
{
    if records.len() == 0 {
        Map::empty()
    } else {
        records_map(records.drop_last()).insert(records.last().key@, records.last()@)
    }
}

impl View for FlipTracker {
    type V = Map<Seq<char>, RecordView>;

    open spec fn view(&self) -> Map<Seq<char>, RecordView> {
        records_map(self.records@)
    }
}

/// What is kept under `key`, if anything is.
pub open spec fn lookup(map: Map<Seq<char>, RecordView>, key: Seq<char>) -> Option<RecordView> {
    if map.dom().contains(key) {
        Some(map[key])
    } else {
        None
    }
}

/// The key of an item: its name without color codes, in lower case.
pub open spec fn flip_key(item_name: Seq<char>) -> Seq<char> {
    lowercase(without_colors(item_name))
}

/// The key of an item.
fn make_key(item_name: &str) -> (r: String)
    ensures
        r@ == flip_key(item_name@),
{
    let clean = remove_mc_colors(item_name);
    to_lowercase(clean.as_str())
}

impl FlipRecord {
    /// A copy that says the same.
    fn copy(&self) -> (r: FlipRecord)
        ensures
            r@ == self@,
            r.key@ == self.key@,
    {
        FlipRecord {
            key: self.key.clone(),
            flip: self.flip.copy(),
            buy_price: self.buy_price,
            bought_at: self.bought_at,
            received_at: self.received_at,
        }
    }
}

/// What a record taken out says.
pub open spec fn record_view(record: Option<FlipRecord>) -> Option<RecordView> {
    match record {
        Some(record) => Some(record@),
        None => None,
    }
}

impl FlipTracker {
    /// Nothing is under way.
    pub fn new() -> (r: FlipTracker)
        ensures
            r@ == Map::<Seq<char>, RecordView>::empty(),
    {
        FlipTracker { records: Vec::new() }
    }

    /// Take out what is kept under `key`.
    pub fn take(&mut self, key: &str) -> (r: Option<FlipRecord>)
        ensures
            final(self)@ == old(self)@.remove(key@),
            record_view(r) == lookup(old(self)@, key@),
    {
        let ghost before = self.records@;
        let mut kept: Vec<FlipRecord> = Vec::new();
        let mut found: Option<FlipRecord> = None;
        let mut i: usize = 0;
        proof {
            assert(records_map(kept@) =~= records_map(before.take(0)).remove(key@));
        }
        while i < self.records.len()
            invariant
                i <= self.records@.len(),
                before == self.records@,
                records_map(kept@) == records_map(before.take(i as int)).remove(key@),
                record_view(found) == lookup(records_map(before.take(i as int)), key@),
            decreases self.records@.len() - i,
        {
            let record = self.records[i].copy();
            let ghost kept_before = kept@;
            proof {
                assert(before.take(i + 1).drop_last() =~= before.take(i as int));
                assert(before.take(i + 1).last() == before[i as int]);
            }
            if same_text(record.key.as_str(), key) {
                found = Some(record);
                proof {
                    assert(records_map(kept@) =~= records_map(before.take(i + 1)).remove(key@));
                }
            } else {
                kept.push(record);
                proof {
                    assert(kept@.drop_last() =~= kept_before);
                    assert(records_map(kept@) =~= records_map(before.take(i + 1)).remove(key@));
                }
            }
            i = i + 1;
        }
        proof {
            assert(before.take(before.len() as int) =~= before);
        }
        self.records = kept;
        found
    }

    /// Put a record in the place of what is kept under its key.
    pub fn put(&mut self, record: FlipRecord)
        ensures
            final(self)@ == old(self)@.insert(record.key@, record@),
    {
        let ghost before = self@;
        self.take(record.key.as_str());
        let ghost kept = self.records@;
        self.records.push(record);
        proof {
            assert(self.records@.drop_last() =~= kept);
            assert(self@ =~= before.insert(record.key@, record@));
        }
    }

    /// A flip has been received: it is under way from now on, not bought yet.
    pub fn flip_received(&mut self, flip: &Flip, now: u64)
        ensures
            final(self)@ == old(self)@.insert(
                flip_key(flip@.item_name),
                (RecordView { flip: flip@, buy_price: 0, bought_at: now, received_at: now }),
            ),
    {
        let key = make_key(flip.item_name.as_str());
        self.put(
            FlipRecord { key, flip: flip.copy(), buy_price: 0, bought_at: now, received_at: now },
        );
    }

    /// An item has been bought: if a flip of it is under way, what was paid and when is noted, and
    /// the flip is returned.
    pub fn item_purchased(&mut self, item_name: &str, price: u64, now: u64) -> (r: Option<Flip>)
        ensures
            match lookup(old(self)@, flip_key(item_name@)) {
                Some(record) => {
                    &&& final(self)@ == old(self)@.insert(
                        flip_key(item_name@),
                        (RecordView { buy_price: price, bought_at: now, ..record }),
                    )
                    &&& r matches Some(flip) && flip@ == record.flip
                },
                None => final(self)@ == old(self)@ && r is None,
            },
    {
        let key = make_key(item_name);
        let ghost before = self@;
        match self.take(key.as_str()) {
            Some(record) => {
                let flip = record.flip.copy();
                self.put(
                    FlipRecord {
                        key,
                        flip: record.flip,
                        buy_price: price,
                        bought_at: now,
                        received_at: record.received_at,
                    },
                );
                proof {
                    assert(self@ =~= before.insert(
                        flip_key(item_name@),
                        RecordView {
                            buy_price: price,
                            bought_at: now,
                            ..before[flip_key(item_name@)]
                        },
                    ));
                }
                Some(flip)
            },
            None => {
                proof {
                    assert(self@ =~= before);
                }
                None
            },
        }
    }

    /// An item has been sold: its flip is no longer under way, and is returned with what is known
    /// of it.
    pub fn item_sold(&mut self, item_name: &str) -> (r: Option<FlipRecord>)
        ensures
            final(self)@ == old(self)@.remove(flip_key(item_name@)),
            record_view(r) == lookup(old(self)@, flip_key(item_name@)),
    {
        let key = make_key(item_name);
        self.take(key.as_str())
    }
}

/// A flip is found again: an item that is bought after its flip was received, and then sold, comes
/// out with its flip, the price that was paid and the time at which it was bought, however the
/// server colors its name. After the sale it is forgotten. Flips of other items are not touched.
pub proof fn law_flip_is_followed_to_its_sale(
    before: Map<Seq<char>, RecordView>,
    flip: FlipView,
    bought_name: Seq<char>,
    sold_name: Seq<char>,
    price: u64,
    received_at: u64,
    bought_at: u64,
    other: Seq<char>,
)
    requires
        flip_key(bought_name) == flip_key(flip.item_name),
        flip_key(sold_name) == flip_key(flip.item_name),
        flip_key(other) != flip_key(flip.item_name),
    ensures
        ({
            let new = RecordView { flip, buy_price: 0, bought_at: received_at, received_at };
            let received = before.insert(flip_key(flip.item_name), new);
            let record = lookup(received, flip_key(bought_name));
            let paid = RecordView { buy_price: price, bought_at, ..new };
            let bought = received.insert(flip_key(bought_name), paid);
            let sold = bought.remove(flip_key(sold_name));
            &&& record == Some(new)
            &&& lookup(bought, flip_key(sold_name)) == Some(paid)
            &&& lookup(sold, flip_key(sold_name)) is None
            &&& lookup(sold, flip_key(other)) == lookup(before, flip_key(other))
        }),
{
}

// ---- Profit ----

/// The 64 bits of `n` read as a signed number.
pub open spec fn as_signed(n: u64) -> int {
    if n <= i64::MAX {
        n as int
    } else {
        n - 0x1_0000_0000_0000_0000
    }
}

/// The 64 bits of `n` read as a signed number.
pub fn to_signed(n: u64) -> (r: i64)
    ensures
        r == as_signed(n),
{
    let r: i64 = #[verifier::truncate] (n as i64);
    proof {
        assert(n <= 0x7fff_ffff_ffff_ffffu64 ==> n as i64 == n) by (bit_vector);
        assert(n > 0x7fff_ffff_ffff_ffffu64 ==> n as i64 == n - 0x1_0000_0000_0000_0000) by (bit_vector);
    }
    r
}

/// The profit of a sale at `gained` of what was bought at `paid`, after the auction-house fee.
pub open spec fn profit(gained: u64, paid: u64) -> int {
    as_signed(gained) - as_signed(paid) - ah_fee(gained as nat)
}

/// The profit can be computed: no difference leaves the signed 64-bit range.
pub open spec fn profit_fits(gained: u64, paid: u64) -> bool {
    &&& i64::MIN <= as_signed(gained) - as_signed(paid) <= i64::MAX
    &&& i64::MIN <= profit(gained, paid) <= i64::MAX
}

/// The profit of a sale at `gained` of what was bought at `paid`, after the auction-house fee.
pub fn calculate_profit(gained: u64, paid: u64) -> (r: i64)
    requires
        profit_fits(gained, paid),
    ensures
        r == profit(gained, paid),
{
    proof {
        law_fee_is_at_most_a_fortieth(gained as nat);
    }
    to_signed(gained) - to_signed(paid) - to_signed(calculate_ah_fee(gained))
}

/// Whether the profit can be computed.
pub fn can_calculate_profit(gained: u64, paid: u64) -> (r: bool)
    ensures
        r == profit_fits(gained, paid),
{
    proof {
        law_fee_is_at_most_a_fortieth(gained as nat);
    }
    let paid_signed: i64 = to_signed(paid);
    let fee: i64 = to_signed(calculate_ah_fee(gained));
    match to_signed(gained).checked_sub(paid_signed) {
        Some(difference) => difference.checked_sub(fee).is_some(),
        None => false,
    }
}

/// Real coin amounts can always be reckoned with: within the signed range the profit is the sale
/// without the fee less the purchase, and it grows with a lower purchase price.
pub proof fn law_profit_is_exact(gained: u64, paid: u64, less: u64)
    requires
        gained <= i64::MAX,
        paid <= i64::MAX,
        less <= paid,
    ensures
        profit_fits(gained, paid),
        profit(gained, paid) == gained - ah_fee(gained as nat) - paid,
        profit(gained, less) == profit(gained, paid) + (paid - less),
{
    law_fee_is_at_most_a_fortieth(gained as nat);
}

/// An item is followed under whatever colors its name is written: the colors make no difference.
pub proof fn law_colors_do_not_hide_an_item(
    before: Seq<char>,
    code: char,
    after: Seq<char>,
)
    requires
        !before.contains('§'),
        !after.contains('§'),
    ensures
        flip_key(before + seq!['§', code] + after) == flip_key(before + after),
{
    law_color_code_goes_out(before, code, after);
    law_plain_text_keeps_its_characters(after);
    let both = before + after;
    assert forall|i: int| 0 <= i < both.len() implies both[i] != '§' by {
        if i < before.len() {
            assert(before.contains(before[i]));
        } else {
            assert(after.contains(after[i - before.len()]));
        }
    }
    law_plain_text_keeps_its_characters(both);
}

/// Two names are of the same item exactly where they agree in lower case and without colors.
pub proof fn law_items_are_told_apart_by_their_names(a: Seq<char>, b: Seq<char>)
    ensures
        flip_key(a) == flip_key(b) <==> lowercase(without_colors(a)) == lowercase(without_colors(b)),
{
}

} // verus!
