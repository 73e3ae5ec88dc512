//! What comes of the windows and signs through which an item is put up for auction.

use vstd::prelude::*;

use crate::actions::{ActionView, AuctionStep, ClickType, WindowView};
use crate::client::{on_sign, ClientView};
use crate::commands::on_command;
use crate::flows::{is_like, lemma_after_all};
use crate::handling::{
    clicked, clicks_only, handled, hits, lemma_clicked_few, lemma_next_phase, lemma_waited_few, told,
};
use crate::inventory::{slots_json, MenuView};
use crate::items::{lore, slot_named, ItemView};
use crate::json::JsonView;
use crate::letters::{ascii_lowered, lemma_lines_are_lowered, lowercase, lowers_by_letter};
use crate::startup::waited;
use crate::text::{
    decimal, joined, law_text_in_joined_lines_is_in_a_line, lemma_occurs_through, occurs_at,
    occurs_in,
};
use crate::types::{BotState, CommandView, ListingView};
use crate::windows::{is_at_auction_limit, item_slot, on_window, PhaseView};

verus! {

/// The handling of a window while an item is put up: the bot waits for the slots and acts once.
proof fn lemma_two_phases(
    s: ClientView,
    window: WindowView,
    menus: spec_fn(nat) -> MenuView,
    times: spec_fn(nat) -> u64,
)
    requires
        s.bot_state is Selling,
    ensures
        ({
            let run = handled(s, window, menus, times, 2);
            let step = on_window(s, PhaseView::Selling, window, menus(1), times(1));
            &&& run.state == s.after_all(step.actions)
            &&& run.phase == step.next
            &&& clicked(run.actions) == clicked(step.actions)
            &&& waited(run.actions) == 300 + waited(step.actions)
        }),
{
    lemma_next_phase(s, window, menus, times, 0);
    lemma_next_phase(s, window, menus, times, 1);
    let first = on_window(s, PhaseView::Opened, window, menus(0), times(0));
    lemma_after_all(s, first.actions);
    lemma_clicked_few(first.actions);
    lemma_waited_few(first.actions);
    let step = on_window(s, PhaseView::Selling, window, menus(1), times(1));
    assert(clicked(Seq::<ActionView>::empty()) =~= Seq::empty());
    assert(Seq::empty() + clicked(step.actions) =~= clicked(step.actions));
    lemma_waited_few(first.actions);
}

/// In the window one slot is clicked, half a second after it has opened, and the listing goes on with
/// `next`.
pub open spec fn goes_on(
    s: ClientView,
    window: WindowView,
    menus: spec_fn(nat) -> MenuView,
    times: spec_fn(nat) -> u64,
    slot: int,
    next: AuctionStep,
) -> bool {
    let run = handled(s, window, menus, times, 2);
    &&& run.phase is Done
    &&& clicks_only(run.actions, window.id, slot)
    &&& waited(run.actions) == 500
    &&& is_like(run.state, ClientView { auction_step: next, ..s })
}

/// In the window nothing is clicked, and the listing is given up.
pub open spec fn gives_up(
    s: ClientView,
    window: WindowView,
    menus: spec_fn(nat) -> MenuView,
    times: spec_fn(nat) -> u64,
) -> bool {
    let run = handled(s, window, menus, times, 2);
    &&& run.phase is Done
    &&& clicked(run.actions).len() == 0
    &&& is_like(run.state, ClientView { bot_state: BotState::Idle, ..s })
}

/// In the window nothing is clicked, and nothing changes.
pub open spec fn stays(
    s: ClientView,
    window: WindowView,
    menus: spec_fn(nat) -> MenuView,
    times: spec_fn(nat) -> u64,
) -> bool {
    let run = handled(s, window, menus, times, 2);
    &&& run.phase is Done
    &&& clicked(run.actions).len() == 0
    &&& run.state == s
}

/// A listing begins at the auction house, by slot 15, and in no other window.
pub proof fn law_listing_begins_at_the_auction_house(
    s: ClientView,
    window: WindowView,
    menus: spec_fn(nat) -> MenuView,
    times: spec_fn(nat) -> u64,
)
    requires
        s.bot_state is Selling,
        s.auction_step is Initial,
    ensures
        if occurs_in(window.title, "Auction House"@) {
            goes_on(s, window, menus, times, 15, AuctionStep::OpenManage)
        } else {
            stays(s, window, menus, times)
        },
{
    lemma_two_phases(s, window, menus, times);
    let step = on_window(s, PhaseView::Selling, window, menus(1), times(1));
    lemma_after_all(s, step.actions);
    lemma_clicked_few(step.actions);
    lemma_waited_few(step.actions);
}

/// Among the auctions, the button for a new one is clicked, the first slot that shows its words. It
/// is given up where there is no such button, or where the button says that there can be no more.
pub proof fn law_new_auction_is_opened(
    s: ClientView,
    window: WindowView,
    menus: spec_fn(nat) -> MenuView,
    times: spec_fn(nat) -> u64,
)
    requires
        s.bot_state is Selling,
        s.auction_step is OpenManage,
        occurs_in(window.title, "Manage Auctions"@),
    ensures
        match slot_named(menus(1).slots, "Create Auction"@) {
            Some(slot) => if is_at_auction_limit(menus(1).slots[slot]) {
                gives_up(s, window, menus, times)
            } else {
                goes_on(s, window, menus, times, slot, AuctionStep::ClickCreate)
            },
            None => gives_up(s, window, menus, times),
        },
{
    lemma_two_phases(s, window, menus, times);
    let step = on_window(s, PhaseView::Selling, window, menus(1), times(1));
    lemma_after_all(s, step.actions);
    lemma_clicked_few(step.actions);
    lemma_waited_few(step.actions);
}

/// There can be no more auctions where any line of the button says "maximum" or "limit", in
/// whatever case, and only there.
pub proof fn law_limit_is_told_by_any_line(button: ItemView)
    requires
        lowers_by_letter(joined(lore(button), " "@)),
    ensures
        is_at_auction_limit(button) <==> exists|i: int|
            0 <= i < lore(button).len() && (occurs_in(
                ascii_lowered(#[trigger] lore(button)[i]),
                "maximum"@,
            ) || occurs_in(ascii_lowered(lore(button)[i]), "limit"@)),
{
    reveal_strlit(" ");
    reveal_strlit("maximum");
    reveal_strlit("limit");
    let lines = lore(button);
    let lowered = lines.map_values(|line: Seq<char>| ascii_lowered(line));
    lemma_lines_are_lowered(lines, " "@);
    law_text_in_joined_lines_is_in_a_line(lowered, " "@, "maximum"@);
    law_text_in_joined_lines_is_in_a_line(lowered, " "@, "limit"@);
    assert(forall|i: int| 0 <= i < lines.len() ==> #[trigger] lowered[i] == ascii_lowered(lines[i]));
    if exists|i: int| 0 <= i < lines.len() && (occurs_in(ascii_lowered(#[trigger] lines[i]), "maximum"@)
        || occurs_in(ascii_lowered(lines[i]), "limit"@)) {
        let i = choose|i: int|
            0 <= i < lines.len() && (occurs_in(ascii_lowered(#[trigger] lines[i]), "maximum"@)
                || occurs_in(ascii_lowered(lines[i]), "limit"@));
        assert(lowered[i] == ascii_lowered(lines[i]));
    }
}

/// Where the kind of auction is chosen, slot 48 chooses a fixed price.
pub proof fn law_fixed_price_is_chosen(
    s: ClientView,
    window: WindowView,
    menus: spec_fn(nat) -> MenuView,
    times: spec_fn(nat) -> u64,
)
    requires
        s.bot_state is Selling,
        s.auction_step is OpenManage || s.auction_step is ClickCreate,
        s.auction_step is OpenManage ==> !occurs_in(window.title, "Manage Auctions"@),
        occurs_in(window.title, "Create Auction"@),
        !occurs_in(window.title, "BIN"@),
    ensures
        goes_on(s, window, menus, times, 48, AuctionStep::SelectBIN),
{
    lemma_two_phases(s, window, menus, times);
    let step = on_window(s, PhaseView::Selling, window, menus(1), times(1));
    lemma_after_all(s, step.actions);
    lemma_clicked_few(step.actions);
    lemma_waited_few(step.actions);
}

/// The item is picked up from its slot and put on the price setter, slot 31, on the cursor as it was
/// taken. Where the item is not found, the listing is given up.
pub proof fn law_item_is_put_on_the_price_setter(
    s: ClientView,
    window: WindowView,
    menus: spec_fn(nat) -> MenuView,
    times: spec_fn(nat) -> u64,
)
    requires
        s.bot_state is Selling,
        s.auction_step is OpenManage || s.auction_step is ClickCreate || s.auction_step is SelectBIN,
        s.auction_step is OpenManage ==> !occurs_in(window.title, "Manage Auctions"@),
        occurs_in(window.title, "Create BIN Auction"@),
    ensures
        match item_slot(s, menus(1)) {
            Some(slot) => {
                let run = handled(s, window, menus, times, 2);
                let clicks = clicked(run.actions);
                &&& run.phase is Done
                &&& clicks.len() == 2
                &&& hits(clicks[0], window.id, slot)
                &&& clicks[1].container_id == window.id
                &&& clicks[1].slot_num == 31
                &&& clicks[1].button_num == 0
                &&& clicks[1].click_type == ClickType::Pickup
                &&& waited(run.actions) == 800
                &&& clicks[1].carried_from == Some(slot as usize)
                &&& is_like(run.state, ClientView { auction_step: AuctionStep::PriceSign, ..s })
            },
            None => gives_up(s, window, menus, times),
        },
{
    assert(occurs_in("Create BIN Auction"@, "BIN"@)) by {
        reveal_strlit("Create BIN Auction");
        reveal_strlit("BIN");
        assert("Create BIN Auction"@.subrange(7, 10) =~= "BIN"@);
        assert(occurs_at("Create BIN Auction"@, "BIN"@, 7));
    }
    lemma_occurs_through(window.title, "Create BIN Auction"@, "BIN"@);
    lemma_two_phases(s, window, menus, times);
    let step = on_window(s, PhaseView::Selling, window, menus(1), times(1));
    lemma_after_all(s, step.actions);
    lemma_clicked_few(step.actions);
    lemma_waited_few(step.actions);
}

/// The item is taken from where the uploaded inventory has it: the slot with the number `n` of the
/// inventory is the place in the menu that was uploaded under that number, and different numbers
/// are different places. Where there is no item in it, the first slot with the item's name is
/// taken.
pub proof fn law_item_is_where_it_was_uploaded(
    s: ClientView,
    other: ClientView,
    menu: MenuView,
    n: u64,
    m: u64,
)
    requires
        menu.well_formed(),
        menu.player_end - menu.player_start == 36,
        s.auction_item_slot == Some(n),
        other.auction_item_slot == Some(m),
        9 <= n <= 44,
        9 <= m <= 44,
    ensures
        ({
            let items = menu.player_items();
            let uploaded = slots_json(items)[n as int];
            if items[n - 9].empty {
                &&& uploaded is Null
                &&& item_slot(s, menu) == slot_named(menu.slots, s.auction_item_name)
            } else {
                &&& item_slot(s, menu) matches Some(at) && 0 <= at < menu.slots.len()
                    && menu.slots[at] == items[n - 9] && at == menu.player_start + (n - 9)
                &&& uploaded.get("slot"@) == Some(JsonView::Unsigned(n))
                &&& uploaded.get("name"@) == Some(
                    JsonView::Text(menu.slots[item_slot(s, menu)->Some_0].kind),
                )
            }
        }),
        n != m && !menu.player_items()[n - 9].empty && !menu.player_items()[m - 9].empty
            ==> item_slot(s, menu) != item_slot(other, menu),
{
    let items = menu.player_items();
    assert(items[n - 9] == menu.slots[menu.player_start + (n - 9)]);
    assert(items[m - 9] == menu.slots[menu.player_start + (m - 9)]);
    reveal_strlit("type");
    reveal_strlit("count");
    reveal_strlit("metadata");
    reveal_strlit("nbt");
    reveal_strlit("name");
    reveal_strlit("slot");
    reveal_with_fuel(crate::json::member_from, 7);
    if !items[n - 9].empty {
        let uploaded = slots_json(items)[n as int];
        let members = uploaded->Object_0;
        assert("type"@[0] != "slot"@[0] && "count"@[0] != "slot"@[0] && "metadata"@[0]
            != "slot"@[0] && "nbt"@[0] != "slot"@[0] && "name"@[0] != "slot"@[0]);
        assert("type"@[0] != "name"@[0] && "count"@[0] != "name"@[0] && "metadata"@[0]
            != "name"@[0] && "nbt"@.len() != "name"@.len());
    }
}

/// A listing without the number of a slot, or with one that the inventory does not have, is found
/// by the item's name.
pub proof fn law_item_is_found_by_its_name(s: ClientView, menu: MenuView)
    requires
        s.auction_item_slot matches Some(n) ==> n < 9 || n > 44,
    ensures
        item_slot(s, menu) == slot_named(menu.slots, s.auction_item_name),
{
}

/// The price of a listing: the sign that opens behind the price setter is written with the starting
/// bid, in its first line, and the duration comes next.
pub proof fn law_bid_is_written(s: ClientView)
    requires
        s.bot_state is Selling,
        s.auction_step is PriceSign,
    ensures
        on_sign(s).state == (ClientView { auction_step: AuctionStep::SetDuration, ..s }),
        on_sign(s).actions == seq![
            ActionView::WriteSign(
                seq![
                    decimal(s.auction_starting_bid as nat),
                    Seq::empty(),
                    Seq::empty(),
                    Seq::empty(),
                ],
            ),
        ],
{
}

/// The duration of a listing: slot 33 of the auction's window and slot 16 of the choice of the
/// duration lead to a sign, which is written with the hours, in its first line.
pub proof fn law_duration_is_written(
    s: ClientView,
    auction: WindowView,
    auction_menus: spec_fn(nat) -> MenuView,
    auction_times: spec_fn(nat) -> u64,
    choice: WindowView,
    choice_menus: spec_fn(nat) -> MenuView,
    choice_times: spec_fn(nat) -> u64,
)
    requires
        s.bot_state is Selling,
        s.auction_step is SetDuration,
        occurs_in(auction.title, "Create BIN Auction"@),
        occurs_in(choice.title, "Auction Duration"@),
    ensures
        goes_on(s, auction, auction_menus, auction_times, 33, AuctionStep::DurationSign),
        ({
            let s1 = handled(s, auction, auction_menus, auction_times, 2).state;
            let s2 = handled(s1, choice, choice_menus, choice_times, 2).state;
            &&& goes_on(s1, choice, choice_menus, choice_times, 16, AuctionStep::DurationSign)
            &&& on_sign(s2).state == (ClientView { auction_step: AuctionStep::ConfirmSell, ..s2 })
            &&& on_sign(s2).actions == seq![
                ActionView::WriteSign(
                    seq![
                        decimal(s.auction_duration_hours as nat),
                        Seq::empty(),
                        Seq::empty(),
                        Seq::empty(),
                    ],
                ),
            ]
        }),
{
    lemma_two_phases(s, auction, auction_menus, auction_times);
    let first = on_window(s, PhaseView::Selling, auction, auction_menus(1), auction_times(1));
    lemma_after_all(s, first.actions);
    lemma_clicked_few(first.actions);
    lemma_waited_few(first.actions);
    let s1 = handled(s, auction, auction_menus, auction_times, 2).state;
    lemma_two_phases(s1, choice, choice_menus, choice_times);
    let second = on_window(s1, PhaseView::Selling, choice, choice_menus(1), choice_times(1));
    lemma_after_all(s1, second.actions);
    lemma_clicked_few(second.actions);
    lemma_waited_few(second.actions);
}

/// A listing whose duration is written is put up by slot 29 of the auction's window and slot 11 of
/// the confirmation, and the bot is idle.
pub proof fn law_listing_is_confirmed(
    s: ClientView,
    auction: WindowView,
    auction_menus: spec_fn(nat) -> MenuView,
    auction_times: spec_fn(nat) -> u64,
    confirm: WindowView,
    confirm_menus: spec_fn(nat) -> MenuView,
    confirm_times: spec_fn(nat) -> u64,
)
    requires
        s.bot_state is Selling,
        s.auction_step is ConfirmSell,
        occurs_in(auction.title, "Create BIN Auction"@),
        occurs_in(confirm.title, "Confirm"@),
    ensures
        goes_on(s, auction, auction_menus, auction_times, 29, AuctionStep::FinalConfirm),
        ({
            let s1 = handled(s, auction, auction_menus, auction_times, 2).state;
            let run = handled(s1, confirm, confirm_menus, confirm_times, 2);
            &&& run.phase is Done
            &&& clicks_only(run.actions, confirm.id, 11)
            &&& waited(run.actions) == 1_000
            &&& is_like(run.state, ClientView { bot_state: BotState::Idle, ..s1 })
        }),
{
    lemma_two_phases(s, auction, auction_menus, auction_times);
    let first = on_window(s, PhaseView::Selling, auction, auction_menus(1), auction_times(1));
    lemma_after_all(s, first.actions);
    lemma_clicked_few(first.actions);
    lemma_waited_few(first.actions);
    let s1 = handled(s, auction, auction_menus, auction_times, 2).state;
    lemma_two_phases(s1, confirm, confirm_menus, confirm_times);
    let second = on_window(s1, PhaseView::Selling, confirm, confirm_menus(1), confirm_times(1));
    lemma_after_all(s1, second.actions);
    lemma_clicked_few(second.actions);
    lemma_waited_few(second.actions);
}

/// A window that the listing does not wait for is left alone.
pub proof fn law_other_windows_do_not_disturb_a_listing(
    s: ClientView,
    window: WindowView,
    menus: spec_fn(nat) -> MenuView,
    times: spec_fn(nat) -> u64,
)
    requires
        s.bot_state is Selling,
        match s.auction_step {
            AuctionStep::PriceSign => true,
            AuctionStep::SetDuration | AuctionStep::ConfirmSell | AuctionStep::SelectBIN => !occurs_in(
                window.title,
                "Create BIN Auction"@,
            ),
            AuctionStep::DurationSign => !occurs_in(window.title, "Auction Duration"@),
            AuctionStep::FinalConfirm => !occurs_in(window.title, "Confirm"@),
            AuctionStep::OpenManage => !occurs_in(window.title, "Manage Auctions"@) && !occurs_in(
                window.title,
                "Create BIN Auction"@,
            ) && (!occurs_in(window.title, "Create Auction"@) || occurs_in(window.title, "BIN"@)),
            AuctionStep::ClickCreate => !occurs_in(window.title, "Create BIN Auction"@) && (
            !occurs_in(window.title, "Create Auction"@) || occurs_in(window.title, "BIN"@)),
            AuctionStep::Initial => !occurs_in(window.title, "Auction House"@),
        },
    ensures
        stays(s, window, menus, times),
{
    lemma_two_phases(s, window, menus, times);
    let step = on_window(s, PhaseView::Selling, window, menus(1), times(1));
    lemma_after_all(s, step.actions);
    lemma_clicked_few(step.actions);
    lemma_waited_few(step.actions);
}

/// A listing begins in the auction house, with all that the command says.
pub proof fn law_listing_is_begun(s: ClientView, listing: ListingView, menu: MenuView)
    ensures
        ({
            let after = told(s, CommandView::SellToAuction(listing), menu);
            &&& on_command(s, CommandView::SellToAuction(listing), menu).actions == seq![
                ActionView::Chat("/ah"@),
            ]
            &&& after.bot_state is Selling
            &&& after.auction_step is Initial
            &&& after.auction_item_name == listing.item_name
            &&& after.auction_starting_bid == listing.starting_bid
            &&& after.auction_duration_hours == listing.duration_hours
            &&& after.auction_item_slot == listing.item_slot
            &&& after.auction_item_id == listing.item_id
        }),
{
}

/// Whether there can be no more auctions is told, of every text, by what its joined lines hold in
/// lower case.
pub proof fn law_limit_is_told_by_any_lowered_line(button: ItemView, lowered: Seq<Seq<char>>)
    requires
        joined(lowered, " "@) == lowercase(joined(lore(button), " "@)),
    ensures
        is_at_auction_limit(button) <==> exists|i: int|
            0 <= i < lowered.len() && (occurs_in(#[trigger] lowered[i], "maximum"@) || occurs_in(
                lowered[i],
                "limit"@,
            )),
{
    reveal_strlit(" ");
    reveal_strlit("maximum");
    reveal_strlit("limit");
    law_text_in_joined_lines_is_in_a_line(lowered, " "@, "maximum"@);
    law_text_in_joined_lines_is_in_a_line(lowered, " "@, "limit"@);
}

/// Whatever menu is open, the slots of the inventory stand in it one after another from the player's
/// first slot on, beginning with the number nine: the item is taken from there, unless the slot is
/// empty or the menu does not reach so far, and then from the first slot with its name.
pub proof fn law_inventory_slots_follow_each_other(s: ClientView, menu: MenuView, n: u64, i: int)
    requires
        9 <= n <= 44,
        s.auction_item_slot == Some(n),
        i == menu.player_start + n - 9,
    ensures
        i < menu.slots.len() && !menu.slots[i].empty ==> item_slot(s, menu) == Some(i),
        i >= menu.slots.len() || menu.slots[i].empty ==> item_slot(s, menu) == slot_named(
            menu.slots,
            s.auction_item_name,
        ),
{
}

} // verus!
