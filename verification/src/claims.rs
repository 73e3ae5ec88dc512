//! What comes of the windows through which auctions are bought and claimed.

use vstd::prelude::*;

use crate::actions::{ActionView, WindowView};
use crate::client::ClientView;
use crate::commands::on_command;
use crate::flows::{is_like, lemma_after_all};
use crate::handling::{
    clicked, clicks_only, handled, hits, lemma_clicked_few, lemma_next_phase, lemma_waited_few, told,
};
use crate::inventory::MenuView;
use crate::items::{
    display_name, is_claimable, lemma_first_where, lore, slot_named, ItemView,
};
use crate::letters::{ascii_lowered, lemma_lines_are_lowered, lowercase, lowers_by_letter};
use crate::text::{joined, law_text_in_joined_lines_is_in_a_line, occurs_at, occurs_in};
use crate::startup::waited;
use crate::types::{BotState, CommandView};
use crate::windows::{is_claim_all, is_sold, on_window, PhaseView};

verus! {

/// Some line of the description holds `word`, in whatever case the line is written.
pub open spec fn some_line_says(lines: Seq<Seq<char>>, word: Seq<char>) -> bool {
    exists|i: int| 0 <= i < lines.len() && occurs_in(ascii_lowered(#[trigger] lines[i]), word)
}

/// A word is found in the joined and lowered lines exactly where some line says it.
proof fn lemma_word_in_lines(lines: Seq<Seq<char>>, word: Seq<char>)
    requires
        lowers_by_letter(joined(lines, "\n"@)),
        word.len() > 0,
        !word.contains('\n'),
    ensures
        occurs_in(lowercase(joined(lines, "\n"@)), word) <==> some_line_says(lines, word),
{
    reveal_strlit("\n");
    let lowered = lines.map_values(|line: Seq<char>| ascii_lowered(line));
    lemma_lines_are_lowered(lines, "\n"@);
    law_text_in_joined_lines_is_in_a_line(lowered, "\n"@, word);
    assert(forall|i: int| 0 <= i < lines.len() ==> #[trigger] lowered[i] == ascii_lowered(lines[i]));
    if some_line_says(lines, word) {
        let i = choose|i: int|
            0 <= i < lines.len() && occurs_in(ascii_lowered(#[trigger] lines[i]), word);
        assert(occurs_in(lowered[i], word));
    }
}

/// An item counts as sold exactly where some line of its description says "status:" and some line
/// says "sold", whichever lines those are and in whatever case they are written.
pub proof fn law_sold_is_told_by_any_lines(item: ItemView)
    requires
        lowers_by_letter(joined(lore(item), "\n"@)),
    ensures
        is_sold(item) <==> some_line_says(lore(item), "status:"@) && some_line_says(
            lore(item),
            "sold"@,
        ),
{
    reveal_strlit("status:");
    reveal_strlit("sold");
    lemma_word_in_lines(lore(item), "status:"@);
    lemma_word_in_lines(lore(item), "sold"@);
}

/// The same holds of every text, ASCII or not, of the lines that it has in lower case.
pub proof fn law_sold_is_told_by_any_lowered_lines(item: ItemView, lowered: Seq<Seq<char>>)
    requires
        joined(lowered, "\n"@) == lowercase(joined(lore(item), "\n"@)),
    ensures
        is_sold(item) <==> (exists|i: int|
            0 <= i < lowered.len() && occurs_in(#[trigger] lowered[i], "status:"@)) && (exists|
            i: int,
        |
            0 <= i < lowered.len() && occurs_in(#[trigger] lowered[i], "sold"@)),
{
    reveal_strlit("\n");
    reveal_strlit("status:");
    reveal_strlit("sold");
    law_text_in_joined_lines_is_in_a_line(lowered, "\n"@, "status:"@);
    law_text_in_joined_lines_is_in_a_line(lowered, "\n"@, "sold"@);
}

/// Some line says that the auction is over.
pub open spec fn says_over(lines: Seq<Seq<char>>) -> bool {
    ||| some_line_says(lines, "sold!"@)
    ||| some_line_says(lines, "ended"@)
    ||| some_line_says(lines, "expired"@)
    ||| some_line_says(lines, "click to claim"@)
    ||| some_line_says(lines, "claim your"@)
}

/// Some line says that the auction still runs.
pub open spec fn says_running(lines: Seq<Seq<char>>) -> bool {
    ||| some_line_says(lines, "ends in"@)
    ||| some_line_says(lines, "buy it now"@)
    ||| some_line_says(lines, "starting bid"@)
}

/// An auction can be claimed exactly where some line says that it is over, and no line says that it
/// still runs, in whatever case they are written.
pub proof fn law_claimable_is_told_by_any_line(item: ItemView)
    requires
        lowers_by_letter(joined(lore(item), "\n"@)),
    ensures
        is_claimable(item) <==> says_over(lore(item)) && !says_running(lore(item)),
{
    reveal_strlit("sold!");
    reveal_strlit("ended");
    reveal_strlit("expired");
    reveal_strlit("click to claim");
    reveal_strlit("claim your");
    reveal_strlit("ends in");
    reveal_strlit("buy it now");
    reveal_strlit("starting bid");
    lemma_word_in_lines(lore(item), "sold!"@);
    lemma_word_in_lines(lore(item), "ended"@);
    lemma_word_in_lines(lore(item), "expired"@);
    lemma_word_in_lines(lore(item), "click to claim"@);
    lemma_word_in_lines(lore(item), "claim your"@);
    lemma_word_in_lines(lore(item), "ends in"@);
    lemma_word_in_lines(lore(item), "buy it now"@);
    lemma_word_in_lines(lore(item), "starting bid"@);
    if is_claimable(item) {
        assert(lore(item).len() > 0);
    }
}

/// Everything is claimed by a cauldron that shows a claim in its name, and by nothing else.
pub proof fn law_cauldron_claims_everything(item: ItemView)
    ensures
        is_claim_all(item) ==> occurs_in(lowercase(item.kind), "cauldron"@),
        display_name(item) matches Some(name) ==> (is_claim_all(item) <==> occurs_in(
            lowercase(item.kind),
            "cauldron"@,
        ) && occurs_in(lowercase(name), "claim"@)),
{
}

/// In the window only `slot` is clicked, and the state stays as it is but for `state`. It takes `ms`
/// milliseconds of waiting.
pub open spec fn clicks_and_is(
    s: ClientView,
    window: WindowView,
    menus: spec_fn(nat) -> MenuView,
    times: spec_fn(nat) -> u64,
    n: nat,
    slot: int,
    state: BotState,
    ms: nat,
) -> bool {
    let run = handled(s, window, menus, times, n);
    &&& run.phase is Done
    &&& clicks_only(run.actions, window.id, slot)
    &&& waited(run.actions) == ms
    &&& is_like(run.state, ClientView { bot_state: state, ..s })
}

/// In the window nothing is clicked, and the bot goes idle.
pub open spec fn finds_nothing(
    s: ClientView,
    window: WindowView,
    menus: spec_fn(nat) -> MenuView,
    times: spec_fn(nat) -> u64,
    n: nat,
) -> bool {
    let run = handled(s, window, menus, times, n);
    &&& run.phase is Done
    &&& clicked(run.actions).len() == 0
    &&& is_like(run.state, ClientView { bot_state: BotState::Idle, ..s })
}

/// The first phase of a window, spelled out.
proof fn lemma_first_phase(
    s: ClientView,
    window: WindowView,
    menus: spec_fn(nat) -> MenuView,
    times: spec_fn(nat) -> u64,
)
    ensures
        ({
            let run = handled(s, window, menus, times, 1);
            let step = on_window(s, PhaseView::Opened, window, menus(0), times(0));
            &&& run.state == s.after_all(step.actions)
            &&& run.phase == step.next
            &&& run.actions == step.actions
        }),
{
    lemma_next_phase(s, window, menus, times, 0);
    let step = on_window(s, PhaseView::Opened, window, menus(0), times(0));
    lemma_after_all(s, step.actions);
    lemma_clicked_few(step.actions);
    lemma_waited_few(step.actions);
    assert(Seq::empty() + step.actions =~= step.actions);
}

/// The second phase of a window whose first one only waits, spelled out.
proof fn lemma_second_phase(
    s: ClientView,
    window: WindowView,
    menus: spec_fn(nat) -> MenuView,
    times: spec_fn(nat) -> u64,
    ms: u64,
)
    requires
        on_window(s, PhaseView::Opened, window, menus(0), times(0)).actions == seq![
            ActionView::Wait(ms),
        ],
    ensures
        ({
            let run = handled(s, window, menus, times, 2);
            let phase = on_window(s, PhaseView::Opened, window, menus(0), times(0)).next;
            let step = on_window(s, phase, window, menus(1), times(1));
            &&& run.state == s.after_all(step.actions)
            &&& run.phase == step.next
            &&& clicked(run.actions) == clicked(step.actions)
            &&& waited(run.actions) == ms + waited(step.actions)
        }),
{
    lemma_first_phase(s, window, menus, times);
    lemma_next_phase(s, window, menus, times, 1);
    let first = on_window(s, PhaseView::Opened, window, menus(0), times(0));
    lemma_after_all(s, first.actions);
    lemma_clicked_few(first.actions);
    let step = on_window(s, first.next, window, menus(1), times(1));
    lemma_after_all(s, step.actions);
    lemma_clicked_few(step.actions);
    lemma_waited_few(step.actions);
    assert(Seq::empty() + clicked(step.actions) =~= clicked(step.actions));
    lemma_waited_few(first.actions);
}

// ---- What was bought ----

/// The claim of what was bought goes from the auction house, by slot 13, to the bids.
pub proof fn law_purchase_claim_goes_to_the_bids(
    s: ClientView,
    house: WindowView,
    menus: spec_fn(nat) -> MenuView,
    times: spec_fn(nat) -> u64,
    menu: MenuView,
)
    requires
        s.bot_state is ClaimingPurchased,
        occurs_in(house.title, "Auction House"@),
    ensures
        clicks_and_is(s, house, menus, times, 1, 13, BotState::ClaimingPurchased, 300),
        on_command(s, CommandView::ClaimPurchasedItem, menu).actions == seq![
            ActionView::Chat("/ah"@),
        ],
        told(s, CommandView::ClaimPurchasedItem, menu).bot_state is ClaimingPurchased,
        told(s, CommandView::ClaimPurchasedItem, menu).claiming_purchased,
{
    lemma_first_phase(s, house, menus, times);
    let step = on_window(s, PhaseView::Opened, house, menus(0), times(0));
    lemma_after_all(s, step.actions);
    lemma_clicked_few(step.actions);
    lemma_waited_few(step.actions);
}

/// Among the bids everything is claimed at once where there is a cauldron for that: the first one is
/// clicked, and the bot is done.
pub proof fn law_bids_are_claimed_at_once(
    s: ClientView,
    bids: WindowView,
    menus: spec_fn(nat) -> MenuView,
    times: spec_fn(nat) -> u64,
    slot: int,
)
    requires
        s.bot_state is ClaimingPurchased,
        occurs_in(bids.title, "Your Bids"@),
        !occurs_in(bids.title, "Auction House"@),
        0 <= slot < menus(1).slots.len(),
        is_claim_all(menus(1).slots[slot]),
        forall|i: int| 0 <= i < slot ==> !is_claim_all(#[trigger] menus(1).slots[i]),
    ensures
        clicks_and_is(s, bids, menus, times, 2, slot, BotState::Idle, 300),
{
    lemma_second_phase(s, bids, menus, times, 300);
    let slots = menus(1).slots;
    lemma_first_where(slots, |item: ItemView| is_claim_all(item), 0);
    let step = on_window(s, PhaseView::ClaimBids, bids, menus(1), times(1));
    lemma_after_all(s, step.actions);
    lemma_clicked_few(step.actions);
    lemma_waited_few(step.actions);
}

/// Among the bids without such a cauldron, the first item that was sold is opened, and the claim
/// goes on; only where there is no such item is there nothing to claim.
pub proof fn law_first_sold_bid_is_opened(
    s: ClientView,
    bids: WindowView,
    menus: spec_fn(nat) -> MenuView,
    times: spec_fn(nat) -> u64,
)
    requires
        s.bot_state is ClaimingPurchased,
        occurs_in(bids.title, "Your Bids"@),
        !occurs_in(bids.title, "Auction House"@),
        forall|i: int|
            0 <= i < menus(1).slots.len() ==> !is_claim_all(#[trigger] menus(1).slots[i]),
    ensures
        forall|slot: int|
            0 <= slot < menus(1).slots.len() && is_sold(#[trigger] menus(1).slots[slot]) && (forall|
                i: int,
            |
                0 <= i < slot ==> !is_sold(#[trigger] menus(1).slots[i])) ==> clicks_and_is(
                s,
                bids,
                menus,
                times,
                2,
                slot,
                BotState::ClaimingPurchased,
                300,
            ),
        (forall|i: int| 0 <= i < menus(1).slots.len() ==> !is_sold(#[trigger] menus(1).slots[i]))
            <==> finds_nothing(s, bids, menus, times, 2),
{
    lemma_second_phase(s, bids, menus, times, 300);
    let slots = menus(1).slots;
    lemma_first_where(slots, |item: ItemView| is_claim_all(item), 0);
    lemma_first_where(slots, |item: ItemView| is_sold(item), 0);
    let step = on_window(s, PhaseView::ClaimBids, bids, menus(1), times(1));
    lemma_after_all(s, step.actions);
    lemma_clicked_few(step.actions);
    lemma_waited_few(step.actions);
}

/// In the view of an auction that was bought, slot 31 collects the item, and the bot is done.
pub proof fn law_bought_item_is_collected(
    s: ClientView,
    view: WindowView,
    menus: spec_fn(nat) -> MenuView,
    times: spec_fn(nat) -> u64,
)
    requires
        s.bot_state is ClaimingPurchased,
        occurs_in(view.title, "Auction View"@),
        !occurs_in(view.title, "Auction House"@),
        !occurs_in(view.title, "Your Bids"@),
    ensures
        clicks_and_is(s, view, menus, times, 1, 31, BotState::Idle, 200),
{
    lemma_first_phase(s, view, menus, times);
    let step = on_window(s, PhaseView::Opened, view, menus(0), times(0));
    lemma_after_all(s, step.actions);
    lemma_clicked_few(step.actions);
    lemma_waited_few(step.actions);
}

// ---- What was sold ----

/// The claim of what was sold goes from the auction house to the auctions, by the first slot that
/// shows them, or ends there where none does.
pub proof fn law_sale_claim_goes_to_the_auctions(
    s: ClientView,
    house: WindowView,
    menus: spec_fn(nat) -> MenuView,
    times: spec_fn(nat) -> u64,
)
    requires
        s.bot_state is ClaimingSold,
        occurs_in(house.title, "Auction House"@),
    ensures
        match slot_named(menus(1).slots, "Manage Auctions"@) {
            Some(slot) => clicks_and_is(
                s,
                house,
                menus,
                times,
                2,
                slot,
                BotState::ClaimingSold,
                300,
            ),
            None => finds_nothing(s, house, menus, times, 2),
        },
{
    lemma_second_phase(s, house, menus, times, 300);
    let step = on_window(s, PhaseView::ClaimHouse, house, menus(1), times(1));
    lemma_after_all(s, step.actions);
    lemma_clicked_few(step.actions);
    lemma_waited_few(step.actions);
}

/// Among the auctions everything is claimed at once where a slot shows that, and the bot is done.
/// Otherwise the first auction that can be claimed is opened, and the claim goes on; only where
/// there is none is there nothing to claim.
pub proof fn law_auctions_are_claimed(
    s: ClientView,
    manage: WindowView,
    menus: spec_fn(nat) -> MenuView,
    times: spec_fn(nat) -> u64,
)
    requires
        s.bot_state is ClaimingSold,
        occurs_in(manage.title, "Manage Auctions"@),
        !occurs_in(manage.title, "Auction House"@),
    ensures
        slot_named(menus(1).slots, "Claim All"@) matches Some(slot) ==> clicks_and_is(
            s,
            manage,
            menus,
            times,
            2,
            slot,
            BotState::Idle,
            300,
        ),
        slot_named(menus(1).slots, "Claim All"@) is None ==> {
            &&& forall|slot: int|
                0 <= slot < menus(1).slots.len() && is_claimable(#[trigger] menus(1).slots[slot])
                    && (forall|i: int| 0 <= i < slot ==> !is_claimable(#[trigger] menus(1).slots[i]))
                    ==> clicks_and_is(s, manage, menus, times, 2, slot, BotState::ClaimingSold, 300)
            &&& (forall|i: int|
                0 <= i < menus(1).slots.len() ==> !is_claimable(#[trigger] menus(1).slots[i]))
                <==> finds_nothing(s, manage, menus, times, 2)
        },
{
    lemma_second_phase(s, manage, menus, times, 300);
    lemma_first_where(menus(1).slots, |item: ItemView| is_claimable(item), 0);
    let step = on_window(s, PhaseView::ClaimManage, manage, menus(1), times(1));
    lemma_after_all(s, step.actions);
    lemma_clicked_few(step.actions);
    lemma_waited_few(step.actions);
}

/// In the view of an auction that was sold, the first slot that shows a claim is clicked, or slot 31
/// where none does.
pub proof fn law_sold_auction_is_claimed(
    s: ClientView,
    view: WindowView,
    menus: spec_fn(nat) -> MenuView,
    times: spec_fn(nat) -> u64,
)
    requires
        s.bot_state is ClaimingSold,
        occurs_in(view.title, "Auction View"@),
        !occurs_in(view.title, "Auction House"@),
        !occurs_in(view.title, "Manage Auctions"@),
    ensures
        clicks_and_is(
            s,
            view,
            menus,
            times,
            2,
            match slot_named(menus(1).slots, "Claim"@) {
                Some(slot) => slot,
                None => 31,
            },
            BotState::ClaimingSold,
            200,
        ),
{
    lemma_second_phase(s, view, menus, times, 200);
    let step = on_window(s, PhaseView::ClaimView, view, menus(1), times(1));
    lemma_after_all(s, step.actions);
    lemma_clicked_few(step.actions);
    lemma_waited_few(step.actions);
}

/// A window that a claim does not wait for is left alone.
pub proof fn law_other_windows_do_not_disturb_a_claim(
    s: ClientView,
    window: WindowView,
    menus: spec_fn(nat) -> MenuView,
    times: spec_fn(nat) -> u64,
)
    requires
        s.bot_state is ClaimingPurchased && !occurs_in(window.title, "Your Bids"@)
            || s.bot_state is ClaimingSold && !occurs_in(window.title, "Manage Auctions"@),
        !occurs_in(window.title, "Auction House"@),
        !occurs_in(window.title, "Auction View"@),
    ensures
        ({
            let run = handled(s, window, menus, times, 1);
            run.phase is Done && run.actions.len() == 0 && run.state == s
        }),
{
    lemma_first_phase(s, window, menus, times);
    lemma_after_all(s, Seq::empty());
}

// ---- Buying ----

/// The view of an auction to buy leads to the purchase by slot 31. With the confirmation skipped it
/// is clicked twice, and then slot 11 of the window to come, whose id is the next one: 1 comes
/// after 100. Either way nothing else is done, and the purchase goes on.
pub proof fn law_auction_view_leads_to_the_purchase(
    s: ClientView,
    view: WindowView,
    menus: spec_fn(nat) -> MenuView,
    times: spec_fn(nat) -> u64,
)
    requires
        s.bot_state is Purchasing,
        occurs_in(view.title, "BIN Auction View"@),
        view.id < 255,
    ensures
        !s.confirm_skip ==> clicks_and_is(
            s,
            view,
            menus,
            times,
            1,
            31,
            BotState::Purchasing,
            0,
        ),
        s.confirm_skip ==> {
            let run = handled(s, view, menus, times, 1);
            let clicks = clicked(run.actions);
            &&& run.phase is Done
            &&& clicks.len() == 3
            &&& hits(clicks[0], view.id, 31)
            &&& hits(clicks[1], view.id, 31)
            &&& hits(
                clicks[2],
                if view.id == 100 {
                    1
                } else {
                    (view.id + 1) as u8
                },
                11,
            )
            &&& run.actions.len() == 3
            &&& is_like(run.state, s)
        },
{
    lemma_first_phase(s, view, menus, times);
    let step = on_window(s, PhaseView::Opened, view, menus(0), times(0));
    lemma_after_all(s, step.actions);
    lemma_clicked_few(step.actions);
    lemma_waited_few(step.actions);
}

/// The confirmation of a purchase is slot 11, and the bot is done.
pub proof fn law_purchase_is_confirmed(
    s: ClientView,
    confirm: WindowView,
    menus: spec_fn(nat) -> MenuView,
    times: spec_fn(nat) -> u64,
)
    requires
        s.bot_state is Purchasing,
        occurs_in(confirm.title, "Confirm Purchase"@),
        !occurs_in(confirm.title, "BIN Auction View"@),
    ensures
        clicks_and_is(s, confirm, menus, times, 1, 11, BotState::Idle, 0),
{
    lemma_first_phase(s, confirm, menus, times);
    let step = on_window(s, PhaseView::Opened, confirm, menus(0), times(0));
    lemma_after_all(s, step.actions);
    lemma_clicked_few(step.actions);
    lemma_waited_few(step.actions);
}

/// A window that a purchase does not wait for is left alone.
pub proof fn law_other_windows_do_not_disturb_a_purchase(
    s: ClientView,
    window: WindowView,
    menus: spec_fn(nat) -> MenuView,
    times: spec_fn(nat) -> u64,
)
    requires
        s.bot_state is Purchasing,
        !occurs_in(window.title, "BIN Auction View"@),
        !occurs_in(window.title, "Confirm Purchase"@),
    ensures
        ({
            let run = handled(s, window, menus, times, 1);
            run.phase is Done && run.actions.len() == 0 && run.state == s
        }),
{
    lemma_first_phase(s, window, menus, times);
    lemma_after_all(s, Seq::empty());
}

/// Whether an auction can be claimed is told, of every text, by the lines that it has in lower case.
pub proof fn law_claimable_is_told_by_any_lowered_line(item: ItemView, lowered: Seq<Seq<char>>)
    requires
        lore(item).len() > 0,
        joined(lowered, "\n"@) == lowercase(joined(lore(item), "\n"@)),
    ensures
        ({
            let says = |word: Seq<char>|
                exists|i: int| 0 <= i < lowered.len() && occurs_in(#[trigger] lowered[i], word);
            is_claimable(item) <==> (says("sold!"@) || says("ended"@) || says("expired"@) || says(
                "click to claim"@,
            ) || says("claim your"@)) && !says("ends in"@) && !says("buy it now"@) && !says(
                "starting bid"@,
            )
        }),
{
    reveal_strlit("\n");
    reveal_strlit("sold!");
    reveal_strlit("ended");
    reveal_strlit("expired");
    reveal_strlit("click to claim");
    reveal_strlit("claim your");
    reveal_strlit("ends in");
    reveal_strlit("buy it now");
    reveal_strlit("starting bid");
    law_text_in_joined_lines_is_in_a_line(lowered, "\n"@, "sold!"@);
    law_text_in_joined_lines_is_in_a_line(lowered, "\n"@, "ended"@);
    law_text_in_joined_lines_is_in_a_line(lowered, "\n"@, "expired"@);
    law_text_in_joined_lines_is_in_a_line(lowered, "\n"@, "click to claim"@);
    law_text_in_joined_lines_is_in_a_line(lowered, "\n"@, "claim your"@);
    law_text_in_joined_lines_is_in_a_line(lowered, "\n"@, "ends in"@);
    law_text_in_joined_lines_is_in_a_line(lowered, "\n"@, "buy it now"@);
    law_text_in_joined_lines_is_in_a_line(lowered, "\n"@, "starting bid"@);
}

/// An item without a description counts neither as sold nor as claimable.
pub proof fn law_item_without_description_is_not_claimed(item: ItemView)
    requires
        lore(item).len() == 0,
        lowercase(Seq::empty()) == Seq::<char>::empty(),
    ensures
        !is_sold(item),
        !is_claimable(item),
{
    reveal_strlit("sold");
    assert(joined(lore(item), "\n"@) =~= Seq::empty());
    if is_sold(item) {
        let i = choose|i: int| occurs_at(Seq::empty(), "sold"@, i);
        assert(occurs_at(Seq::empty(), "sold"@, i));
    }
}

} // verus!
