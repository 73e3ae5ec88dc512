//! What comes of a window from its opening until nothing more is to be done about it.

use vstd::prelude::*;

use crate::actions::{
    ActionView, BazaarStep, BotEventView, ClickType, ContainerClick,
    WindowView,
};
use crate::client::{on_sign, ClientView};
use crate::commands::on_command;
use crate::flows::{is_like, lemma_after_all};
use crate::inventory::MenuView;
use crate::items::slot_named;
use crate::letters::title_case;
use crate::startup::waited;
use crate::text::{decimal, occurs_in};
use crate::types::{BotState, CommandView, OrderView};
use crate::windows::{on_window, ContextView, PhaseView};

verus! {

// ---- Running through the phases ----

/// How far the handling of a window has come: the state by then, all that was done, and the phase
/// to go on with.
#[verifier::ext_equal]
pub struct Run {
    pub state: ClientView,
    pub actions: Seq<ActionView>,
    pub phase: PhaseView,
}

/// The handling of a window after `n` phases. The menu and the time since the window opened are
/// what they are when the phase with that number begins.
#[verifier::opaque]
pub open spec fn handled(
    s: ClientView,
    window: WindowView,
    menus: spec_fn(nat) -> MenuView,
    times: spec_fn(nat) -> u64,
    n: nat,
) -> Run
    decreases n,
{
    if n == 0 {
        Run { state: s, actions: Seq::empty(), phase: PhaseView::Opened }
    } else {
        let m = (n - 1) as nat;
        let before = handled(s, window, menus, times, m);
        let step = on_window(before.state, before.phase, window, menus(m), times(m));
        Run {
            state: before.state.after_all(step.actions),
            actions: before.actions + step.actions,
            phase: step.next,
        }
    }
}

/// The clicks among the actions.
pub open spec fn clicked(actions: Seq<ActionView>) -> Seq<ContainerClick>
    decreases actions.len(),
{
    if actions.len() == 0 {
        Seq::empty()
    } else {
        match actions.last() {
            ActionView::Click(c) => clicked(actions.drop_last()).push(c),
            _ => clicked(actions.drop_last()),
        }
    }
}

/// The click is a plain click on `slot` of the window `id`, with nothing on the cursor.
pub open spec fn hits(c: ContainerClick, id: u8, slot: int) -> bool {
    &&& c.container_id == id
    &&& c.slot_num == slot as i16
    &&& c.state_id == 0
    &&& c.button_num == 0
    &&& c.click_type == ClickType::Pickup
    &&& c.carried_from is None
}

/// Among the actions there is one click, and it goes to `slot` of the window `id`.
pub open spec fn clicks_only(actions: Seq<ActionView>, id: u8, slot: int) -> bool {
    clicked(actions).len() == 1 && hits(clicked(actions)[0], id, slot)
}

/// The clicks of two runs of actions come one after another.
pub proof fn lemma_clicked_concat(a: Seq<ActionView>, b: Seq<ActionView>)
    ensures
        clicked(a + b) == clicked(a) + clicked(b),
    decreases b.len(),
{
    if b.len() == 0 {
        assert(a + b =~= a);
        assert(clicked(a) + clicked(b) =~= clicked(a));
    } else {
        lemma_clicked_concat(a, b.drop_last());
        assert((a + b).drop_last() =~= a + b.drop_last());
        assert(clicked(a + b) =~= clicked(a) + clicked(b));
    }
}

/// The clicks of a few actions.
pub proof fn lemma_clicked_few(actions: Seq<ActionView>)
    ensures
        ({
            let own = |a: ActionView|
                match a {
                    ActionView::Click(c) => seq![c],
                    _ => Seq::<ContainerClick>::empty(),
                };
            &&& actions.len() == 0 ==> clicked(actions) == Seq::<ContainerClick>::empty()
            &&& actions.len() == 1 ==> clicked(actions) == own(actions[0])
            &&& actions.len() == 2 ==> clicked(actions) == own(actions[0]) + own(actions[1])
            &&& actions.len() == 3 ==> clicked(actions) == own(actions[0]) + own(actions[1]) + own(
                actions[2],
            )
            &&& actions.len() == 4 ==> clicked(actions) == own(actions[0]) + own(actions[1]) + own(
                actions[2],
            ) + own(actions[3])
            &&& actions.len() == 5 ==> clicked(actions) == own(actions[0]) + own(actions[1]) + own(
                actions[2],
            ) + own(actions[3]) + own(actions[4])
        }),
{
    let own = |a: ActionView|
        match a {
            ActionView::Click(c) => seq![c],
            _ => Seq::<ContainerClick>::empty(),
        };
    assert forall|k: int| 0 <= k <= actions.len() && k <= 5 implies #[trigger] clicked(
        actions.take(k),
    ) == (if k == 0 {
        Seq::<ContainerClick>::empty()
    } else {
        clicked(actions.take(k - 1)) + own(actions[k - 1])
    }) by {
        if k > 0 {
            assert(actions.take(k).drop_last() =~= actions.take(k - 1));
            assert(clicked(actions.take(k)) =~= clicked(actions.take(k - 1)) + own(actions[k - 1]));
        }
    }
    assert(actions.take(actions.len() as int) =~= actions);
    if actions.len() <= 5 {
        assert(clicked(actions.take(0)) =~= Seq::empty());
        if actions.len() >= 1 {
            assert(clicked(actions.take(1)) =~= own(actions[0]));
        }
        if actions.len() >= 2 {
            assert(clicked(actions.take(2)) == clicked(actions.take(1)) + own(actions[1]));
        }
        if actions.len() >= 3 {
            assert(clicked(actions.take(3)) == clicked(actions.take(2)) + own(actions[2]));
        }
        if actions.len() >= 4 {
            assert(clicked(actions.take(4)) == clicked(actions.take(3)) + own(actions[3]));
        }
        if actions.len() >= 5 {
            assert(clicked(actions.take(5)) == clicked(actions.take(4)) + own(actions[4]));
        }
    }
}

/// The waits of two runs of actions add up.
pub proof fn lemma_waited_concat(a: Seq<ActionView>, b: Seq<ActionView>)
    ensures
        waited(a + b) == waited(a) + waited(b),
    decreases b.len(),
{
    if b.len() == 0 {
        assert(a + b =~= a);
    } else {
        lemma_waited_concat(a, b.drop_last());
        assert((a + b).drop_last() =~= a + b.drop_last());
    }
}

/// The waits of a few actions.
pub proof fn lemma_waited_few(actions: Seq<ActionView>)
    ensures
        ({
            let own = |a: ActionView|
                match a {
                    ActionView::Wait(ms) => ms as nat,
                    _ => 0nat,
                };
            &&& actions.len() == 0 ==> waited(actions) == 0
            &&& actions.len() == 1 ==> waited(actions) == own(actions[0])
            &&& actions.len() == 2 ==> waited(actions) == own(actions[0]) + own(actions[1])
            &&& actions.len() == 3 ==> waited(actions) == own(actions[0]) + own(actions[1]) + own(
                actions[2],
            )
            &&& actions.len() == 4 ==> waited(actions) == own(actions[0]) + own(actions[1]) + own(
                actions[2],
            ) + own(actions[3])
            &&& actions.len() == 5 ==> waited(actions) == own(actions[0]) + own(actions[1]) + own(
                actions[2],
            ) + own(actions[3]) + own(actions[4])
        }),
{
    reveal_with_fuel(waited, 6);
}

/// One more phase of a run, with the clicks and the state spelled out.
pub proof fn lemma_next_phase(
    s: ClientView,
    window: WindowView,
    menus: spec_fn(nat) -> MenuView,
    times: spec_fn(nat) -> u64,
    n: nat,
)
    ensures
        ({
            let before = handled(s, window, menus, times, n);
            let step = on_window(before.state, before.phase, window, menus(n), times(n));
            let after = handled(s, window, menus, times, n + 1);
            &&& after.phase == step.next
            &&& after.actions == before.actions + step.actions
            &&& after.state == before.state.after_all(step.actions)
            &&& clicked(after.actions) == clicked(before.actions) + clicked(step.actions)
            &&& waited(after.actions) == waited(before.actions) + waited(step.actions)
        }),
        handled(s, window, menus, times, 0) == (Run {
            state: s,
            actions: Seq::empty(),
            phase: PhaseView::Opened,
        }),
{
    reveal_with_fuel(handled, 2);
    let before = handled(s, window, menus, times, n);
    let step = on_window(before.state, before.phase, window, menus(n), times(n));
    assert((n + 1 - 1) as nat == n);
    lemma_clicked_concat(before.actions, step.actions);
    lemma_waited_concat(before.actions, step.actions);
    lemma_clicked_few(step.actions);
    lemma_after_all(before.state, step.actions);
}

/// Nothing is done about a window any more once its handling is done.
pub proof fn law_done_is_done(
    s: ClientView,
    window: WindowView,
    menus: spec_fn(nat) -> MenuView,
    times: spec_fn(nat) -> u64,
    n: nat,
    later: nat,
)
    requires
        handled(s, window, menus, times, n).phase is Done,
        n <= later,
    ensures
        handled(s, window, menus, times, later) == handled(s, window, menus, times, n),
    decreases later,
{
    reveal_with_fuel(handled, 2);
    if n < later {
        law_done_is_done(s, window, menus, times, n, (later - 1) as nat);
        let before = handled(s, window, menus, times, (later - 1) as nat);
        lemma_after_all(before.state, Seq::empty());
        assert(before.actions + Seq::<ActionView>::empty() =~= before.actions);
    }
}

// ---- Bazaar orders ----

/// The screen shows neither an order button nor where to set an amount or a price.
pub open spec fn is_bare(menu: MenuView, button: Seq<char>) -> bool {
    &&& slot_named(menu.slots, button) is None
    &&& slot_named(menu.slots, "Custom Amount"@) is None
    &&& slot_named(menu.slots, "Custom Price"@) is None
}

/// The title is that of a list of items, not of the page of one.
pub open spec fn lists_items(title: Seq<char>) -> bool {
    occurs_in(title, "Bazaar"@) && !occurs_in(title, "➜"@)
}

/// The words on the button for an order of this side.
pub open spec fn button_words(is_buy_order: bool) -> Seq<char> {
    if is_buy_order {
        "Create Buy Order"@
    } else {
        "Create Sell Offer"@
    }
}

/// As long as the slots have not arrived and a second and a half have not passed, the bot waits for
/// the order button, and does nothing else.
proof fn lemma_button_is_awaited(
    s: ClientView,
    window: WindowView,
    menus: spec_fn(nat) -> MenuView,
    times: spec_fn(nat) -> u64,
    k: nat,
)
    requires
        s.bot_state is Bazaar,
        !(s.bazaar_step is SelectOrderType),
        !lists_items(window.title) || k <= 1,
        k >= 1,
        forall|j: nat|
            1 <= j < k ==> is_bare(#[trigger] menus(j), button_words(s.bazaar_is_buy_order))
                && times(j) < 1500,
    ensures
        ({
            let run = handled(s, window, menus, times, k);
            &&& run.state == s
            &&& waited(run.actions) == 50 * (k - 1)
            &&& clicked(run.actions).len() == 0
            &&& forall|i: int| 0 <= i < run.actions.len() ==> #[trigger] run.actions[i] is Wait
            &&& run.phase == PhaseView::BazaarButton(
                ContextView {
                    item_name: s.bazaar_item_name,
                    is_buy_order: s.bazaar_is_buy_order,
                    step: s.bazaar_step,
                },
            )
        }),
    decreases k,
{
    lemma_next_phase(s, window, menus, times, (k - 1) as nat);
    let before = handled(s, window, menus, times, (k - 1) as nat);
    if k > 1 {
        lemma_button_is_awaited(s, window, menus, times, (k - 1) as nat);
        assert(is_bare(menus((k - 1) as nat), button_words(s.bazaar_is_buy_order)));
    } else {
        assert(clicked(before.actions).len() == 0);
    }
    let step = on_window(
        before.state,
        before.phase,
        window,
        menus((k - 1) as nat),
        times((k - 1) as nat),
    );
    lemma_after_all(before.state, step.actions);
    lemma_clicked_few(step.actions);
    lemma_waited_few(step.actions);
}

/// The page of an item leads to the order: whatever the step was, from the search or from the
/// command itself, once the order button is there it is clicked, the first slot that shows its
/// words, and nothing else is; and the order goes on behind the button.
pub proof fn law_item_page_leads_to_the_order(
    s: ClientView,
    page: WindowView,
    menus: spec_fn(nat) -> MenuView,
    times: spec_fn(nat) -> u64,
    k: nat,
    slot: int,
)
    requires
        s.bot_state is Bazaar,
        !(s.bazaar_step is SelectOrderType),
        k >= 1,
        !lists_items(page.title) || k == 1,
        forall|j: nat|
            1 <= j < k ==> is_bare(#[trigger] menus(j), button_words(s.bazaar_is_buy_order))
                && times(j) < 1500,
        slot_named(menus(k).slots, button_words(s.bazaar_is_buy_order)) == Some(slot),
    ensures
        ({
            let run = handled(s, page, menus, times, k + 1);
            &&& run.phase is Done
            &&& clicks_only(run.actions, page.id, slot)
            &&& run.actions.last() is Click
            &&& waited(run.actions) == 50 * (k - 1) + 200
            &&& is_like(run.state, ClientView { bazaar_step: BazaarStep::SelectOrderType, ..s })
        }),
{
    lemma_button_is_awaited(s, page, menus, times, k);
    lemma_next_phase(s, page, menus, times, k);
    let before = handled(s, page, menus, times, k);
    let step = on_window(before.state, before.phase, page, menus(k), times(k));
    lemma_after_all(before.state, step.actions);
    lemma_clicked_few(step.actions);
    lemma_waited_few(step.actions);
}

/// A list of items leads to the item: it is looked for on the first list that opens after the
/// command, and the first slot that shows its name is clicked, and nothing else is.
pub proof fn law_list_leads_to_the_item(
    s: ClientView,
    list: WindowView,
    menus: spec_fn(nat) -> MenuView,
    times: spec_fn(nat) -> u64,
    k: nat,
    slot: int,
)
    requires
        s.bot_state is Bazaar,
        s.bazaar_step is Initial,
        lists_items(list.title),
        slot_named(menus(1).slots, button_words(s.bazaar_is_buy_order)) is None,
        k >= 2,
        forall|j: nat|
            2 <= j < k ==> slot_named((#[trigger] menus(j)).slots, s.bazaar_item_name) is None
                && times(j) < 1500,
        slot_named(menus(k).slots, s.bazaar_item_name) == Some(slot),
    ensures
        ({
            let run = handled(s, list, menus, times, k + 1);
            &&& run.phase is Done
            &&& clicks_only(run.actions, list.id, slot)
            &&& run.actions.last() is Click
            &&& waited(run.actions) == 50 * (k - 2) + 200
            &&& is_like(run.state, ClientView { bazaar_step: BazaarStep::SearchResults, ..s })
        }),
{
    lemma_item_is_awaited(s, list, menus, times, k);
    lemma_next_phase(s, list, menus, times, k);
    let before = handled(s, list, menus, times, k);
    let step = on_window(before.state, before.phase, list, menus(k), times(k));
    lemma_after_all(before.state, step.actions);
    lemma_clicked_few(step.actions);
    lemma_waited_few(step.actions);
}

/// An item that does not turn up on the list ends the order: after a second and a half the bot goes
/// idle, and has clicked nothing.
pub proof fn law_missing_item_ends_the_order(
    s: ClientView,
    list: WindowView,
    menus: spec_fn(nat) -> MenuView,
    times: spec_fn(nat) -> u64,
    k: nat,
)
    requires
        s.bot_state is Bazaar,
        s.bazaar_step is Initial,
        lists_items(list.title),
        slot_named(menus(1).slots, button_words(s.bazaar_is_buy_order)) is None,
        k >= 2,
        forall|j: nat|
            2 <= j <= k ==> slot_named((#[trigger] menus(j)).slots, s.bazaar_item_name) is None,
        forall|j: nat| 2 <= j < k ==> #[trigger] times(j) < 1500,
        times(k) >= 1500,
    ensures
        ({
            let run = handled(s, list, menus, times, k + 1);
            &&& run.phase is Done
            &&& clicked(run.actions).len() == 0
            &&& run.state.bot_state is Idle
        }),
{
    assert forall|j: nat| 2 <= j < k implies slot_named(
        (#[trigger] menus(j)).slots,
        s.bazaar_item_name,
    ) is None && times(j) < 1500 by {
        assert(times(j) < 1500);
    }
    lemma_item_is_awaited(s, list, menus, times, k);
    lemma_next_phase(s, list, menus, times, k);
    let before = handled(s, list, menus, times, k);
    assert(slot_named(menus(k).slots, s.bazaar_item_name) is None);
    let step = on_window(before.state, before.phase, list, menus(k), times(k));
    lemma_after_all(before.state, step.actions);
    lemma_clicked_few(step.actions);
    lemma_waited_few(step.actions);
}

/// As long as the item has not turned up and a second and a half have not passed, the bot waits for
/// it, and does nothing else.
proof fn lemma_item_is_awaited(
    s: ClientView,
    list: WindowView,
    menus: spec_fn(nat) -> MenuView,
    times: spec_fn(nat) -> u64,
    k: nat,
)
    requires
        s.bot_state is Bazaar,
        s.bazaar_step is Initial,
        lists_items(list.title),
        slot_named(menus(1).slots, button_words(s.bazaar_is_buy_order)) is None,
        k >= 2,
        forall|j: nat|
            2 <= j < k ==> slot_named((#[trigger] menus(j)).slots, s.bazaar_item_name) is None
                && times(j) < 1500,
    ensures
        ({
            let run = handled(s, list, menus, times, k);
            &&& run.state == (ClientView { bazaar_step: BazaarStep::SearchResults, ..s })
            &&& waited(run.actions) == 50 * (k - 2)
            &&& clicked(run.actions).len() == 0
            &&& run.phase == PhaseView::BazaarSearch(
                ContextView {
                    item_name: s.bazaar_item_name,
                    is_buy_order: s.bazaar_is_buy_order,
                    step: s.bazaar_step,
                },
            )
        }),
    decreases k,
{
    let m = (k - 1) as nat;
    if k == 2 {
        lemma_button_is_awaited(s, list, menus, times, 1);
    } else {
        lemma_item_is_awaited(s, list, menus, times, m);
        assert(slot_named(menus(m).slots, s.bazaar_item_name) is None);
    }
    lemma_next_phase(s, list, menus, times, m);
    let before = handled(s, list, menus, times, m);
    let step = on_window(before.state, before.phase, list, menus(m), times(m));
    lemma_after_all(before.state, step.actions);
    lemma_clicked_few(step.actions);
    lemma_waited_few(step.actions);
}

/// The amount of a buy order: behind the order button, where to set the amount is clicked, and the
/// sign that opens is written with the amount, in its first line.
pub proof fn law_amount_screen_takes_the_amount(
    s: ClientView,
    screen: WindowView,
    menus: spec_fn(nat) -> MenuView,
    times: spec_fn(nat) -> u64,
    slot: int,
)
    requires
        s.bot_state is Bazaar,
        s.bazaar_step is SelectOrderType,
        s.bazaar_is_buy_order,
        slot_named(menus(1).slots, "Custom Amount"@) == Some(slot),
    ensures
        ({
            let run = handled(s, screen, menus, times, 2);
            &&& run.phase is Done
            &&& clicks_only(run.actions, screen.id, slot)
            &&& waited(run.actions) == 200
            &&& is_like(run.state, ClientView { bazaar_step: BazaarStep::SetAmount, ..s })
            &&& on_sign(run.state).state == run.state
            &&& on_sign(run.state).actions == seq![
                ActionView::WriteSign(
                    seq![
                        decimal(s.bazaar_amount as nat),
                        Seq::empty(),
                        Seq::empty(),
                        Seq::empty(),
                    ],
                ),
            ]
        }),
{
    lemma_next_phase(s, screen, menus, times, 0);
    lemma_next_phase(s, screen, menus, times, 1);
    let first = on_window(s, PhaseView::Opened, screen, menus(0), times(0));
    lemma_after_all(s, first.actions);
    lemma_clicked_few(first.actions);
    lemma_waited_few(first.actions);
    let before = handled(s, screen, menus, times, 1);
    assert(clicked(Seq::<ActionView>::empty()) =~= Seq::empty());
    let step = on_window(before.state, before.phase, screen, menus(1), times(1));
    lemma_after_all(before.state, step.actions);
    lemma_clicked_few(step.actions);
    lemma_waited_few(step.actions);
}

/// The price of an order right behind the order button: a sell offer, or a buy order whose screen
/// asks for no amount. Where to set the price is clicked, and the sign that opens is written with
/// the price per unit, in its first line.
pub proof fn law_price_screen_takes_the_price(
    s: ClientView,
    screen: WindowView,
    menus: spec_fn(nat) -> MenuView,
    times: spec_fn(nat) -> u64,
    slot: int,
)
    requires
        s.bot_state is Bazaar,
        s.bazaar_step is SelectOrderType,
        !s.bazaar_is_buy_order || slot_named(menus(1).slots, "Custom Amount"@) is None,
        slot_named(menus(1).slots, "Custom Price"@) == Some(slot),
    ensures
        ({
            let run = handled(s, screen, menus, times, 2);
            &&& run.phase is Done
            &&& clicks_only(run.actions, screen.id, slot)
            &&& waited(run.actions) == 200
            &&& is_like(run.state, ClientView { bazaar_step: BazaarStep::SetPrice, ..s })
            &&& writes_price(run.state, s.bazaar_price_per_unit)
        }),
{
    lemma_next_phase(s, screen, menus, times, 0);
    lemma_next_phase(s, screen, menus, times, 1);
    let first = on_window(s, PhaseView::Opened, screen, menus(0), times(0));
    lemma_after_all(s, first.actions);
    lemma_clicked_few(first.actions);
    lemma_waited_few(first.actions);
    let before = handled(s, screen, menus, times, 1);
    assert(clicked(Seq::<ActionView>::empty()) =~= Seq::empty());
    let step = on_window(before.state, before.phase, screen, menus(1), times(1));
    lemma_after_all(before.state, step.actions);
    lemma_clicked_few(step.actions);
    lemma_waited_few(step.actions);
}

/// A sign that opens now is written with `price` in its first line, and changes nothing else.
pub open spec fn writes_price(s: ClientView, price: Seq<char>) -> bool {
    &&& on_sign(s).state == s
    &&& on_sign(s).actions == seq![
        ActionView::WriteSign(seq![price, Seq::empty(), Seq::empty(), Seq::empty()]),
    ]
}

/// There is no order button to wait for: the screen asks for an amount or a price, lists items, or
/// a second and a half have passed.
pub open spec fn is_past_the_button(
    menu: MenuView,
    title: Seq<char>,
    elapsed_ms: u64,
    button: Seq<char>,
) -> bool {
    &&& slot_named(menu.slots, button) is None
    &&& slot_named(menu.slots, "Custom Amount"@) is Some || slot_named(
        menu.slots,
        "Custom Price"@,
    ) is Some || lists_items(title) || elapsed_ms >= 1500
}

/// The price of a buy order whose amount has been written: once the screen is there, where to set
/// the price is clicked, and the sign that opens is written with the price per unit.
pub proof fn law_price_follows_the_amount(
    s: ClientView,
    screen: WindowView,
    menus: spec_fn(nat) -> MenuView,
    times: spec_fn(nat) -> u64,
    k: nat,
    slot: int,
)
    requires
        s.bot_state is Bazaar,
        s.bazaar_step is SetAmount,
        k >= 1,
        !lists_items(screen.title) || k == 1,
        forall|j: nat|
            1 <= j < k ==> is_bare(#[trigger] menus(j), button_words(s.bazaar_is_buy_order))
                && times(j) < 1500,
        is_past_the_button(
            menus(k),
            screen.title,
            times(k),
            button_words(s.bazaar_is_buy_order),
        ),
        slot_named(menus(k + 1).slots, "Custom Price"@) == Some(slot),
    ensures
        ({
            let run = handled(s, screen, menus, times, k + 2);
            &&& run.phase is Done
            &&& clicks_only(run.actions, screen.id, slot)
            &&& waited(run.actions) == 50 * (k - 1) + 200
            &&& is_like(run.state, ClientView { bazaar_step: BazaarStep::SetPrice, ..s })
            &&& writes_price(run.state, s.bazaar_price_per_unit)
        }),
{
    lemma_button_is_awaited(s, screen, menus, times, k);
    lemma_next_phase(s, screen, menus, times, k);
    let waited = handled(s, screen, menus, times, k);
    let first = on_window(waited.state, waited.phase, screen, menus(k), times(k));
    lemma_after_all(waited.state, first.actions);
    lemma_clicked_few(first.actions);
    lemma_waited_few(first.actions);
    lemma_next_phase(s, screen, menus, times, k + 1);
    let before = handled(s, screen, menus, times, k + 1);
    let step = on_window(before.state, before.phase, screen, menus(k + 1), times(k + 1));
    lemma_after_all(before.state, step.actions);
    lemma_clicked_few(step.actions);
    lemma_waited_few(step.actions);
}

/// The confirmation of an order is clicked, and waited for.
proof fn lemma_confirmation_is_clicked(
    s: ClientView,
    screen: WindowView,
    menus: spec_fn(nat) -> MenuView,
    times: spec_fn(nat) -> u64,
    k: nat,
)
    requires
        s.bot_state is Bazaar,
        s.bazaar_step is SetPrice,
        k >= 1,
        !lists_items(screen.title) || k == 1,
        forall|j: nat|
            1 <= j < k ==> is_bare(#[trigger] menus(j), button_words(s.bazaar_is_buy_order))
                && times(j) < 1500,
        is_past_the_button(
            menus(k),
            screen.title,
            times(k),
            button_words(s.bazaar_is_buy_order),
        ),
    ensures
        ({
            let run = handled(s, screen, menus, times, k + 2);
            &&& clicks_only(run.actions, screen.id, 13)
            &&& waited(run.actions) == 50 * (k - 1) + 700
            &&& is_like(run.state, ClientView { bazaar_step: BazaarStep::Confirm, ..s })
            &&& run.phase == PhaseView::BazaarPlaced(
                ContextView {
                    item_name: s.bazaar_item_name,
                    is_buy_order: s.bazaar_is_buy_order,
                    step: s.bazaar_step,
                },
            )
        }),
{
    lemma_button_is_awaited(s, screen, menus, times, k);
    lemma_next_phase(s, screen, menus, times, k);
    let waited_for = handled(s, screen, menus, times, k);
    let first = on_window(waited_for.state, waited_for.phase, screen, menus(k), times(k));
    lemma_after_all(waited_for.state, first.actions);
    lemma_clicked_few(first.actions);
    lemma_waited_few(first.actions);
    lemma_next_phase(s, screen, menus, times, k + 1);
    let shown = handled(s, screen, menus, times, k + 1);
    let second = on_window(shown.state, shown.phase, screen, menus(k + 1), times(k + 1));
    lemma_after_all(shown.state, second.actions);
    lemma_clicked_few(second.actions);
    lemma_waited_few(second.actions);
}

/// An order whose price has been written is confirmed by slot 13 and by nothing else, and only then
/// reported as placed, with the item, the amount, the price and the side that the bot was told; and
/// the bot is idle.
pub proof fn law_order_is_confirmed_and_reported(
    s: ClientView,
    screen: WindowView,
    menus: spec_fn(nat) -> MenuView,
    times: spec_fn(nat) -> u64,
    k: nat,
)
    requires
        s.bot_state is Bazaar,
        s.bazaar_step is SetPrice,
        k >= 1,
        !lists_items(screen.title) || k == 1,
        forall|j: nat|
            1 <= j < k ==> is_bare(#[trigger] menus(j), button_words(s.bazaar_is_buy_order))
                && times(j) < 1500,
        is_past_the_button(
            menus(k),
            screen.title,
            times(k),
            button_words(s.bazaar_is_buy_order),
        ),
    ensures
        ({
            let clicking = handled(s, screen, menus, times, k + 2);
            let run = handled(s, screen, menus, times, k + 3);
            &&& run.phase is Done
            &&& clicks_only(clicking.actions, screen.id, 13)
            &&& run.actions == clicking.actions + seq![
                ActionView::Emit(
                    BotEventView::BazaarOrderPlaced(
                        s.bazaar_item_name,
                        s.bazaar_amount,
                        s.bazaar_price_per_unit,
                        s.bazaar_is_buy_order,
                    ),
                ),
                ActionView::SetState(BotState::Idle),
            ]
            &&& clicks_only(run.actions, screen.id, 13)
            &&& waited(run.actions) == 50 * (k - 1) + 700
            &&& is_like(
                run.state,
                ClientView { bazaar_step: BazaarStep::Confirm, bot_state: BotState::Idle, ..s },
            )
        }),
{
    lemma_confirmation_is_clicked(s, screen, menus, times, k);
    lemma_next_phase(s, screen, menus, times, k + 2);
    let placed = handled(s, screen, menus, times, k + 2);
    let third = on_window(placed.state, placed.phase, screen, menus(k + 2), times(k + 2));
    lemma_after_all(placed.state, third.actions);
    lemma_clicked_few(third.actions);
    lemma_waited_few(third.actions);
}

/// The state in which a command leaves the bot.
pub open spec fn told(s: ClientView, command: CommandView, menu: MenuView) -> ClientView {
    on_command(s, command, menu).state
}

/// The command for an order of this side.
pub open spec fn order_of(order: OrderView, is_buy_order: bool) -> CommandView {
    if is_buy_order {
        CommandView::BazaarBuyOrder(order)
    } else {
        CommandView::BazaarSellOrder(order)
    }
}

/// An order is looked up by its tag, or else by the item's name in title case, and what it says is
/// what the bot goes by from then on.
pub proof fn law_order_is_looked_up(
    s: ClientView,
    order: OrderView,
    is_buy_order: bool,
    menu: MenuView,
)
    ensures
        ({
            let after = told(s, order_of(order, is_buy_order), menu);
            &&& on_command(s, order_of(order, is_buy_order), menu).actions == seq![
                ActionView::Chat(
                    "/bz "@ + match order.item_tag {
                        Some(tag) => tag,
                        None => title_case(order.item_name),
                    },
                ),
            ]
            &&& after.bot_state is Bazaar
            &&& after.bazaar_step is Initial
            &&& after.bazaar_item_name == order.item_name
            &&& after.bazaar_amount == order.amount
            &&& after.bazaar_price_per_unit == order.price_per_unit
            &&& after.bazaar_is_buy_order == is_buy_order
        }),
{
}

/// An order goes from its command through the list of items to the order button: the item is
/// clicked on the list, and the button on the item's page.
pub proof fn law_order_goes_through_the_list(
    s: ClientView,
    order: OrderView,
    is_buy_order: bool,
    menu: MenuView,
    list: WindowView,
    list_menus: spec_fn(nat) -> MenuView,
    list_times: spec_fn(nat) -> u64,
    found: nat,
    item_slot: int,
    page: WindowView,
    page_menus: spec_fn(nat) -> MenuView,
    page_times: spec_fn(nat) -> u64,
    shown: nat,
    button_slot: int,
)
    requires
        lists_items(list.title),
        slot_named(list_menus(1).slots, button_words(is_buy_order)) is None,
        found >= 2,
        forall|j: nat|
            2 <= j < found ==> slot_named((#[trigger] list_menus(j)).slots, order.item_name) is None
                && list_times(j) < 1500,
        slot_named(list_menus(found).slots, order.item_name) == Some(item_slot),
        !lists_items(page.title),
        shown >= 1,
        forall|j: nat|
            1 <= j < shown ==> is_bare(#[trigger] page_menus(j), button_words(is_buy_order))
                && page_times(j) < 1500,
        slot_named(page_menus(shown).slots, button_words(is_buy_order)) == Some(button_slot),
    ensures
        ({
            let s0 = told(s, order_of(order, is_buy_order), menu);
            let searched = handled(s0, list, list_menus, list_times, found + 1);
            let chosen = handled(searched.state, page, page_menus, page_times, shown + 1);
            &&& searched.phase is Done
            &&& clicks_only(searched.actions, list.id, item_slot)
            &&& chosen.phase is Done
            &&& clicks_only(chosen.actions, page.id, button_slot)
            &&& is_like(
                chosen.state,
                ClientView { bazaar_step: BazaarStep::SelectOrderType, ..s0 },
            )
        }),
{
    let s0 = told(s, order_of(order, is_buy_order), menu);
    law_list_leads_to_the_item(s0, list, list_menus, list_times, found, item_slot);
    let s1 = handled(s0, list, list_menus, list_times, found + 1).state;
    law_item_page_leads_to_the_order(s1, page, page_menus, page_times, shown, button_slot);
}

/// The page of an item on which the order button does not turn up ends an order that has just begun:
/// after a second and a half the bot goes idle. Another window, or a later step, is not disturbed.
/// Either way nothing is clicked.
pub proof fn law_page_without_a_button_is_given_up(
    s: ClientView,
    page: WindowView,
    menus: spec_fn(nat) -> MenuView,
    times: spec_fn(nat) -> u64,
    k: nat,
)
    requires
        s.bot_state is Bazaar,
        s.bazaar_step is Initial || s.bazaar_step is SearchResults || s.bazaar_step is Confirm,
        k >= 1,
        !lists_items(page.title) || k == 1 && !(s.bazaar_step is Initial),
        forall|j: nat|
            1 <= j < k ==> is_bare(#[trigger] menus(j), button_words(s.bazaar_is_buy_order))
                && times(j) < 1500,
        is_past_the_button(
            menus(k),
            page.title,
            times(k),
            button_words(s.bazaar_is_buy_order),
        ),
    ensures
        ({
            let run = handled(s, page, menus, times, k + 2);
            &&& run.phase is Done
            &&& clicked(run.actions).len() == 0
            &&& run.state == (if s.bazaar_step is Initial && occurs_in(page.title, "➜"@) {
                ClientView { bot_state: BotState::Idle, ..s }
            } else {
                s
            })
        }),
{
    lemma_button_is_awaited(s, page, menus, times, k);
    lemma_next_phase(s, page, menus, times, k);
    let waited_for = handled(s, page, menus, times, k);
    let first = on_window(waited_for.state, waited_for.phase, page, menus(k), times(k));
    lemma_after_all(waited_for.state, first.actions);
    lemma_clicked_few(first.actions);
    lemma_next_phase(s, page, menus, times, k + 1);
    let before = handled(s, page, menus, times, k + 1);
    let step = on_window(before.state, before.phase, page, menus(k + 1), times(k + 1));
    lemma_after_all(before.state, step.actions);
    lemma_clicked_few(step.actions);
}

/// A screen behind the order button that asks for neither an amount nor a price is left alone.
pub proof fn law_bare_screen_is_left_alone(
    s: ClientView,
    screen: WindowView,
    menus: spec_fn(nat) -> MenuView,
    times: spec_fn(nat) -> u64,
)
    requires
        s.bot_state is Bazaar,
        s.bazaar_step is SelectOrderType,
        slot_named(menus(1).slots, "Custom Price"@) is None,
        !s.bazaar_is_buy_order || slot_named(menus(1).slots, "Custom Amount"@) is None,
    ensures
        ({
            let run = handled(s, screen, menus, times, 2);
            run.phase is Done && clicked(run.actions).len() == 0 && run.state == s
        }),
{
    lemma_next_phase(s, screen, menus, times, 0);
    lemma_next_phase(s, screen, menus, times, 1);
    let first = on_window(s, PhaseView::Opened, screen, menus(0), times(0));
    lemma_after_all(s, first.actions);
    lemma_clicked_few(first.actions);
    assert(clicked(Seq::<ActionView>::empty()) =~= Seq::empty());
    let before = handled(s, screen, menus, times, 1);
    let step = on_window(before.state, before.phase, screen, menus(1), times(1));
    lemma_after_all(before.state, step.actions);
    lemma_clicked_few(step.actions);
}

/// A screen that asks for no price, after the amount has been written, is left alone.
pub proof fn law_screen_without_a_price_is_left_alone(
    s: ClientView,
    screen: WindowView,
    menus: spec_fn(nat) -> MenuView,
    times: spec_fn(nat) -> u64,
    k: nat,
)
    requires
        s.bot_state is Bazaar,
        s.bazaar_step is SetAmount,
        k >= 1,
        !lists_items(screen.title) || k == 1,
        forall|j: nat|
            1 <= j < k ==> is_bare(#[trigger] menus(j), button_words(s.bazaar_is_buy_order))
                && times(j) < 1500,
        is_past_the_button(
            menus(k),
            screen.title,
            times(k),
            button_words(s.bazaar_is_buy_order),
        ),
        slot_named(menus(k + 1).slots, "Custom Price"@) is None,
    ensures
        ({
            let run = handled(s, screen, menus, times, k + 2);
            run.phase is Done && clicked(run.actions).len() == 0 && run.state == s
        }),
{
    lemma_button_is_awaited(s, screen, menus, times, k);
    lemma_next_phase(s, screen, menus, times, k);
    let waited_for = handled(s, screen, menus, times, k);
    let first = on_window(waited_for.state, waited_for.phase, screen, menus(k), times(k));
    lemma_after_all(waited_for.state, first.actions);
    lemma_clicked_few(first.actions);
    lemma_next_phase(s, screen, menus, times, k + 1);
    let before = handled(s, screen, menus, times, k + 1);
    let step = on_window(before.state, before.phase, screen, menus(k + 1), times(k + 1));
    lemma_after_all(before.state, step.actions);
    lemma_clicked_few(step.actions);
}

} // verus!
