//! Item stacks in windows: their names, their descriptions, and how slots are found by them.

use vstd::prelude::*;

use crate::json::{
    elements, json_text, lemma_json_view, member_from, parse_json, parsed_json, render_json, Json,
    JsonView,
};
use crate::claims::{law_claimable_is_told_by_any_line, says_over, says_running};
use crate::letters::{is_ascii_text, lowercase, to_lowercase};
use crate::text::{
    contains, join, joined, occurs_in, remove_mc_colors, texts, without_colors,
};

verus! {

/// What a slot holds.
#[derive(Debug, PartialEq)]
pub struct ItemStack {
    /// Nothing, air, or a count that is not positive.
    pub empty: bool,
    /// The number of the item's kind in the registry.
    pub kind_id: u32,
    /// The name of the item's kind in the registry.
    pub kind: String,
    pub count: i32,
    /// The item's data as JSON, where there is an item and its data can be written as JSON.
    pub data: Option<Json>,
}

/// What a slot holds, as the contracts speak of it.
#[verifier::ext_equal]
pub struct ItemView {
    pub empty: bool,
    pub kind_id: u32,
    pub kind: Seq<char>,
    pub count: i32,
    pub data: Option<JsonView>,
}

impl View for ItemStack {
    type V = ItemView;

    open spec fn view(&self) -> ItemView {
        ItemView {
            empty: self.empty,
            kind_id: self.kind_id,
            kind: self.kind@,
            count: self.count,
            data: match self.data {
                Some(json) => Some(json@),
                None => None,
            },
        }
    }
}

/// What the slots of a window hold.
pub open spec fn items_of(slots: Seq<ItemStack>) -> Seq<ItemView> {
    slots.map_values(|item: ItemStack| item@)
}

// ---- Chat components ----

/// A member of an object is smaller than the object.
pub proof fn lemma_member_is_smaller(value: JsonView, key: Seq<char>)
    ensures
        value.get(key) is Some ==> decreases_to!(value => value.get(key)->0),
{
    match value {
        JsonView::Object(members) => {
            lemma_member_from_is_smaller(members, key, 0);
            assert(decreases_to!(value => value->Object_0));
        },
        _ => {},
    }
}

proof fn lemma_member_from_is_smaller(
    members: Seq<(Seq<char>, JsonView)>,
    key: Seq<char>,
    from: int,
)
    ensures
        member_from(members, key, from) is Some ==> decreases_to!(
            members => member_from(members, key, from)->0
        ),
    decreases members.len() - from,
{
    if 0 <= from < members.len() {
        if members[from].0 == key {
            assert(decreases_to!(members => members[from]));
            assert(decreases_to!(members[from] => members[from].1));
        } else {
            lemma_member_from_is_smaller(members, key, from + 1);
        }
    }
}

/// The plain text of a chat component: its own text and then that of its extra parts, without
/// color codes.
pub open spec fn component_text(value: JsonView) -> Seq<char>
    decreases value, 0nat,
{
    let own = match value.get("text"@) {
        Some(JsonView::Text(s)) => s,
        _ => Seq::empty(),
    };
    let extra = match value.get("extra"@) {
        Some(parts) => match parts {
            JsonView::Array(items) => {
                proof {
                    lemma_member_is_smaller(value, "extra"@);
                    assert(decreases_to!(parts => parts->Array_0));
                }
                parts_text(items, items.len())
            },
            _ => Seq::empty(),
        },
        None => Seq::empty(),
    };
    without_colors(own + extra)
}

/// The plain texts of the first `n` chat components of `items`, one after another.
pub open spec fn parts_text(items: Seq<JsonView>, n: nat) -> Seq<char>
    decreases items, n,
{
    if n == 0 || n > items.len() {
        Seq::empty()
    } else {
        parts_text(items, (n - 1) as nat) + component_text(items[n - 1])
    }
}

/// Extract the plain text of a chat component, recursively.
pub fn extract_text_from_chat_component(val: &Json) -> (r: String)
    ensures
        r@ == component_text(val@),
    decreases val@,
{
    let mut result = String::new();
    match val.get("text") {
        Some(text) => {
            match text.as_text() {
                Some(s) => {
                    result.append(s);
                },
                None => {},
            }
        },
        None => {},
    }
    let ghost own = result@;
    match val.get("extra") {
        Some(extra) => {
            proof {
                lemma_member_is_smaller(val@, "extra"@);
                lemma_json_view(*extra);
            }
            match extra {
                Json::Array(items) => {
                    proof {
                        assert(decreases_to!(extra@ => extra@->Array_0));
                    }
                    let ghost parts = elements(items@);
                    let mut i: usize = 0;
                    while i < items.len()
                        invariant
                            i <= items@.len(),
                            parts == elements(items@),
                            decreases_to!(val@ => parts),
                            result@ == own + parts_text(parts, i as nat),
                        decreases items@.len() - i,
                    {
                        proof {
                            assert(decreases_to!(parts => parts[i as int]));
                        }
                        let part = extract_text_from_chat_component(&items[i]);
                        result.append(part.as_str());
                        i = i + 1;
                    }
                },
                _ => {},
            }
        },
        None => {},
    }
    remove_mc_colors(result.as_str())
}

// ---- Names and descriptions ----

/// The text under which a name or a line of a description is kept: a text as it is, anything else
/// as JSON.
pub open spec fn raw_text(value: JsonView) -> Seq<char> {
    match value {
        JsonView::Text(s) => s,
        other => json_text(other),
    }
}

/// What `raw` shows, given the JSON value that it writes, if it writes one: the text of that chat
/// component, or else `raw` itself, without color codes.
pub open spec fn shown_text(raw: Seq<char>, parsed: Option<JsonView>) -> Seq<char> {
    match parsed {
        Some(component) => component_text(component),
        None => without_colors(raw),
    }
}

/// What a name or a line of a description shows.
pub open spec fn plain_text(value: JsonView) -> Seq<char> {
    shown_text(raw_text(value), parsed_json(raw_text(value)))
}

/// The member `key` of the components in an item's data.
pub open spec fn component(data: JsonView, key: Seq<char>) -> Option<JsonView> {
    match data.get("components"@) {
        Some(components) => components.get(key),
        None => None,
    }
}

/// The name that an item shows: its custom name, or else its item name.
pub open spec fn display_name(item: ItemView) -> Option<Seq<char>> {
    match item.data {
        Some(data) => match component(data, "minecraft:custom_name"@) {
            Some(name) => Some(plain_text(name)),
            None => match component(data, "minecraft:item_name"@) {
                Some(name) => Some(plain_text(name)),
                None => None,
            },
        },
        None => None,
    }
}

/// The lines of an item's description.
pub open spec fn lore(item: ItemView) -> Seq<Seq<char>> {
    match item.data {
        Some(data) => match component(data, "minecraft:lore"@) {
            Some(JsonView::Array(lines)) => lines.map_values(|line: JsonView| plain_text(line)),
            _ => Seq::empty(),
        },
        None => Seq::empty(),
    }
}

/// What `raw` shows, given the JSON value that it writes, if it writes one.
pub fn show_text(raw: &str, parsed: &Option<Json>) -> (r: String)
    ensures
        r@ == shown_text(
            raw@,
            match parsed {
                Some(json) => Some(json@),
                None => None,
            },
        ),
{
    match parsed {
        Some(json) => extract_text_from_chat_component(json),
        None => remove_mc_colors(raw),
    }
}

/// What a name or a line of a description shows.
pub fn to_plain_text(value: &Json) -> (r: String)
    ensures
        r@ == plain_text(value@),
{
    let raw = match value {
        Json::Text(s) => s.clone(),
        _ => render_json(value),
    };
    let parsed = parse_json(raw.as_str());
    show_text(raw.as_str(), &parsed)
}

/// The member `key` of the components in an item's data.
fn component_of<'a>(data: &'a Json, key: &str) -> (r: Option<&'a Json>)
    ensures
        match r {
            Some(value) => component(data@, key@) == Some(value@),
            None => component(data@, key@) is None,
        },
{
    match data.get("components") {
        Some(components) => components.get(key),
        None => None,
    }
}

/// Get the display name of an item without color codes: the custom name if there is one, or else
/// the item name.
pub fn get_item_display_name_from_slot(item: &ItemStack) -> (r: Option<String>)
    ensures
        match r {
            Some(name) => display_name(item@) == Some(name@),
            None => display_name(item@) is None,
        },
{
    match &item.data {
        Some(data) => {
            match component_of(data, "minecraft:custom_name") {
                Some(name) => Some(to_plain_text(name)),
                None => match component_of(data, "minecraft:item_name") {
                    Some(name) => Some(to_plain_text(name)),
                    None => None,
                },
            }
        },
        None => None,
    }
}

/// Get the lines of an item's description without color codes.
pub fn get_item_lore_from_slot(item: &ItemStack) -> (r: Vec<String>)
    ensures
        texts(r@) == lore(item@),
{
    let mut lines: Vec<String> = Vec::new();
    match &item.data {
        Some(data) => {
            match component_of(data, "minecraft:lore") {
                Some(value) => {
                    proof {
                        lemma_json_view(*value);
                    }
                    match value {
                        Json::Array(entries) => {
                            let ghost all = elements(entries@);
                            let mut i: usize = 0;
                            while i < entries.len()
                                invariant
                                    i <= entries@.len(),
                                    all == elements(entries@),
                                    lines@.len() == i,
                                    forall|k: int|
                                        0 <= k < i ==> (#[trigger] lines@[k])@ == plain_text(all[k]),
                                decreases entries@.len() - i,
                            {
                                lines.push(to_plain_text(&entries[i]));
                                i = i + 1;
                            }
                            proof {
                                assert(texts(lines@) =~= all.map_values(
                                    |line: JsonView| plain_text(line),
                                ));
                            }
                            return lines;
                        },
                        _ => {},
                    }
                },
                None => {},
            }
        },
        None => {},
    }
    proof {
        assert(texts(lines@) =~= Seq::empty());
    }
    lines
}

// ---- Finding slots ----

/// The first position at or after `from` whose element satisfies `wanted`.
pub open spec fn first_where<A>(s: Seq<A>, wanted: spec_fn(A) -> bool, from: int) -> Option<int>
    decreases s.len() - from,
{
    if from < 0 || from >= s.len() {
        None
    } else if wanted(s[from]) {
        Some(from)
    } else {
        first_where(s, wanted, from + 1)
    }
}

/// `first_where` gives the least position at or after `from` whose element satisfies `wanted`,
/// and `None` exactly when there is none.
pub proof fn lemma_first_where<A>(s: Seq<A>, wanted: spec_fn(A) -> bool, from: int)
    requires
        0 <= from,
    ensures
        match first_where(s, wanted, from) {
            Some(i) => from <= i < s.len() && wanted(s[i]) && (forall|j: int|
                from <= j < i ==> !wanted(#[trigger] s[j])),
            None => forall|j: int| from <= j < s.len() ==> !wanted(#[trigger] s[j]),
        },
    decreases s.len() - from,
{
    if from < s.len() && !wanted(s[from]) {
        lemma_first_where(s, wanted, from + 1);
    }
}

/// The name that an item shows holds `name`, in whatever case either is written.
pub open spec fn is_named(item: ItemView, name: Seq<char>) -> bool {
    match display_name(item) {
        Some(shown) => occurs_in(lowercase(shown), lowercase(name)),
        None => false,
    }
}

/// The first slot whose name holds `name`.
pub open spec fn slot_named(slots: Seq<ItemView>, name: Seq<char>) -> Option<int> {
    first_where(slots, |item: ItemView| is_named(item, name), 0)
}

/// Find the first slot whose display name holds the given name, in whatever case.
pub fn find_slot_by_name(slots: &Vec<ItemStack>, name: &str) -> (r: Option<usize>)
    ensures
        match r {
            Some(i) => slot_named(items_of(slots@), name@) == Some(i as int) && i < slots@.len(),
            None => slot_named(items_of(slots@), name@) is None,
        },
{
    let ghost all = items_of(slots@);
    let ghost wanted = |item: ItemView| is_named(item, name@);
    let lower = to_lowercase(name);
    let mut i: usize = 0;
    while i < slots.len()
        invariant
            i <= slots@.len(),
            all == items_of(slots@),
            lower@ == lowercase(name@),
            wanted == (|item: ItemView| is_named(item, name@)),
            slot_named(all, name@) == first_where(all, wanted, i as int),
        decreases slots@.len() - i,
    {
        match get_item_display_name_from_slot(&slots[i]) {
            Some(shown) => {
                let shown_lower = to_lowercase(shown.as_str());
                if contains(shown_lower.as_str(), lower.as_str()) {
                    return Some(i);
                }
            },
            None => {},
        }
        i = i + 1;
    }
    None
}

/// A description in lower case that says the auction can be claimed.
pub open spec fn says_claimable(lines: Seq<char>) -> bool {
    ||| occurs_in(lines, "sold!"@)
    ||| occurs_in(lines, "ended"@)
    ||| occurs_in(lines, "expired"@)
    ||| occurs_in(lines, "click to claim"@)
    ||| occurs_in(lines, "claim your"@)
}

/// A description in lower case that says the auction still runs.
pub open spec fn says_active(lines: Seq<char>) -> bool {
    ||| occurs_in(lines, "ends in"@)
    ||| occurs_in(lines, "buy it now"@)
    ||| occurs_in(lines, "starting bid"@)
}

/// The item shows an auction that is over and can be claimed.
pub open spec fn is_claimable(item: ItemView) -> bool {
    let lines = lowercase(joined(lore(item), "\n"@));
    lore(item).len() > 0 && says_claimable(lines) && !says_active(lines)
}

/// Whether a description in lower case shows an auction that is over and can be claimed.
pub fn is_claimable_lore(lines: &str) -> (r: bool)
    ensures
        r == (says_claimable(lines@) && !says_active(lines@)),
{
    let has_claimable = contains(lines, "sold!") || contains(lines, "ended") || contains(
        lines,
        "expired",
    ) || contains(lines, "click to claim") || contains(lines, "claim your");
    let is_active = contains(lines, "ends in") || contains(lines, "buy it now") || contains(
        lines,
        "starting bid",
    );
    has_claimable && !is_active
}

/// Whether the item is an auction that was sold, has ended or has expired, and can be claimed.
pub fn is_claimable_auction_slot(item: &ItemStack) -> (r: bool)
    ensures
        r == is_claimable(item@),
        is_ascii_text(joined(lore(item@), "\n"@)) && lore(item@).len() > 0 ==> (r <==> says_over(
            lore(item@),
        ) && !says_running(lore(item@))),
{
    let lines = get_item_lore_from_slot(item);
    if lines.len() == 0 {
        return false;
    }
    let combined = join(&lines, "\n");
    let lower = to_lowercase(combined.as_str());
    proof {
        if is_ascii_text(joined(lore(item@), "\n"@)) {
            law_claimable_is_told_by_any_line(item@);
        }
    }
    is_claimable_lore(lower.as_str())
}

/// A slot is found by its name: the first one whose item shows a name that holds it, in whatever
/// case either is written, and none where no item does.
pub proof fn law_named_slot_is_the_first_that_shows_the_name(slots: Seq<ItemView>, name: Seq<char>)
    ensures
        match slot_named(slots, name) {
            Some(i) => 0 <= i < slots.len() && (display_name(slots[i]) matches Some(shown)
                && occurs_in(lowercase(shown), lowercase(name))) && (forall|j: int|
                #![trigger slots[j]]
                0 <= j < i && display_name(slots[j]) is Some ==> !occurs_in(
                    lowercase(display_name(slots[j])->0),
                    lowercase(name),
                )),
            None => forall|j: int|
                #![trigger slots[j]]
                0 <= j < slots.len() && display_name(slots[j]) is Some ==> !occurs_in(
                    lowercase(display_name(slots[j])->0),
                    lowercase(name),
                ),
        },
{
    let wanted = |item: ItemView| is_named(item, name);
    lemma_first_where(slots, wanted, 0);
    match slot_named(slots, name) {
        Some(i) => {
            assert(wanted(slots[i]));
            assert forall|j: int|
                #![trigger slots[j]]
                0 <= j < i && display_name(slots[j]) is Some implies !occurs_in(
                lowercase(display_name(slots[j])->0),
                lowercase(name),
            ) by {
                assert(!wanted(slots[j]));
            }
        },
        None => {
            assert forall|j: int|
                #![trigger slots[j]]
                0 <= j < slots.len() && display_name(slots[j]) is Some implies !occurs_in(
                lowercase(display_name(slots[j])->0),
                lowercase(name),
            ) by {
                assert(!wanted(slots[j]));
            }
        },
    }
}

/// An item shows its custom name where it has one, whatever its item name is, and its item name
/// where it has none; an item without either, or without data, shows no name.
pub proof fn law_custom_name_is_shown_first(item: ItemView)
    ensures
        item.data is None ==> display_name(item) is None && lore(item).len() == 0,
        item.data matches Some(data) ==> (data.get("components"@) matches Some(components) ==> {
            let custom = components.get("minecraft:custom_name"@);
            let plain = components.get("minecraft:item_name"@);
            &&& custom matches Some(name) ==> display_name(item) == Some(plain_text(name))
            &&& custom is None ==> (plain matches Some(name) ==> display_name(item) == Some(
                plain_text(name),
            ))
            &&& custom is None && plain is None ==> display_name(item) is None
        }),
        item.data matches Some(data) ==> (data.get("components"@) is None ==> display_name(
            item,
        ) is None && lore(item).len() == 0),
{
}

/// The description of an item has a line for each entry, in their order, and shows what it says.
pub proof fn law_description_has_a_line_for_each_entry(
    item: ItemView,
    data: JsonView,
    components: JsonView,
    entries: Seq<JsonView>,
)
    requires
        item.data == Some(data),
        data.get("components"@) == Some(components),
        components.get("minecraft:lore"@) == Some(JsonView::Array(entries)),
    ensures
        lore(item).len() == entries.len(),
        forall|i: int| 0 <= i < entries.len() ==> #[trigger] lore(item)[i] == plain_text(entries[i]),
{
}

/// A text that writes no JSON is shown as it is, without colors. One that writes a chat component
/// shows the component's own text and then its parts, in their order, without colors.
pub proof fn law_component_shows_its_text_and_its_parts(
    raw: Seq<char>,
    value: JsonView,
    own: Seq<char>,
    parts: Seq<JsonView>,
    last: JsonView,
)
    requires
        value.get("text"@) == Some(JsonView::Text(own)),
    ensures
        parsed_json(raw) is None ==> plain_text(JsonView::Text(raw)) == without_colors(raw),
        parsed_json(raw) == Some(value) ==> plain_text(JsonView::Text(raw)) == component_text(value),
        value.get("extra"@) is None ==> component_text(value) == without_colors(own),
        value.get("extra"@) == Some(JsonView::Array(parts)) ==> component_text(value)
            == without_colors(own + parts_text(parts, parts.len())),
        parts_text(parts, 0).len() == 0,
        parts_text(parts.push(last), (parts.len() + 1) as nat) == parts_text(parts, parts.len())
            + component_text(last),
{
    if value.get("extra"@) is None {
        assert(own + Seq::<char>::empty() =~= own);
    }
    lemma_parts_text_of_more(parts, last, parts.len());
    assert(parts.push(last)[parts.len() as int] == last);
}

/// The first parts show the same, whatever part comes behind them.
proof fn lemma_parts_text_of_more(parts: Seq<JsonView>, last: JsonView, n: nat)
    requires
        n <= parts.len(),
    ensures
        parts_text(parts.push(last), n) == parts_text(parts, n),
    decreases n,
{
    if n > 0 {
        lemma_parts_text_of_more(parts, last, (n - 1) as nat);
        assert(parts.push(last)[n - 1] == parts[n - 1]);
    }
}

/// A name that is no text is shown by its JSON text. A component without a text of its own shows its
/// parts alone, and a description that is no list has no lines.
pub proof fn law_other_components_show_what_they_have(
    value: JsonView,
    parts: Seq<JsonView>,
    item: ItemView,
)
    ensures
        !(value is Text) ==> plain_text(value) == (match parsed_json(json_text(value)) {
            Some(read) => component_text(read),
            None => without_colors(json_text(value)),
        }),
        !(value.get("text"@) matches Some(JsonView::Text(_))) ==> {
            &&& value.get("extra"@) is None ==> component_text(value).len() == 0
            &&& value.get("extra"@) == Some(JsonView::Array(parts)) ==> component_text(value)
                == without_colors(parts_text(parts, parts.len()))
        },
        item.data matches Some(data) ==> (data.get("components"@) matches Some(components) ==> (!(
        components.get("minecraft:lore"@) matches Some(JsonView::Array(_))) ==> lore(item).len()
            == 0)),
{
    let shown = parts_text(parts, parts.len());
    assert(Seq::<char>::empty() + shown =~= shown);
    assert(without_colors(Seq::<char>::empty()).len() == 0);
    assert(Seq::<char>::empty() + Seq::<char>::empty() =~= Seq::<char>::empty());
}

} // verus!
