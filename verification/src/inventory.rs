//! The player's inventory, as it is uploaded to the flip service.

use vstd::prelude::*;

use crate::items::{items_of, ItemStack, ItemView};
use crate::json::{
    elements, json_text, lemma_json_view, member_from, members_of, parsed_json, render_json, text_less, Json,
    JsonView, ObjectBuilder,
};

verus! {

/// The slots of the menu that is open: those of a window, if one is open, and the player's own.
pub struct Menu {
    pub slots: Vec<ItemStack>,
    /// Where the player's own slots begin.
    pub player_start: usize,
    /// Where the player's own slots end: the slot behind the last of them.
    pub player_end: usize,
}

/// The slots of a menu, as the contracts speak of it.
#[verifier::ext_equal]
pub struct MenuView {
    pub slots: Seq<ItemView>,
    pub player_start: usize,
    pub player_end: usize,
}

impl View for Menu {
    type V = MenuView;

    open spec fn view(&self) -> MenuView {
        MenuView {
            slots: items_of(self.slots@),
            player_start: self.player_start,
            player_end: self.player_end,
        }
    }
}

impl MenuView {
    /// The player's own slots are slots of the menu.
    pub open spec fn well_formed(self) -> bool {
        self.player_start <= self.player_end <= self.slots.len()
    }

    /// What the player's own slots hold.
    pub open spec fn player_items(self) -> Seq<ItemView> {
        self.slots.subrange(self.player_start as int, self.player_end as int)
    }
}

/// What is uploaded of an item's data: its components, or all of it where it has none.
pub open spec fn item_nbt(item: ItemView) -> JsonView {
    match item.data {
        Some(data) => match data.get("components"@) {
            Some(components) => components,
            None => data,
        },
        None => JsonView::Null,
    }
}

/// A count as a JSON number.
pub open spec fn count_json(count: i32) -> JsonView {
    if count < 0 {
        JsonView::Negative(count as i64)
    } else {
        JsonView::Unsigned(count as u64)
    }
}

/// What is uploaded of the inventory slot `slot`, which holds `item`.
pub open spec fn slot_json(item: ItemView, slot: int) -> JsonView {
    if item.empty {
        JsonView::Null
    } else {
        JsonView::Object(
            seq![
                ("type"@, JsonView::Unsigned(item.kind_id as u64)),
                ("count"@, count_json(item.count)),
                ("metadata"@, JsonView::Unsigned(0)),
                ("nbt"@, item_nbt(item)),
                ("name"@, JsonView::Text(item.kind)),
                ("slot"@, JsonView::Unsigned(slot as u64)),
            ],
        )
    }
}

/// The 46 inventory slots: the player's items stand from slot 9 on, up to slot 44, and the other
/// slots are null.
pub open spec fn slots_json(items: Seq<ItemView>) -> Seq<JsonView> {
    Seq::new(
        46,
        |k: int|
            if 9 <= k <= 44 && k - 9 < items.len() {
                slot_json(items[k - 9], k)
            } else {
                JsonView::Null
            },
    )
}

/// The inventory with these items.
pub open spec fn inventory_json(items: Seq<ItemView>) -> JsonView {
    JsonView::Object(
        seq![
            ("id"@, JsonView::Unsigned(0)),
            ("type"@, JsonView::Text("SKYBLOCK_MENU"@)),
            ("title"@, JsonView::Text("Inventory"@)),
            ("slots"@, JsonView::Array(slots_json(items))),
            ("inventoryStart"@, JsonView::Unsigned(9)),
            ("inventoryEnd"@, JsonView::Unsigned(45)),
            ("hotbarStart"@, JsonView::Unsigned(36)),
            ("craftingResultSlot"@, JsonView::Unsigned(0)),
            ("requiresConfirmation"@, JsonView::Bool(true)),
            ("selectedItem"@, JsonView::Null),
        ],
    )
}

/// The contents of a message to the flip service: its type, and its data as a text.
pub open spec fn message_contents(kind: Seq<char>, data: Seq<char>) -> JsonView {
    JsonView::Object(seq![("data"@, JsonView::Text(data)), ("type"@, JsonView::Text(kind))])
}

/// A message to the flip service.
pub open spec fn service_message(kind: Seq<char>, data: Seq<char>) -> Seq<char> {
    json_text(message_contents(kind, data))
}

/// A message to the flip service, with its data as it is. Whoever reads the message finds the type
/// and the data in it.
pub fn make_message(kind: &str, data: &str) -> (r: String)
    ensures
        r@ == service_message(kind@, data@),
        parsed_json(r@) == Some(message_contents(kind@, data@)),
{
    let object = ObjectBuilder::new().put("data", Json::text(data)).put("type", Json::text(kind));
    proof {
        assert(members_of(object.fields@) =~= message_contents(kind@, data@)->Object_0);
        assert(text_less("data"@, "type"@) && "data"@[0] != '$' && "type"@[0] != '$') by {
            reveal_strlit("data");
            reveal_strlit("type");
        }
    }
    render_json(&object.done())
}

/// What is uploaded of an item's data.
fn make_nbt(item: &ItemStack) -> (r: Json)
    ensures
        r@ == item_nbt(item@),
{
    match &item.data {
        Some(data) => match data.get("components") {
            Some(components) => components.copy(),
            None => data.copy(),
        },
        None => Json::Null,
    }
}

/// A count as a JSON number.
fn make_count(count: i32) -> (r: Json)
    ensures
        r@ == count_json(count),
{
    if count < 0 {
        Json::Negative(count as i64)
    } else {
        Json::Unsigned(count as u64)
    }
}

/// What is uploaded of the inventory slot `slot`, which holds `item`.
fn make_slot(item: &ItemStack, slot: usize) -> (r: Json)
    ensures
        r@ == slot_json(item@, slot as int),
{
    if item.empty {
        Json::Null
    } else {
        let object = ObjectBuilder::new().put("type", Json::Unsigned(item.kind_id as u64)).put(
            "count",
            make_count(item.count),
        ).put("metadata", Json::Unsigned(0)).put("nbt", make_nbt(item)).put(
            "name",
            Json::text(item.kind.as_str()),
        ).put("slot", Json::Unsigned(slot as u64));
        proof {
            assert(members_of(object.fields@) =~= slot_json(item@, slot as int)->Object_0);
        }
        object.done()
    }
}

/// The 46 inventory slots of a menu.
fn make_slots(menu: &Menu) -> (r: Vec<Json>)
    requires
        menu@.well_formed(),
    ensures
        elements(r@) == slots_json(menu@.player_items()),
{
    let mut slots: Vec<Json> = Vec::new();
    let count: usize = menu.player_end - menu.player_start;
    let ghost items = menu@.player_items();
    let mut k: usize = 0;
    while k < 46
        invariant
            k <= 46,
            slots@.len() == k,
            menu@.well_formed(),
            items == menu@.player_items(),
            count == items.len(),
            forall|j: int| 0 <= j < k ==> (#[trigger] slots@[j])@ == slots_json(items)[j],
        decreases 46 - k,
    {
        if 9 <= k && k <= 44 && k - 9 < count {
            let item = &menu.slots[menu.player_start + (k - 9)];
            proof {
                assert(item@ == items[k - 9]);
            }
            slots.push(make_slot(item, k));
        } else {
            slots.push(Json::Null);
        }
        k = k + 1;
    }
    proof {
        assert(elements(slots@) =~= slots_json(items));
    }
    slots
}

/// The player's inventory.
pub fn make_inventory(menu: &Menu) -> (r: Json)
    requires
        menu@.well_formed(),
    ensures
        r@ == inventory_json(menu@.player_items()),
{
    let slots = Json::Array(make_slots(menu));
    proof {
        lemma_json_view(slots);
    }
    let object = ObjectBuilder::new().put("id", Json::Unsigned(0)).put(
        "type",
        Json::text("SKYBLOCK_MENU"),
    ).put("title", Json::text("Inventory")).put("slots", slots).put(
        "inventoryStart",
        Json::Unsigned(9),
    ).put("inventoryEnd", Json::Unsigned(45)).put("hotbarStart", Json::Unsigned(36)).put(
        "craftingResultSlot",
        Json::Unsigned(0),
    ).put("requiresConfirmation", Json::Bool(true)).put("selectedItem", Json::Null);
    proof {
        assert(members_of(object.fields@) =~= inventory_json(menu@.player_items())->Object_0);
    }
    object.done()
}

/// The message that uploads the player's inventory: the inventory is JSON text inside the message.
pub fn upload_inventory(menu: &Menu) -> (r: String)
    requires
        menu@.well_formed(),
    ensures
        r@ == service_message(
            "uploadInventory"@,
            json_text(inventory_json(menu@.player_items())),
        ),
{
    let inventory = make_inventory(menu);
    make_message("uploadInventory", render_json(&inventory).as_str())
}

/// Every item of the player's 36 slots is uploaded in its place, and nothing else is.
pub proof fn law_items_are_uploaded_in_place(items: Seq<ItemView>, i: int, k: int)
    requires
        0 <= i < items.len(),
        i < 36,
        0 <= k < 46,
        !(9 <= k <= 44) || k - 9 >= items.len(),
    ensures
        slots_json(items).len() == 46,
        slots_json(items)[i + 9] == slot_json(items[i], i + 9),
        slots_json(items)[k] is Null,
{
}

/// A message to the flip service is an object with its type and its data, both as they are.
pub proof fn law_message_tells_its_type_and_data(kind: Seq<char>, data: Seq<char>)
    ensures
        message_contents(kind, data).get("type"@) == Some(JsonView::Text(kind)),
        message_contents(kind, data).get("data"@) == Some(JsonView::Text(data)),
        service_message(kind, data) == json_text(message_contents(kind, data)),
{
    reveal_strlit("type");
    reveal_strlit("data");
    reveal_with_fuel(member_from, 3);
    assert("data"@[0] != "type"@[0]);
}

/// An uploaded slot tells the kind, the count, the data and the place of its item, and an empty one
/// tells nothing.
pub proof fn law_uploaded_slot_tells_its_item(item: ItemView, slot: u64)
    ensures
        item.empty ==> slot_json(item, slot as int) is Null,
        !item.empty ==> {
            let told = slot_json(item, slot as int);
            &&& told.get("type"@) == Some(JsonView::Unsigned(item.kind_id as u64))
            &&& told.get("name"@) == Some(JsonView::Text(item.kind))
            &&& item.count >= 0 ==> told.get("count"@) == Some(
                JsonView::Unsigned(item.count as u64),
            )
            &&& told.get("slot"@) == Some(JsonView::Unsigned(slot))
            &&& told.get("nbt"@) == Some(
                match item.data {
                    Some(data) => match data.get("components"@) {
                        Some(components) => components,
                        None => data,
                    },
                    None => JsonView::Null,
                },
            )
        },
{
    reveal_strlit("type");
    reveal_strlit("count");
    reveal_strlit("metadata");
    reveal_strlit("nbt");
    reveal_strlit("name");
    reveal_strlit("slot");
    reveal_with_fuel(member_from, 7);
    assert("type"@[0] == 't' && "count"@[0] == 'c' && "metadata"@[0] == 'm' && "slot"@[0] == 's');
    assert("nbt"@.len() == 3 && "name"@.len() == 4);
    assert("name"@[0] == 'n' && "nbt"@[0] == 'n');
}

/// The uploaded inventory says where its slots begin and end, and holds forty-six of them.
pub proof fn law_inventory_says_where_its_slots_are(items: Seq<ItemView>)
    ensures
        inventory_json(items).get("slots"@) == Some(JsonView::Array(slots_json(items))),
        slots_json(items).len() == 46,
        inventory_json(items).get("inventoryStart"@) == Some(JsonView::Unsigned(9)),
        inventory_json(items).get("inventoryEnd"@) == Some(JsonView::Unsigned(45)),
        inventory_json(items).get("hotbarStart"@) == Some(JsonView::Unsigned(36)),
{
    reveal_strlit("id");
    reveal_strlit("type");
    reveal_strlit("title");
    reveal_strlit("slots");
    reveal_strlit("inventoryStart");
    reveal_strlit("inventoryEnd");
    reveal_strlit("hotbarStart");
    reveal_with_fuel(member_from, 8);
    assert("id"@.len() == 2 && "type"@.len() == 4 && "title"@.len() == 5 && "slots"@.len() == 5
        && "inventoryStart"@.len() == 14 && "inventoryEnd"@.len() == 12 && "hotbarStart"@.len()
        == 11);
    assert("title"@[0] == 't' && "slots"@[0] == 's');
}

/// The uploaded inventory is one of the player's own, and an uploaded item has no variants; a count
/// below zero is told as it is.
pub proof fn law_inventory_is_the_players_own(items: Seq<ItemView>, item: ItemView, slot: u64)
    ensures
        inventory_json(items).get("id"@) == Some(JsonView::Unsigned(0)),
        inventory_json(items).get("type"@) == Some(JsonView::Text("SKYBLOCK_MENU"@)),
        inventory_json(items).get("title"@) == Some(JsonView::Text("Inventory"@)),
        inventory_json(items).get("craftingResultSlot"@) == Some(JsonView::Unsigned(0)),
        inventory_json(items).get("requiresConfirmation"@) == Some(JsonView::Bool(true)),
        inventory_json(items).get("selectedItem"@) == Some(JsonView::Null),
        !item.empty ==> slot_json(item, slot as int).get("metadata"@) == Some(JsonView::Unsigned(0)),
        !item.empty && item.count < 0 ==> slot_json(item, slot as int).get("count"@) == Some(
            JsonView::Negative(item.count as i64),
        ),
{
    reveal_strlit("id");
    reveal_strlit("type");
    reveal_strlit("title");
    reveal_strlit("slots");
    reveal_strlit("inventoryStart");
    reveal_strlit("inventoryEnd");
    reveal_strlit("hotbarStart");
    reveal_strlit("craftingResultSlot");
    reveal_strlit("requiresConfirmation");
    reveal_strlit("selectedItem");
    reveal_strlit("count");
    reveal_strlit("metadata");
    reveal_with_fuel(member_from, 11);
    assert("id"@.len() == 2 && "type"@.len() == 4 && "title"@.len() == 5 && "slots"@.len() == 5
        && "inventoryStart"@.len() == 14 && "inventoryEnd"@.len() == 12 && "hotbarStart"@.len()
        == 11 && "craftingResultSlot"@.len() == 18 && "requiresConfirmation"@.len() == 20
        && "selectedItem"@.len() == 12 && "count"@.len() == 5 && "metadata"@.len() == 8);
    assert("title"@[0] == 't' && "slots"@[0] == 's');
    assert("inventoryEnd"@[0] == 'i' && "selectedItem"@[0] == 's');
}

} // verus!
