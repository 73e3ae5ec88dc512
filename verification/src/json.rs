//! JSON values, read from text and written to text by `serde_json`.

use serde_json::{Number, Value};
use vstd::prelude::*;

use crate::text::{same_text, texts};

verus! {

/// A JSON value.
#[derive(Debug, PartialEq)]
pub enum Json {
    Null,
    Bool(bool),
    /// A number that is not negative and has no fraction.
    Unsigned(u64),
    /// A negative number without a fraction.
    Negative(i64),
    /// A number with a fraction or an exponent, as `serde_json` writes it.
    Fraction(String),
    Text(String),
    Array(Vec<Json>),
    /// The members of an object, each with its key.
    Object(Vec<(String, Json)>),
}

/// What a JSON value says.
#[verifier::ext_equal]
pub enum JsonView {
    Null,
    Bool(bool),
    Unsigned(u64),
    Negative(i64),
    Fraction(Seq<char>),
    Text(Seq<char>),
    Array(Seq<JsonView>),
    Object(Seq<(Seq<char>, JsonView)>),
}

/// What a JSON value says.
pub open spec fn json_view(json: Json) -> JsonView
    decreases json,
{
    match json {
        Json::Null => JsonView::Null,
        Json::Bool(b) => JsonView::Bool(b),
        Json::Unsigned(n) => JsonView::Unsigned(n),
        Json::Negative(n) => JsonView::Negative(n),
        Json::Fraction(s) => JsonView::Fraction(s@),
        Json::Text(s) => JsonView::Text(s@),
        Json::Array(items) => JsonView::Array(
            Seq::new(
                items@.len(),
                |i: int|
                    if 0 <= i < items@.len() {
                        json_view(items@[i])
                    } else {
                        JsonView::Null
                    },
            ),
        ),
        Json::Object(fields) => JsonView::Object(
            Seq::new(
                fields@.len(),
                |i: int|
                    if 0 <= i < fields@.len() {
                        (fields@[i].0@, json_view(fields@[i].1))
                    } else {
                        (Seq::empty(), JsonView::Null)
                    },
            ),
        ),
    }
}

impl View for Json {
    type V = JsonView;

    open spec fn view(&self) -> JsonView {
        json_view(*self)
    }
}

/// What the elements of an array say.
pub open spec fn elements(items: Seq<Json>) -> Seq<JsonView> {
    Seq::new(items.len(), |i: int| items[i]@)
}

/// What the members of an object say.
pub open spec fn members_of(fields: Seq<(String, Json)>) -> Seq<(Seq<char>, JsonView)> {
    Seq::new(fields.len(), |i: int| (fields[i].0@, fields[i].1@))
}

/// The value of the first member with the key `key` at or after position `from`.
pub open spec fn member_from(
    members: Seq<(Seq<char>, JsonView)>,
    key: Seq<char>,
    from: int,
) -> Option<JsonView>
    decreases members.len() - from,
{
    if from < 0 || from >= members.len() {
        None
    } else if members[from].0 == key {
        Some(members[from].1)
    } else {
        member_from(members, key, from + 1)
    }
}

impl JsonView {
    /// The value of the member `key`, if this is an object that has one.
    pub open spec fn get(self, key: Seq<char>) -> Option<JsonView> {
        match self {
            JsonView::Object(members) => member_from(members, key, 0),
            _ => None,
        }
    }

    /// The text, if this is one.
    pub open spec fn as_text(self) -> Option<Seq<char>> {
        match self {
            JsonView::Text(s) => Some(s),
            _ => None,
        }
    }

    /// The number, if this is one that is not negative and has no fraction.
    pub open spec fn as_unsigned(self) -> Option<u64> {
        match self {
            JsonView::Unsigned(n) => Some(n),
            _ => None,
        }
    }
}

/// What an array and what an object say, in terms of their parts.
pub proof fn lemma_json_view(value: Json)
    ensures
        match value {
            Json::Array(items) => value@ == JsonView::Array(elements(items@)),
            Json::Object(fields) => value@ == JsonView::Object(members_of(fields@)),
            _ => true,
        },
{
    match value {
        Json::Array(items) => {
            assert(value@->Array_0 =~= elements(items@));
        },
        Json::Object(fields) => {
            assert(value@->Object_0 =~= members_of(fields@));
        },
        _ => {},
    }
}

impl Json {
    /// The value of the member `key`, if this is an object that has one.
    pub fn get(&self, key: &str) -> (r: Option<&Json>)
        ensures
            match r {
                Some(value) => self@.get(key@) == Some(value@),
                None => self@.get(key@) is None,
            },
    {
        proof {
            lemma_json_view(*self);
        }
        match self {
            Json::Object(fields) => {
                let mut i: usize = 0;
                while i < fields.len()
                    invariant
                        i <= fields@.len(),
                        self@ == JsonView::Object(members_of(fields@)),
                        self@.get(key@) == member_from(members_of(fields@), key@, i as int),
                    decreases fields@.len() - i,
                {
                    if same_text(fields[i].0.as_str(), key) {
                        return Some(&fields[i].1);
                    }
                    i = i + 1;
                }
                None
            },
            _ => None,
        }
    }

    /// The text, if this is one.
    pub fn as_text(&self) -> (r: Option<&str>)
        ensures
            match r {
                Some(s) => self@.as_text() == Some(s@),
                None => self@.as_text() is None,
            },
    {
        match self {
            Json::Text(s) => Some(s.as_str()),
            _ => None,
        }
    }

    /// The number, if this is one that is not negative and has no fraction.
    pub fn as_unsigned(&self) -> (r: Option<u64>)
        ensures
            r == self@.as_unsigned(),
    {
        match self {
            Json::Unsigned(n) => Some(*n),
            _ => None,
        }
    }

    /// A text as a JSON value.
    pub fn text(s: &str) -> (r: Json)
        ensures
            r@ == JsonView::Text(s@),
    {
        Json::Text(s.to_owned())
    }

    /// A list of texts as a JSON value.
    pub fn texts(lines: &Vec<String>) -> (r: Json)
        ensures
            r@ == text_array(texts(lines@)),
    {
        let mut items: Vec<Json> = Vec::new();
        let mut i: usize = 0;
        while i < lines.len()
            invariant
                i <= lines@.len(),
                items@.len() == i,
                forall|k: int| 0 <= k < i ==> (#[trigger] items@[k])@ == JsonView::Text(lines@[k]@),
            decreases lines@.len() - i,
        {
            items.push(Json::text(lines[i].as_str()));
            i = i + 1;
        }
        let r = Json::Array(items);
        proof {
            lemma_json_view(r);
            assert(elements(items@) =~= text_array(texts(lines@))->Array_0);
        }
        r
    }

    /// A copy that says the same.
    pub fn copy(&self) -> (r: Json)
        ensures
            r@ == self@,
        decreases self,
    {
        match self {
            Json::Null => Json::Null,
            Json::Bool(b) => Json::Bool(*b),
            Json::Unsigned(n) => Json::Unsigned(*n),
            Json::Negative(n) => Json::Negative(*n),
            Json::Fraction(s) => Json::Fraction(s.clone()),
            Json::Text(s) => Json::Text(s.clone()),
            Json::Array(items) => {
                let mut out: Vec<Json> = Vec::new();
                let mut i: usize = 0;
                while i < items.len()
                    invariant
                        i <= items@.len(),
                        *self == Json::Array(*items),
                        out@.len() == i,
                        forall|k: int| 0 <= k < i ==> (#[trigger] out@[k])@ == items@[k]@,
                    decreases items@.len() - i,
                {
                    proof {
                        assert(decreases_to!(*self => (*self)->Array_0));
                        assert(decreases_to!(*items => items@));
                        assert(decreases_to!(items@ => items@[i as int]));
                    }
                    out.push(items[i].copy());
                    i = i + 1;
                }
                let r = Json::Array(out);
                proof {
                    lemma_json_view(r);
                    lemma_json_view(*self);
                    assert(elements(out@) =~= elements(items@));
                }
                r
            },
            Json::Object(fields) => {
                let mut out: Vec<(String, Json)> = Vec::new();
                let mut i: usize = 0;
                while i < fields.len()
                    invariant
                        i <= fields@.len(),
                        *self == Json::Object(*fields),
                        out@.len() == i,
                        forall|k: int|
                            0 <= k < i ==> (#[trigger] out@[k]).0@ == fields@[k].0@ && out@[k].1@
                                == fields@[k].1@,
                    decreases fields@.len() - i,
                {
                    proof {
                        assert(decreases_to!(*self => (*self)->Object_0));
                        assert(decreases_to!(*fields => fields@));
                        assert(decreases_to!(fields@ => fields@[i as int]));
                        assert(decreases_to!(fields@[i as int] => fields@[i as int].1));
                    }
                    out.push((fields[i].0.clone(), fields[i].1.copy()));
                    i = i + 1;
                }
                let r = Json::Object(out);
                proof {
                    lemma_json_view(r);
                    lemma_json_view(*self);
                    assert(members_of(out@) =~= members_of(fields@));
                }
                r
            },
        }
    }
}

/// An array of texts.
pub open spec fn text_array(lines: Seq<Seq<char>>) -> JsonView {
    JsonView::Array(Seq::new(lines.len(), |i: int| JsonView::Text(lines[i])))
}

/// An object under construction.
pub struct ObjectBuilder {
    pub fields: Vec<(String, Json)>,
}

impl ObjectBuilder {
    /// An object without members.
    pub fn new() -> (r: ObjectBuilder)
        ensures
            members_of(r.fields@) == Seq::<(Seq<char>, JsonView)>::empty(),
    {
        let r = ObjectBuilder { fields: Vec::new() };
        proof {
            assert(members_of(r.fields@) =~= Seq::empty());
        }
        r
    }

    /// One more member, behind those that are there.
    pub fn put(self, key: &str, value: Json) -> (r: ObjectBuilder)
        ensures
            members_of(r.fields@) == members_of(self.fields@).push((key@, value@)),
    {
        let ghost before = self.fields@;
        let mut fields = self.fields;
        fields.push((key.to_owned(), value));
        proof {
            assert(members_of(fields@) =~= members_of(before).push((key@, value@)));
        }
        ObjectBuilder { fields }
    }

    /// The object with the members put so far.
    pub fn done(self) -> (r: Json)
        ensures
            r@ == JsonView::Object(members_of(self.fields@)),
    {
        let r = Json::Object(self.fields);
        proof {
            lemma_json_view(r);
        }
        r
    }
}

// ---- Reading and writing JSON text ----

/// A value of `serde_json`.
#[verifier::external_type_specification]
#[verifier::external_body]
pub struct ExValue(serde_json::Value);

/// What a value of `serde_json` holds: its variant with what it carries, the members of an object
/// in the order in which they are iterated.
pub uninterp spec fn value_contents(value: serde_json::Value) -> JsonView;

/// The value that the JSON text `text` writes, if it writes one that `serde_json` accepts.
pub uninterp spec fn parsed_json(text: Seq<char>) -> Option<JsonView>;

/// The JSON text that `serde_json` writes for a value: compact, the members of an object in the
/// order of their keys.
pub uninterp spec fn json_text(value: JsonView) -> Seq<char>;

/// `a` comes before `b` in the order of the code points of their characters.
pub open spec fn text_less(a: Seq<char>, b: Seq<char>) -> bool
    decreases a.len(),
{
    if b.len() == 0 {
        false
    } else if a.len() == 0 {
        true
    } else if a[0] != b[0] {
        a[0] < b[0]
    } else {
        text_less(a.skip(1), b.skip(1))
    }
}

/// A text, or an object whose members are texts, in the order of their keys. No key begins with a
/// dollar sign: `serde_json` reserves such keys, and reads an object that begins with one of them as
/// something else.
pub open spec fn is_flat(value: JsonView) -> bool {
    match value {
        JsonView::Text(_) => true,
        JsonView::Object(members) => {
            &&& forall|i: int| 0 <= i < members.len() ==> (#[trigger] members[i]).1 is Text
            &&& forall|i: int, j: int|
                0 <= i < j < members.len() ==> text_less(
                    (#[trigger] members[i]).0,
                    (#[trigger] members[j]).0,
                )
            &&& forall|i: int|
                0 <= i < members.len() ==> ((#[trigger] members[i]).0.len() == 0
                    || members[i].0[0] != '$')
        },
        _ => false,
    }
}

/// `serde_json::from_str` into a `serde_json::Value`: whether it succeeds, and what the value then
/// holds, is a function of the text alone, here called `parsed_json`.
#[verifier::external_body]
fn value_from_text(text: &str) -> (r: Option<serde_json::Value>)
    ensures
        match r {
            Some(value) => parsed_json(text@) == Some(value_contents(value)),
            None => parsed_json(text@) is None,
        },
{
    serde_json::from_str(text).ok()
}

/// The variants of `serde_json::Value` one by one, with what they carry: a number by
/// `Number::as_u64` and `Number::as_i64`, or else by its `Display`.
#[verifier::external_body]
fn json_from_value(value: &serde_json::Value) -> (r: Json)
    ensures
        r@ == value_contents(*value),
{
    match value {
        Value::Null => Json::Null,
        Value::Bool(b) => Json::Bool(*b),
        Value::Number(n) => match (n.as_u64(), n.as_i64()) {
            (Some(u), _) => Json::Unsigned(u),
            (None, Some(i)) => Json::Negative(i),
            (None, None) => Json::Fraction(n.to_string()),
        },
        Value::String(s) => Json::Text(s.clone()),
        Value::Array(a) => Json::Array(a.iter().map(json_from_value).collect()),
        Value::Object(m) => Json::Object(m.iter().map(|(k, v)| (k.clone(), json_from_value(v))).collect()),
    }
}

/// The value that the JSON text `text` writes.
pub fn parse_json(text: &str) -> (r: Option<Json>)
    ensures
        match r {
            Some(value) => parsed_json(text@) == Some(value@),
            None => parsed_json(text@) is None,
        },
{
    match value_from_text(text) {
        Some(value) => Some(json_from_value(&value)),
        None => None,
    }
}

/// `Display` of a `serde_json::Value`: the text is a function of what the value holds, here called
/// `json_text`. A text, and an object of texts without reserved keys, is read back from it by
/// `serde_json::from_str`.
#[verifier::external_body]
fn value_to_text(value: &serde_json::Value) -> (r: String)
    ensures
        r@ == json_text(value_contents(*value)),
        is_flat(value_contents(*value)) ==> parsed_json(r@) == Some(value_contents(*value)),
{
    value.to_string()
}

/// A `serde_json::Value` made variant by variant. `serde_json` keeps the members of an object in
/// the order of their keys, so the value need not hold them in the order of `json`; it is written
/// as the same text. It holds just what `json` holds where that is a text, or an object of texts in
/// the order of their keys, none of them reserved. A `Fraction` that is no number is taken for zero,
/// and one beyond the range of 64-bit floating point for null, and so they are written.
#[verifier::external_body]
fn value_from_json(json: &Json) -> (r: serde_json::Value)
    ensures
        json_text(value_contents(r)) == json_text(json@),
        is_flat(json@) ==> value_contents(r) == json@,
{
    match json {
        Json::Null => Value::Null,
        Json::Bool(b) => Value::Bool(*b),
        Json::Unsigned(n) => Value::from(*n),
        Json::Negative(n) => Value::from(*n),
        Json::Fraction(s) => Value::from(Number::from_f64(s.parse().unwrap_or_default())),
        Json::Text(s) => Value::String(s.clone()),
        Json::Array(a) => Value::Array(a.iter().map(value_from_json).collect()),
        Json::Object(m) => Value::Object(m.iter().map(|(k, v)| (k.clone(), value_from_json(v))).collect()),
    }
}

/// The JSON text of a value. Texts, and objects of texts in the order of their keys, none of them
/// reserved, are read back from it.
pub fn render_json(value: &Json) -> (r: String)
    ensures
        r@ == json_text(value@),
        is_flat(value@) ==> parsed_json(r@) == Some(value@),
{
    let made = value_from_json(value);
    value_to_text(&made)
}

/// A member is found by its key: the first member of the object that has it, and none where no
/// member has it.
pub proof fn law_member_is_the_first_with_its_key(
    members: Seq<(Seq<char>, JsonView)>,
    key: Seq<char>,
)
    ensures
        forall|i: int|
            0 <= i < members.len() && (#[trigger] members[i]).0 == key && (forall|j: int|
                0 <= j < i ==> (#[trigger] members[j]).0 != key) ==> JsonView::Object(members).get(
                key,
            ) == Some(members[i].1),
        (forall|i: int| 0 <= i < members.len() ==> (#[trigger] members[i]).0 != key)
            ==> JsonView::Object(members).get(key) is None,
{
    lemma_member_from(members, key, 0);
}

/// The search for a member stops at the first that has the key.
proof fn lemma_member_from(members: Seq<(Seq<char>, JsonView)>, key: Seq<char>, from: int)
    requires
        0 <= from,
    ensures
        forall|i: int|
            from <= i < members.len() && (#[trigger] members[i]).0 == key && (forall|j: int|
                from <= j < i ==> (#[trigger] members[j]).0 != key) ==> member_from(
                members,
                key,
                from,
            ) == Some(members[i].1),
        (forall|i: int| from <= i < members.len() ==> (#[trigger] members[i]).0 != key)
            ==> member_from(members, key, from) is None,
    decreases members.len() - from,
{
    if from < members.len() && members[from].0 != key {
        lemma_member_from(members, key, from + 1);
    }
}

/// A text is read as a text and a number that is not negative as a number; nothing else is, and an
/// object alone has members.
pub proof fn law_values_are_read_as_what_they_are(text: Seq<char>, n: u64, other: i64, flag: bool)
    ensures
        JsonView::Text(text).as_text() == Some(text),
        JsonView::Unsigned(n).as_unsigned() == Some(n),
        JsonView::Text(text).as_unsigned() is None,
        JsonView::Unsigned(n).as_text() is None,
        JsonView::Negative(other).as_unsigned() is None,
        JsonView::Fraction(text).as_unsigned() is None,
        JsonView::Bool(flag).as_text() is None,
        JsonView::Null.as_text() is None,
        JsonView::Text(text).get(text) is None,
{
}

} // verus!
