//! JSON documents as plain values.

use crate::text::same_text;
use serde_json::Value;
use vstd::prelude::*;

verus! {

/// A JSON number.
#[derive(Clone, Copy, Debug, PartialEq, Eq, Structural)]
pub enum JsonNumber {
    /// A natural number.
    PosInt(u64),
    /// A negative integer.
    NegInt(i64),
    /// Any other number, as the bits of the double that is nearest to it.
    Float(u64),
}

/// Whether the bits are those of a finite double: one whose eleven exponent bits
/// are not all ones. JSON can write no other.
pub open spec fn is_finite_double(bits: u64) -> bool {
    (bits / 0x10_0000_0000_0000) % 0x800 != 0x7ff
}

/// A JSON document.
#[derive(Debug, PartialEq, Eq)]
pub enum Json {
    Null,
    Bool(bool),
    Number(JsonNumber),
    Text(String),
    Array(Vec<Json>),
    /// The members with their names. Where a name occurs twice the first counts.
    Object(Vec<(String, Json)>),
}

/// The mathematical model of a `Json`.
pub enum JsonView {
    Null,
    Bool(bool),
    Number(JsonNumber),
    Text(Seq<char>),
    Array(Seq<JsonView>),
    Object(Seq<(Seq<char>, JsonView)>),
}

impl Json {
    /// The tree that this document is.
    pub open spec fn tree(self) -> JsonView
        decreases self,
    {
        match self {
            Json::Null => JsonView::Null,
            Json::Bool(b) => JsonView::Bool(b),
            Json::Number(n) => JsonView::Number(n),
            Json::Text(s) => JsonView::Text(s@),
            Json::Array(items) => JsonView::Array(
                Seq::new(
                    items@.len(),
                    |i: int|
                        if 0 <= i < items@.len() {
                            items@[i].tree()
                        } else {
                            JsonView::Null
                        },
                ),
            ),
            Json::Object(members) => JsonView::Object(
                Seq::new(
                    members@.len(),
                    |i: int|
                        if 0 <= i < members@.len() {
                            (members@[i].0@, members@[i].1.tree())
                        } else {
                            (Seq::empty(), JsonView::Null)
                        },
                ),
            ),
        }
    }
}

impl View for Json {
    type V = JsonView;

    open spec fn view(&self) -> JsonView {
        self.tree()
    }
}

impl DeepView for Json {
    type V = JsonView;

    open spec fn deep_view(&self) -> JsonView {
        self.tree()
    }
}

/// An array is the sequence of its items.
pub proof fn lemma_array_tree(items: Vec<Json>)
    ensures
        Json::Array(items)@ == JsonView::Array(items.deep_view()),
{
    assert(Json::Array(items)@->Array_0 =~= items.deep_view());
}

/// An object is the sequence of its members.
pub proof fn lemma_object_tree(members: Vec<(String, Json)>)
    ensures
        Json::Object(members)@ == JsonView::Object(members.deep_view()),
{
    assert(Json::Object(members)@->Object_0 =~= members.deep_view());
}

/// The value of the first member with the given name.
pub open spec fn member(members: Seq<(Seq<char>, JsonView)>, name: Seq<char>) -> Option<JsonView>
    decreases members.len(),
{
    if members.len() == 0 {
        None
    } else if members[0].0 == name {
        Some(members[0].1)
    } else {
        member(members.skip(1), name)
    }
}

impl JsonView {
    /// The document for a double, given by its bits: the number, or null where the
    /// double is infinite or not a number.
    pub open spec fn of_double(bits: u64) -> JsonView {
        if is_finite_double(bits) {
            JsonView::Number(JsonNumber::Float(bits))
        } else {
            JsonView::Null
        }
    }

    /// The member of an object with the given name.
    pub open spec fn get(self, name: Seq<char>) -> Option<JsonView> {
        match self {
            JsonView::Object(members) => member(members, name),
            _ => None,
        }
    }

    /// The text, where the document is one.
    pub open spec fn as_str(self) -> Option<Seq<char>> {
        match self {
            JsonView::Text(s) => Some(s),
            _ => None,
        }
    }

    /// The text of the member with the given name, where it is a text.
    pub open spec fn text_of(self, name: Seq<char>) -> Option<Seq<char>> {
        match self.get(name) {
            Some(value) => value.as_str(),
            None => None,
        }
    }
}

/// The value of the first member with the given name.
pub fn find_member<'a>(members: &'a Vec<(String, Json)>, name: &str) -> (r: Option<&'a Json>)
    ensures
        r.deep_view() == member(members.deep_view(), name@),
{
    let ghost all = members.deep_view();
    let mut i: usize = 0;
    assert(all.skip(0) =~= all);
    while i < members.len()
        invariant
            i <= members@.len(),
            all == members.deep_view(),
            member(all, name@) == member(all.skip(i as int), name@),
        decreases members.len() - i,
    {
        assert(all.skip(i as int)[0] == members@[i as int].deep_view());
        assert(all.skip(i as int).skip(1) =~= all.skip(i + 1));
        if same_text(members[i].0.as_str(), name) {
            return Some(&members[i].1);
        }
        i = i + 1;
    }
    None
}

impl Json {
    /// The document for a double, given by its bits: the number, or null where the
    /// double is infinite or not a number.
    pub fn of_double(bits: u64) -> (r: Json)
        ensures
            r@ == JsonView::of_double(bits),
    {
        if (bits / 0x10_0000_0000_0000) % 0x800 != 0x7ff {
            Json::Number(JsonNumber::Float(bits))
        } else {
            Json::Null
        }
    }

    /// The member of an object with the given name.
    pub fn get(&self, name: &str) -> (r: Option<&Json>)
        ensures
            r.deep_view() == self@.get(name@),
    {
        match self {
            Json::Object(members) => {
                proof {
                    lemma_object_tree(*members);
                }
                find_member(members, name)
            },
            _ => None,
        }
    }
}

/// A copy of each item.
fn copy_items(items: &Vec<Json>) -> (r: Vec<Json>)
    ensures
        r.deep_view() == items.deep_view(),
    decreases items,
{
    let mut r: Vec<Json> = Vec::new();
    let mut i: usize = 0;
    while i < items.len()
        invariant
            i <= items@.len(),
            r.deep_view() == items.deep_view().take(i as int),
        decreases items.len() - i,
    {
        let ghost before = r.deep_view();
        r.push(items[i].copy());
        assert(r.deep_view() =~= before.push(items.deep_view()[i as int]));
        i = i + 1;
    }
    r
}

/// A copy of each member.
pub fn copy_members(members: &Vec<(String, Json)>) -> (r: Vec<(String, Json)>)
    ensures
        r.deep_view() == members.deep_view(),
    decreases members,
{
    let mut r: Vec<(String, Json)> = Vec::new();
    let mut i: usize = 0;
    while i < members.len()
        invariant
            i <= members@.len(),
            r.deep_view() == members.deep_view().take(i as int),
        decreases members.len() - i,
    {
        let ghost before = r.deep_view();
        r.push((members[i].0.clone(), members[i].1.copy()));
        assert(r.deep_view() =~= before.push(members.deep_view()[i as int]));
        i = i + 1;
    }
    r
}

impl Json {
    /// A copy of the document.
    pub fn copy(&self) -> (r: Json)
        ensures
            r@ == self@,
        decreases self,
    {
        match self {
            Json::Null => Json::Null,
            Json::Bool(b) => Json::Bool(*b),
            Json::Number(n) => Json::Number(*n),
            Json::Text(s) => Json::Text(s.clone()),
            Json::Array(items) => {
                let copied = copy_items(items);
                proof {
                    lemma_array_tree(*items);
                    lemma_array_tree(copied);
                }
                Json::Array(copied)
            },
            Json::Object(members) => {
                let copied = copy_members(members);
                proof {
                    lemma_object_tree(*members);
                    lemma_object_tree(copied);
                }
                Json::Object(copied)
            },
        }
    }
}

/// The document type of `serde_json`.
#[verifier::external_type_specification]
#[verifier::external_body]
pub struct ExValue(Value);

/// The document that a `serde_json::Value` holds.
pub uninterp spec fn value_tree(value: Value) -> JsonView;

/// The document that `serde_json::from_slice` reads from the bytes; `None` where
/// it refuses them.
pub uninterp spec fn json_text(bytes: Seq<u8>) -> Option<JsonView>;

/// `serde_json::from_slice` for a `serde_json::Value`. What is believed of it: whether it
/// accepts the bytes, and the document it returns, depend on the bytes alone.
#[verifier::external_body]
fn parse_value(bytes: &[u8]) -> (r: Option<Value>)
    ensures
        match r {
            Some(value) => json_text(bytes@) == Some(value_tree(value)),
            None => json_text(bytes@) is None,
        },
{
    serde_json::from_slice::<Value>(bytes).ok()
}

/// Takes a `serde_json::Value` apart, each of its variants into the variant of
/// the same kind.
#[verifier::external_body]
fn json_from_value(value: Value) -> (r: Json)
    ensures
        r@ == value_tree(value),
{
    match value {
        Value::Null => Json::Null,
        Value::Bool(b) => Json::Bool(b),
        Value::Number(n) => Json::Number(match (n.as_u64(), n.as_i64()) {
            (Some(u), _) => JsonNumber::PosInt(u),
            (None, Some(i)) => JsonNumber::NegInt(i),
            (None, None) => JsonNumber::Float(n.as_f64().unwrap_or_default().to_bits()),
        }),
        Value::String(s) => Json::Text(s),
        Value::Array(v) => Json::Array(v.into_iter().map(json_from_value).collect()),
        Value::Object(m) => Json::Object(m.into_iter().map(|(k, v)| (k, json_from_value(v))).collect()),
    }
}

/// The bits of the double that `serde_json::Number::as_f64` returns for an integer.
pub uninterp spec fn integer_double(n: i128) -> u64;

/// `serde_json::Number::as_f64` for an integer, which `serde_json::Number::from_i128`
/// takes where it fits in an `i64` or a `u64`. What is believed of it: it returns
/// a double, which depends on the integer alone. How it rounds an integer that is
/// not a double is left unsaid.
#[verifier::external_body]
fn integer_as_double(n: i128) -> (bits: u64)
    requires
        i64::MIN <= n <= u64::MAX,
    ensures
        bits == integer_double(n),
{
    let number = serde_json::Number::from_i128(n).expect("an integer of 64 bits");
    number.as_f64().expect("an integer has a double").to_bits()
}

impl JsonNumber {
    /// The bits of the double that the number is read as.
    pub open spec fn double(self) -> u64 {
        match self {
            JsonNumber::PosInt(n) => integer_double(n as i128),
            JsonNumber::NegInt(n) => integer_double(n as i128),
            JsonNumber::Float(bits) => bits,
        }
    }

    /// Reads the number as a double, and returns its bits.
    pub fn as_double(self) -> (bits: u64)
        ensures
            bits == self.double(),
    {
        match self {
            JsonNumber::PosInt(n) => integer_as_double(n as i128),
            JsonNumber::NegInt(n) => integer_as_double(n as i128),
            JsonNumber::Float(bits) => bits,
        }
    }
}

/// Reads a JSON document; `None` where the bytes are not one.
pub fn read_json(bytes: &[u8]) -> (r: Option<Json>)
    ensures
        r.deep_view() == json_text(bytes@),
{
    match parse_value(bytes) {
        Some(value) => Some(json_from_value(value)),
        None => None,
    }
}

/// A document shows each of its parts: the leaf with its value, the array item by
/// item, the object member by member.
pub proof fn a_document_shows_its_parts(
    b: bool,
    n: JsonNumber,
    s: String,
    items: Vec<Json>,
    members: Vec<(String, Json)>,
)
    ensures
        Json::Null@ == JsonView::Null,
        Json::Bool(b)@ == JsonView::Bool(b),
        Json::Number(n)@ == JsonView::Number(n),
        Json::Text(s)@ == JsonView::Text(s@),
        Json::Array(items)@ matches JsonView::Array(shown) && shown.len() == items@.len()
            && forall|i: int| 0 <= i < items@.len() ==> #[trigger] shown[i] == items@[i]@,
        Json::Object(members)@ matches JsonView::Object(shown) && shown.len() == members@.len()
            && forall|i: int|
            0 <= i < members@.len() ==> (#[trigger] shown[i]).0 == members@[i].0@ && shown[i].1
                == members@[i].1@,
        Json::Array(items).deep_view() == Json::Array(items)@,
{
}

/// The member with a name is the first that has it: those behind it do not count.
pub proof fn the_first_member_counts(
    members: Seq<(Seq<char>, JsonView)>,
    name: Seq<char>,
    i: int,
)
    requires
        0 <= i < members.len(),
        members[i].0 == name,
        forall|j: int| 0 <= j < i ==> (#[trigger] members[j]).0 != name,
    ensures
        member(members, name) == Some(members[i].1),
        JsonView::Object(members).get(name) == Some(members[i].1),
    decreases i,
{
    if i > 0 {
        assert(members[0].0 != name);
        let rest = members.skip(1);
        assert forall|j: int| 0 <= j < i - 1 implies (#[trigger] rest[j]).0 != name by {
            assert(rest[j] == members[j + 1]);
        }
        the_first_member_counts(rest, name, i - 1);
    }
}

/// An object without a member of the name has none to give, and neither has a
/// document that is no object.
pub proof fn an_absent_member_is_not_found(
    members: Seq<(Seq<char>, JsonView)>,
    name: Seq<char>,
    other: JsonView,
)
    requires
        forall|j: int| 0 <= j < members.len() ==> (#[trigger] members[j]).0 != name,
        !(other is Object),
    ensures
        member(members, name) is None,
        JsonView::Object(members).get(name) is None,
        other.get(name) is None,
    decreases members.len(),
{
    if members.len() > 0 {
        let rest = members.skip(1);
        assert forall|j: int| 0 <= j < rest.len() implies (#[trigger] rest[j]).0 != name by {
            assert(rest[j] == members[j + 1]);
        }
        an_absent_member_is_not_found(rest, name, other);
    }
}

/// The text of a member is the whole of that text, and there is none where the
/// member is absent or anything but a text.
pub proof fn only_a_text_is_read_as_one(document: JsonView, name: Seq<char>, s: Seq<char>)
    ensures
        document.get(name) == Some(JsonView::Text(s)) <==> document.text_of(name) == Some(s),
        document.as_str() == Some(s) <==> document == JsonView::Text(s),
        document.get(name) is None ==> document.text_of(name) is None,
{
}

/// A double whose exponent bits are all ones is infinite or not a number, and is
/// written as null; every other double is written as the number that it is.
pub proof fn only_finite_doubles_are_written(sign: u64, exponent: u64, fraction: u64)
    requires
        sign <= 1,
        exponent <= 2047,
        fraction < 4503599627370496,
    ensures
        ({
            let bits = (sign * 9223372036854775808 + exponent * 4503599627370496 + fraction) as u64;
            JsonView::of_double(bits) == (if exponent == 2047 {
                JsonView::Null
            } else {
                JsonView::Number(JsonNumber::Float(bits))
            })
        }),
{
    let bits = (sign * 9223372036854775808 + exponent * 4503599627370496 + fraction) as u64;
    assert(bits / 0x10_0000_0000_0000 == sign * 2048 + exponent);
    assert((sign * 2048 + exponent) % 0x800 == exponent);
}

/// A double is read as itself, bit for bit, and an integer as one double whether or
/// not it could be negative.
pub proof fn numbers_are_read_as_doubles(bits: u64, n: u64, m: i64)
    ensures
        JsonNumber::Float(bits).double() == bits,
        JsonNumber::PosInt(n).double() == integer_double(n as i128),
        JsonNumber::NegInt(m).double() == integer_double(m as i128),
        n == m ==> JsonNumber::PosInt(n).double() == JsonNumber::NegInt(m).double(),
{
}

} // verus!
