//! JSON documents as plain values.

use crate::text::same_text;
use serde_json::Value;
use vstd::prelude::*;

verus! {

/// A double-precision number, held as its IEEE 754 bits. The library carries
/// such numbers from the printer to its answers and never computes with them.
#[derive(Debug, Clone, Copy, PartialEq, Eq, Structural)]
pub struct Double {
    pub bits: u64,
}

/// The number zero.
pub open spec fn zero() -> Double {
    Double { bits: 0 }
}

/// A JSON number.
#[derive(Debug, Clone, Copy, PartialEq, Eq, Structural)]
pub enum Number {
    /// An integer that is not negative.
    Unsigned(u64),
    /// A negative integer.
    Negative(i64),
    /// Any other number.
    Float(Double),
}

/// A JSON document.
#[derive(Debug)]
pub enum Json {
    Null,
    Bool(bool),
    Number(Number),
    String(String),
    Array(Vec<Json>),
    /// The members of an object. A document that was parsed has no two members
    /// of one name.
    Object(Vec<(String, Json)>),
}

/// What a [`Json`] document says.
pub enum JsonView {
    Null,
    Bool(bool),
    Number(Number),
    String(Seq<char>),
    Array(Seq<JsonView>),
    Object(Seq<(Seq<char>, JsonView)>),
}

impl Json {
    /// What the document says.
    pub open spec fn model(self) -> JsonView
        decreases self,
    {
        match self {
            Json::Null => JsonView::Null,
            Json::Bool(b) => JsonView::Bool(b),
            Json::Number(n) => JsonView::Number(n),
            Json::String(s) => JsonView::String(s@),
            Json::Array(items) => JsonView::Array(Json::item_models(items@)),
            Json::Object(members) => JsonView::Object(Json::member_models(members@)),
        }
    }

    /// What the items say.
    pub open spec fn item_models(items: Seq<Json>) -> Seq<JsonView>
        decreases items,
    {
        if items.len() == 0 {
            Seq::empty()
        } else {
            Json::item_models(items.drop_last()).push(items.last().model())
        }
    }

    /// What the members say.
    pub open spec fn member_models(members: Seq<(String, Json)>) -> Seq<(Seq<char>, JsonView)>
        decreases members,
    {
        if members.len() == 0 {
            Seq::empty()
        } else {
            Json::member_models(members.drop_last()).push(
                (members.last().0@, members.last().1.model()),
            )
        }
    }
}

impl View for Json {
    type V = JsonView;

    open spec fn view(&self) -> JsonView {
        self.model()
    }
}

/// The models of items are taken one by one.
pub proof fn lemma_item_models(items: Seq<Json>)
    ensures
        Json::item_models(items).len() == items.len(),
        forall|i: int|
            0 <= i < items.len() ==> #[trigger] Json::item_models(items)[i] == items[i].model(),
    decreases items.len(),
{
    if items.len() > 0 {
        lemma_item_models(items.drop_last());
    }
}

/// The models of members are taken one by one.
pub proof fn lemma_member_models(members: Seq<(String, Json)>)
    ensures
        Json::member_models(members).len() == members.len(),
        forall|i: int|
            0 <= i < members.len() ==> #[trigger] Json::member_models(members)[i] == (
                members[i].0@,
                members[i].1.model(),
            ),
    decreases members.len(),
{
    if members.len() > 0 {
        lemma_member_models(members.drop_last());
    }
}

/// The first of `members` that is named `key`.
pub open spec fn find_member(members: Seq<(Seq<char>, JsonView)>, key: Seq<char>) -> Option<
    JsonView,
>
    decreases members.len(),
{
    if members.len() == 0 {
        None
    } else if members[0].0 == key {
        Some(members[0].1)
    } else {
        find_member(members.skip(1), key)
    }
}

/// The member named `key` is found where it first stands, or nowhere.
pub proof fn lemma_find_member(members: Seq<(Seq<char>, JsonView)>, key: Seq<char>, at: int)
    requires
        0 <= at <= members.len(),
        forall|i: int| 0 <= i < at ==> (#[trigger] members[i]).0 != key,
        at < members.len() ==> members[at].0 == key,
    ensures
        find_member(members, key) == if at < members.len() {
            Some(members[at].1)
        } else {
            None
        },
    decreases at,
{
    if at > 0 {
        assert(members[0].0 != key);
        lemma_find_member(members.skip(1), key, at - 1);
    }
}

impl JsonView {
    /// The member named `key`, of an object.
    pub open spec fn get(self, key: Seq<char>) -> Option<JsonView> {
        match self {
            JsonView::Object(members) => find_member(members, key),
            _ => None,
        }
    }

    /// The text, of a string.
    pub open spec fn text(self) -> Option<Seq<char>> {
        match self {
            JsonView::String(s) => Some(s),
            _ => None,
        }
    }

    /// The number, of an integer that fits an `i64`.
    pub open spec fn signed(self) -> Option<i64> {
        match self {
            JsonView::Number(Number::Unsigned(n)) => if n <= i64::MAX {
                Some(n as i64)
            } else {
                None
            },
            JsonView::Number(Number::Negative(n)) => Some(n),
            _ => None,
        }
    }

    /// The number, of an integer that is not negative.
    pub open spec fn unsigned(self) -> Option<u64> {
        match self {
            JsonView::Number(Number::Unsigned(n)) => Some(n),
            _ => None,
        }
    }

    /// The number, as a double.
    pub open spec fn double(self) -> Option<Double> {
        match self {
            JsonView::Number(Number::Unsigned(n)) => Some(
                Double { bits: integer_double(n as int) },
            ),
            JsonView::Number(Number::Negative(n)) => Some(
                Double { bits: integer_double(n as int) },
            ),
            JsonView::Number(Number::Float(d)) => Some(d),
            _ => None,
        }
    }

    /// The text of the member named `key`.
    pub open spec fn text_at(self, key: Seq<char>) -> Option<Seq<char>> {
        match self.get(key) {
            Some(value) => value.text(),
            None => None,
        }
    }

    /// The `i64` that the member named `key` holds.
    pub open spec fn signed_at(self, key: Seq<char>) -> Option<i64> {
        match self.get(key) {
            Some(value) => value.signed(),
            None => None,
        }
    }

    /// The `u64` that the member named `key` holds.
    pub open spec fn unsigned_at(self, key: Seq<char>) -> Option<u64> {
        match self.get(key) {
            Some(value) => value.unsigned(),
            None => None,
        }
    }

    /// The number that the member named `key` holds, as a double.
    pub open spec fn double_at(self, key: Seq<char>) -> Option<Double> {
        match self.get(key) {
            Some(value) => value.double(),
            None => None,
        }
    }
}

/// The bits of the double that an integer becomes in `serde_json`.
pub uninterp spec fn integer_double(n: int) -> u64;

/// The double that an integer becomes, through `serde_json::Number::as_f64`.
///
/// Trusted: every integer that a number can hold becomes one, whose bits, named
/// [`integer_double`], depend on the integer alone. What they are is not stated.
#[verifier::external_body]
fn integer_as_double(n: i128) -> (bits: u64)
    requires
        i64::MIN <= n <= u64::MAX,
    ensures
        bits == integer_double(n as int),
{
    serde_json::Number::from_i128(n).unwrap().as_f64().unwrap().to_bits()
}

impl Json {
    /// The member named `key`, of an object.
    pub fn get(&self, key: &str) -> (r: Option<&Json>)
        ensures
            match r {
                Some(value) => self@.get(key@) == Some(value@),
                None => self@.get(key@) is None,
            },
    {
        match self {
            Json::Object(members) => {
                let ghost models = Json::member_models(members@);
                proof {
                    lemma_member_models(members@);
                    assert(models.skip(0) == models);
                }
                for i in 0..members.len()
                    invariant
                        models == Json::member_models(members@),
                        models.len() == members@.len(),
                        forall|j: int|
                            0 <= j < members@.len() ==> #[trigger] models[j] == (
                                members@[j].0@,
                                members@[j].1.model(),
                            ),
                        find_member(models, key@) == find_member(models.skip(i as int), key@),
                        self@ == JsonView::Object(models),
                {
                    assert(models.skip(i as int)[0] == models[i as int]);
                    if same_text(members[i].0.as_str(), key) {
                        return Some(&members[i].1);
                    }
                    assert(models.skip(i as int).skip(1) == models.skip(i + 1));
                }
                None
            },
            _ => None,
        }
    }

    /// The text, of a string.
    pub fn as_str(&self) -> (r: Option<&str>)
        ensures
            match r {
                Some(s) => self@.text() == Some(s@),
                None => self@.text() is None,
            },
    {
        match self {
            Json::String(s) => Some(s.as_str()),
            _ => None,
        }
    }

    /// The number, of an integer that fits an `i64`.
    pub fn as_i64(&self) -> (r: Option<i64>)
        ensures
            r == self@.signed(),
    {
        match self {
            Json::Number(Number::Unsigned(n)) => if *n <= i64::MAX as u64 {
                Some(*n as i64)
            } else {
                None
            },
            Json::Number(Number::Negative(n)) => Some(*n),
            _ => None,
        }
    }

    /// The number, of an integer that is not negative.
    pub fn as_u64(&self) -> (r: Option<u64>)
        ensures
            r == self@.unsigned(),
    {
        match self {
            Json::Number(Number::Unsigned(n)) => Some(*n),
            _ => None,
        }
    }

    /// The number, as a double.
    pub fn as_double(&self) -> (r: Option<Double>)
        ensures
            r == self@.double(),
    {
        match self {
            Json::Number(Number::Unsigned(n)) => Some(
                Double { bits: integer_as_double(*n as i128) },
            ),
            Json::Number(Number::Negative(n)) => Some(
                Double { bits: integer_as_double(*n as i128) },
            ),
            Json::Number(Number::Float(d)) => Some(*d),
            _ => None,
        }
    }

    /// The text of the member named `key`.
    pub fn str_at(&self, key: &str) -> (r: Option<&str>)
        ensures
            match r {
                Some(s) => self@.text_at(key@) == Some(s@),
                None => self@.text_at(key@) is None,
            },
    {
        match self.get(key) {
            Some(value) => value.as_str(),
            None => None,
        }
    }

    /// The `i64` that the member named `key` holds.
    pub fn i64_at(&self, key: &str) -> (r: Option<i64>)
        ensures
            r == self@.signed_at(key@),
    {
        match self.get(key) {
            Some(value) => value.as_i64(),
            None => None,
        }
    }

    /// The `u64` that the member named `key` holds.
    pub fn u64_at(&self, key: &str) -> (r: Option<u64>)
        ensures
            r == self@.unsigned_at(key@),
    {
        match self.get(key) {
            Some(value) => value.as_u64(),
            None => None,
        }
    }

    /// The number that the member named `key` holds, as a double.
    pub fn double_at(&self, key: &str) -> (r: Option<Double>)
        ensures
            r == self@.double_at(key@),
    {
        match self.get(key) {
            Some(value) => value.as_double(),
            None => None,
        }
    }
}

/// The members, and one more.
pub fn with_member(members: Vec<(String, Json)>, name: &str, value: Json) -> (r: Vec<
    (String, Json),
>)
    ensures
        Json::member_models(r@) == Json::member_models(members@).push((name@, value@)),
{
    let ghost before = members@;
    let mut members = members;
    let member = (name.to_owned(), value);
    members.push(member);
    assert(members@.drop_last() == before);
    members
}

/// A document in the form that `serde_json` parses it to.
#[verifier::external_type_specification]
#[verifier::external_body]
pub struct ExValue(serde_json::Value);

/// Why `serde_json` refused a document.
#[verifier::external_type_specification]
#[verifier::external_body]
pub struct ExJsonError(serde_json::Error);

/// What a `serde_json::Value` holds.
pub uninterp spec fn value_contents(value: Value) -> JsonView;

/// The document that `serde_json` reads from bytes, if they are one.
pub uninterp spec fn parsed(payload: Seq<u8>) -> Option<JsonView>;

/// One level of a `serde_json::Value`.
enum Shape<'a> {
    Null,
    Bool(bool),
    Number(Number),
    String(&'a String),
    Array(Vec<&'a Value>),
    Object(Vec<(&'a String, &'a Value)>),
}

impl<'a> Shape<'a> {
    /// What the level holds, with the contents of the values below it.
    spec fn contents(self) -> JsonView {
        match self {
            Shape::Null => JsonView::Null,
            Shape::Bool(b) => JsonView::Bool(b),
            Shape::Number(n) => JsonView::Number(n),
            Shape::String(s) => JsonView::String(s@),
            Shape::Array(items) => JsonView::Array(
                Seq::new(items@.len(), |i: int| value_contents(*items@[i])),
            ),
            Shape::Object(members) => JsonView::Object(
                Seq::new(
                    members@.len(),
                    |i: int| (members@[i].0@, value_contents(*members@[i].1)),
                ),
            ),
        }
    }
}

/// Reads a document, through `serde_json::from_slice`.
///
/// Trusted: whether the bytes are a document, and what it holds, depends on the
/// bytes alone; the result is named [`parsed`].
#[verifier::external_body]
fn parse_value(payload: &[u8]) -> (r: Result<Value, serde_json::Error>)
    ensures
        match r {
            Ok(value) => parsed(payload@) == Some(value_contents(value)),
            Err(_) => parsed(payload@) is None,
        },
{
    serde_json::from_slice::<Value>(payload)
}

/// Tells the variants of a `serde_json::Value` apart. An integer that is not
/// negative has an `as_u64`, a negative one an `as_i64` only.
///
/// Trusted: the level holds what the value holds, named [`value_contents`].
#[verifier::external_body]
fn split_value<'a>(value: &'a Value) -> (r: Shape<'a>)
    ensures
        r.contents() == value_contents(*value),
{
    match value {
        Value::Null => Shape::Null,
        Value::Bool(b) => Shape::Bool(*b),
        Value::Number(n) => match (n.as_u64(), n.as_i64(), n.as_f64()) {
            (Some(n), _, _) => Shape::Number(Number::Unsigned(n)),
            (_, Some(n), _) => Shape::Number(Number::Negative(n)),
            (_, _, x) => Shape::Number(Number::Float(Double { bits: x.unwrap().to_bits() })),
        },
        Value::String(s) => Shape::String(s),
        Value::Array(items) => Shape::Array(items.iter().collect()),
        Value::Object(members) => Shape::Object(members.iter().collect()),
    }
}

/// The document that a `serde_json::Value` holds.
fn from_value(value: &Value) -> (doc: Json)
    ensures
        doc@ == value_contents(*value),
    decreases value_contents(*value),
{
    match split_value(value) {
        Shape::Null => Json::Null,
        Shape::Bool(b) => Json::Bool(b),
        Shape::Number(n) => Json::Number(n),
        Shape::String(s) => Json::String(s.clone()),
        Shape::Array(values) => {
            let mut items: Vec<Json> = Vec::new();
            let ghost contents = Seq::new(values@.len(), |i: int| value_contents(*values@[i]));
            for i in 0..values.len()
                invariant
                    value_contents(*value) == JsonView::Array(contents),
                    contents == Seq::new(values@.len(), |i: int| value_contents(*values@[i])),
                    items@.len() == i,
                    forall|j: int| 0 <= j < i ==> #[trigger] items@[j].model() == contents[j],
            {
                assert(contents[i as int] == value_contents(*values@[i as int]));
                proof {
                    let whole = value_contents(*value);
                    assert(decreases_to!(whole => whole->Array_0));
                    assert(decreases_to!(whole->Array_0 => whole->Array_0[i as int]));
                }
                items.push(from_value(values[i]));
            }
            proof {
                lemma_item_models(items@);
                assert(Json::item_models(items@) == contents);
            }
            Json::Array(items)
        },
        Shape::Object(values) => {
            let mut members: Vec<(String, Json)> = Vec::new();
            let ghost contents = Seq::new(
                values@.len(),
                |i: int| (values@[i].0@, value_contents(*values@[i].1)),
            );
            for i in 0..values.len()
                invariant
                    value_contents(*value) == JsonView::Object(contents),
                    contents == Seq::new(
                        values@.len(),
                        |i: int| (values@[i].0@, value_contents(*values@[i].1)),
                    ),
                    members@.len() == i,
                    forall|j: int|
                        0 <= j < i ==> (#[trigger] members@[j]).0@ == contents[j].0
                            && members@[j].1.model() == contents[j].1,
            {
                assert(contents[i as int].1 == value_contents(*values@[i as int].1));
                proof {
                    let whole = value_contents(*value);
                    assert(decreases_to!(whole => whole->Object_0));
                    assert(decreases_to!(whole->Object_0 => whole->Object_0[i as int]));
                    assert(decreases_to!(whole->Object_0[i as int] => whole->Object_0[i as int].1));
                }
                members.push((values[i].0.clone(), from_value(values[i].1)));
            }
            proof {
                lemma_member_models(members@);
                assert(Json::member_models(members@) == contents);
            }
            Json::Object(members)
        },
    }
}

/// Reads a document.
pub fn parse(payload: &[u8]) -> (r: Option<Json>)
    ensures
        match r {
            Some(doc) => parsed(payload@) == Some(doc@),
            None => parsed(payload@) is None,
        },
{
    match parse_value(payload) {
        Ok(value) => Some(from_value(&value)),
        Err(_) => None,
    }
}

/// A member is found exactly when there is one of its name, and it is the first
/// of that name. Only an object has members.
pub proof fn law_first_member_is_found(doc: JsonView, key: Seq<char>)
    ensures
        match doc {
            JsonView::Object(members) => match doc.get(key) {
                Some(value) => exists|at: int|
                    0 <= at < members.len() && #[trigger] members[at] == (key, value) && forall|
                        i: int,
                    |
                        0 <= i < at ==> (#[trigger] members[i]).0 != key,
                None => forall|i: int| 0 <= i < members.len() ==> (#[trigger] members[i]).0 != key,
            },
            _ => doc.get(key) is None,
        },
{
    if let JsonView::Object(members) = doc {
        lemma_member_is_first(members, key);
    }
}

/// The member that is found is the first of its name.
proof fn lemma_member_is_first(members: Seq<(Seq<char>, JsonView)>, key: Seq<char>)
    ensures
        match find_member(members, key) {
            Some(value) => exists|at: int|
                0 <= at < members.len() && #[trigger] members[at] == (key, value) && forall|i: int|
                    0 <= i < at ==> (#[trigger] members[i]).0 != key,
            None => forall|i: int| 0 <= i < members.len() ==> (#[trigger] members[i]).0 != key,
        },
    decreases members.len(),
{
    if members.len() > 0 {
        if members[0].0 == key {
            assert(members[0] == (key, find_member(members, key)->0));
        } else {
            let rest = members.skip(1);
            lemma_member_is_first(rest, key);
            assert forall|i: int| 1 <= i < members.len() implies members[i] == rest[i - 1] by {}
            if find_member(rest, key) is Some {
                let value = find_member(rest, key)->0;
                let at = choose|at: int|
                    0 <= at < rest.len() && #[trigger] rest[at] == (key, value) && forall|i: int|
                        0 <= i < at ==> (#[trigger] rest[i]).0 != key;
                assert(members[at + 1] == (key, value));
                assert forall|i: int| 0 <= i < at + 1 implies (#[trigger] members[i]).0 != key by {
                    if i > 0 {
                        assert(rest[i - 1].0 != key);
                    }
                }
            } else {
                assert forall|i: int| 0 <= i < members.len() implies (#[trigger] members[i]).0
                    != key by {
                    if i > 0 {
                        assert(rest[i - 1].0 != key);
                    }
                }
            }
        }
    }
}

/// A number is read as the integer that it is, where that fits, and text as
/// itself; nothing is read from a value of another kind.
pub proof fn law_values_are_read_as_they_are(doc: JsonView)
    ensures
        doc.text() matches Some(s) ==> doc == JsonView::String(s),
        doc is String ==> doc.text() is Some,
        match doc {
            JsonView::Number(Number::Unsigned(n)) => {
                &&& doc.unsigned() == Some(n)
                &&& (doc.signed() matches Some(m) ==> m == n)
                &&& (doc.signed() is Some <==> n <= 0x7fff_ffff_ffff_ffff)
            },
            JsonView::Number(Number::Negative(n)) => doc.signed() == Some(n)
                && doc.unsigned() is None,
            JsonView::Number(Number::Float(d)) => doc.double() == Some(d) && doc.signed() is None
                && doc.unsigned() is None,
            _ => true,
        },
        doc.double() is Some <==> doc is Number,
        doc !is Number ==> doc.signed() is None && doc.unsigned() is None,
{
}

/// What is read at a name is what is read from the member of that name.
pub proof fn law_reading_at_a_name_reads_the_member(doc: JsonView, key: Seq<char>)
    ensures
        match doc.get(key) {
            Some(value) => {
                &&& doc.text_at(key) == value.text()
                &&& doc.signed_at(key) == value.signed()
                &&& doc.unsigned_at(key) == value.unsigned()
                &&& doc.double_at(key) == value.double()
            },
            None => {
                &&& doc.text_at(key) is None
                &&& doc.signed_at(key) is None
                &&& doc.unsigned_at(key) is None
                &&& doc.double_at(key) is None
            },
        },
{
}

} // verus!
