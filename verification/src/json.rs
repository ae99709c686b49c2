//! JSON documents as trees.
//!
//! The text of a document is read by `serde_json`; what it found is
//! handed on as a [`Json`] tree, and everything that inspects a document
//! works on that tree.
use crate::error::ConversionError;
use crate::error::ShapeError;
use serde_json::Value;
use vstd::prelude::*;

verus! {

/// A JSON number.
#[derive(Copy, Clone, Debug, PartialEq, Eq, Structural)]
pub enum Number {
    /// A non-negative integer.
    PosInt(u64),
    /// A negative integer.
    NegInt(i64),
    /// Any other number, as the bit pattern of the binary64 value that
    /// stands for it.
    Float(u64),
}

/// A JSON document.
#[derive(Debug, PartialEq, Eq)]
pub enum Json {
    /// The literal `null`.
    Null,
    /// One of the literals `true` and `false`.
    Bool(bool),
    /// A number.
    Number(Number),
    /// A string.
    String(String),
    /// An array and its items, in order.
    Array(Vec<Json>),
    /// An object and its members, in order.
    Object(Vec<(String, Json)>),
}

/// The mathematical value of a [`Json`] document.
pub enum JsonValue {
    Null,
    Bool(bool),
    Number(Number),
    String(Seq<char>),
    Array(Seq<JsonValue>),
    Object(Seq<(Seq<char>, JsonValue)>),
}

/// The value of a document: that of each of its parts, in place.
pub open spec fn tree(json: Json) -> JsonValue
    decreases json,
{
    match json {
        Json::Null => JsonValue::Null,
        Json::Bool(b) => JsonValue::Bool(b),
        Json::Number(n) => JsonValue::Number(n),
        Json::String(s) => JsonValue::String(s@),
        Json::Array(items) => JsonValue::Array(
            Seq::new(
                items@.len(),
                |i: int|
                    if 0 <= i < items@.len() {
                        tree(items@[i])
                    } else {
                        JsonValue::Null
                    },
            ),
        ),
        Json::Object(members) => JsonValue::Object(
            Seq::new(
                members@.len(),
                |i: int|
                    if 0 <= i < members@.len() {
                        (members@[i].0@, tree(members@[i].1))
                    } else {
                        (Seq::empty(), JsonValue::Null)
                    },
            ),
        ),
    }
}

impl View for Json {
    type V = JsonValue;

    open spec fn view(&self) -> JsonValue {
        tree(*self)
    }
}

/// No two of the members share a key.
pub open spec fn distinct_keys<T>(members: Seq<(Seq<char>, T)>) -> bool {
    forall|i: int, j: int| 0 <= i < j < members.len() ==> members[i].0 != members[j].0
}

/// The value of the first member named `key`, if there is one.
pub open spec fn member(members: Seq<(Seq<char>, JsonValue)>, key: Seq<char>) -> Option<JsonValue>
    decreases members.len(),
{
    if members.len() == 0 {
        None
    } else if members[0].0 == key {
        Some(members[0].1)
    } else {
        member(members.skip(1), key)
    }
}

impl JsonValue {
    /// No object anywhere in the document holds a key twice.
    pub open spec fn wf(self) -> bool
        decreases self,
    {
        match self {
            JsonValue::Array(items) => forall|i: int|
                0 <= i < items.len() ==> (#[trigger] items[i]).wf(),
            JsonValue::Object(members) => distinct_keys(members) && forall|i: int|
                0 <= i < members.len() ==> (#[trigger] members[i]).1.wf(),
            _ => true,
        }
    }

    /// The member named `key` of this object. A member that is `null`
    /// counts as absent.
    pub open spec fn optional(self, key: Seq<char>) -> Result<Option<JsonValue>, ShapeError> {
        match self {
            JsonValue::Object(members) => match member(members, key) {
                None | Some(JsonValue::Null) => Ok(None),
                Some(value) => Ok(Some(value)),
            },
            _ => Err(ShapeError::ExpectedObject),
        }
    }

    /// The member named `key` of this object, which has to be there.
    pub open spec fn required(self, key: Seq<char>) -> Result<JsonValue, ShapeError> {
        match self {
            JsonValue::Object(members) => match member(members, key) {
                None => Err(ShapeError::Missing),
                Some(value) => Ok(value),
            },
            _ => Err(ShapeError::ExpectedObject),
        }
    }

    /// The string that the member named `key` holds.
    pub open spec fn string_at(self, key: Seq<char>) -> Result<Seq<char>, ShapeError> {
        match self.required(key) {
            Ok(JsonValue::String(s)) => Ok(s),
            Ok(_) => Err(ShapeError::ExpectedString),
            Err(e) => Err(e),
        }
    }

    /// The number that the member named `key` holds.
    pub open spec fn number_at(self, key: Seq<char>) -> Result<Number, ShapeError> {
        match self.required(key) {
            Ok(JsonValue::Number(n)) => Ok(n),
            Ok(_) => Err(ShapeError::ExpectedNumber),
            Err(e) => Err(e),
        }
    }

    /// The non-negative integer that the member named `key` holds.
    pub open spec fn unsigned_at(self, key: Seq<char>) -> Result<u64, ShapeError> {
        match self.required(key) {
            Ok(JsonValue::Number(Number::PosInt(n))) => Ok(n),
            Ok(_) => Err(ShapeError::ExpectedUnsigned),
            Err(e) => Err(e),
        }
    }
}

/// `serde_json::Value`: a document as `serde_json` holds it. Nothing
/// is known of what is inside but through [`value_tree`].
#[verifier::external_type_specification]
#[verifier::external_body]
pub struct ExValue(Value);

/// `serde_json::Error`: the reason for which a text was rejected. It is
/// handed on as it is.
#[verifier::external_type_specification]
#[verifier::external_body]
pub struct ExError(serde_json::Error);

/// The document that a `serde_json::Value` holds.
pub uninterp spec fn value_tree(value: Value) -> JsonValue;

/// The document that `serde_json` reads from a text, or `None` where it
/// rejects the text.
pub uninterp spec fn json_text(bytes: Seq<u8>) -> Option<JsonValue>;

/// The outermost layer of a `serde_json::Value`: what kind of document
/// it is, and the parts that it is made of.
enum Node<'a> {
    Null,
    Bool(bool),
    Number(Number),
    String(&'a String),
    Array(&'a Vec<Value>),
    Object(Vec<(&'a String, &'a Value)>),
}

/// The document that is made of the given parts.
spec fn node_tree(node: Node) -> JsonValue {
    match node {
        Node::Null => JsonValue::Null,
        Node::Bool(b) => JsonValue::Bool(b),
        Node::Number(n) => JsonValue::Number(n),
        Node::String(s) => JsonValue::String(s@),
        Node::Array(items) => JsonValue::Array(items@.map_values(|item: Value| value_tree(item))),
        Node::Object(members) => JsonValue::Object(
            members@.map_values(|m: (&String, &Value)| (m.0@, value_tree(*m.1))),
        ),
    }
}

/// Calls `serde_json::from_slice` for a `serde_json::Value`. What
/// comes back depends on the bytes alone: the document read from them,
/// or an error exactly where `serde_json` rejects them.
#[verifier::external_body]
fn parse_value(bytes: &[u8]) -> (r: Result<Value, serde_json::Error>)
    ensures
        r matches Ok(v) ==> json_text(bytes@) == Some(value_tree(v)),
        r is Err ==> json_text(bytes@) is None,
{
    serde_json::from_slice::<Value>(bytes)
}

/// Takes the outermost layer off a `serde_json::Value`, variant by
/// variant. A number is told apart by `Number::as_u64` and
/// `Number::as_i64`; the members of an object come from `Map::iter`, in
/// the order in which it hands them out, and a `Map` holds no key twice.
#[verifier::external_body]
fn node_of(value: &Value) -> (node: Node<'_>)
    ensures
        node_tree(node) == value_tree(*value),
        node_tree(node) matches JsonValue::Object(members) ==> distinct_keys(members),
{
    match value {
        Value::Null => Node::Null,
        Value::Bool(b) => Node::Bool(*b),
        Value::Number(n) => Node::Number(match (n.as_u64(), n.as_i64()) {
            (Some(u), _) => Number::PosInt(u),
            (_, Some(i)) => Number::NegInt(i),
            _ => Number::Float(n.as_f64().unwrap_or_default().to_bits()),
        }),
        Value::String(s) => Node::String(s),
        Value::Array(a) => Node::Array(a),
        Value::Object(m) => Node::Object(m.iter().collect()),
    }
}

/// The values of the items of an array, one by one.
pub open spec fn items_view(items: Seq<Json>) -> Seq<JsonValue> {
    Seq::new(items.len(), |i: int| items[i]@)
}

/// The value of an array is made of the values of its items.
pub proof fn lemma_array_view(items: Vec<Json>)
    ensures
        Json::Array(items)@ == JsonValue::Array(items_view(items@)),
{
    assert(Json::Array(items)@->Array_0 =~= items_view(items@));
}

/// Copies a `serde_json::Value` into a tree, layer by layer.
fn json_from_value(value: &Value) -> (json: Json)
    ensures
        json@ == value_tree(*value),
        json@.wf(),
    decreases value_tree(*value),
{
    match node_of(value) {
        Node::Null => Json::Null,
        Node::Bool(b) => Json::Bool(b),
        Node::Number(n) => Json::Number(n),
        Node::String(s) => Json::String(s.clone()),
        Node::Array(items) => {
            let ghost whole = items@.map_values(|item: Value| value_tree(item));
            let mut copies: Vec<Json> = Vec::new();
            let mut i: usize = 0;
            while i < items.len()
                invariant
                    i <= items@.len(),
                    copies@.len() == i,
                    whole == items@.map_values(|item: Value| value_tree(item)),
                    value_tree(*value) == JsonValue::Array(whole),
                    forall|j: int|
                        0 <= j < i ==> (#[trigger] copies@[j])@ == whole[j] && copies@[j]@.wf(),
                decreases items.len() - i,
            {
                proof {
                    let item = value_tree(items@[i as int]);
                    assert(whole[i as int] == item);
                    let doc = value_tree(*value);
                    assert(decreases_to!(doc => doc->Array_0));
                    assert(decreases_to!(doc->Array_0 => doc->Array_0[i as int]));
                }
                copies.push(json_from_value(&items[i]));
                i += 1;
            }
            proof {
                lemma_array_view(copies);
                assert(items_view(copies@) =~= whole);
            }
            Json::Array(copies)
        },
        Node::Object(members) => {
            let ghost whole = members@.map_values(
                |m: (&String, &Value)| (m.0@, value_tree(*m.1)),
            );
            let mut copies: Vec<(String, Json)> = Vec::new();
            let mut i: usize = 0;
            while i < members.len()
                invariant
                    i <= members@.len(),
                    copies@.len() == i,
                    whole == members@.map_values(
                        |m: (&String, &Value)| (m.0@, value_tree(*m.1)),
                    ),
                    value_tree(*value) == JsonValue::Object(whole),
                    forall|j: int|
                        0 <= j < i ==> (#[trigger] copies@[j]).0@ == whole[j].0 && copies@[j].1@
                            == whole[j].1 && copies@[j].1@.wf(),
                decreases members.len() - i,
            {
                proof {
                    let member = value_tree(*members@[i as int].1);
                    assert(whole[i as int] == (members@[i as int].0@, member));
                    let doc = value_tree(*value);
                    assert(decreases_to!(doc => doc->Object_0));
                    assert(decreases_to!(doc->Object_0 => doc->Object_0[i as int]));
                    assert(decreases_to!(doc->Object_0[i as int] => doc->Object_0[i as int].1));
                }
                let key = members[i].0.clone();
                let copy = json_from_value(members[i].1);
                copies.push((key, copy));
                i += 1;
            }
            proof {
                lemma_object_view(copies);
                assert(members_view(copies@) =~= whole);
            }
            Json::Object(copies)
        },
    }
}

/// The values of the members of an object, one by one.
pub open spec fn members_view(members: Seq<(String, Json)>) -> Seq<(Seq<char>, JsonValue)> {
    Seq::new(members.len(), |i: int| (members[i].0@, members[i].1@))
}

/// The value of an object is made of the values of its members.
pub proof fn lemma_object_view(members: Vec<(String, Json)>)
    ensures
        Json::Object(members)@ == JsonValue::Object(members_view(members@)),
{
    assert(Json::Object(members)@->Object_0 =~= members_view(members@));
}

/// A member named `key` that no earlier member shares its key with is
/// the one that is found under `key`.
pub proof fn lemma_member_found(members: Seq<(Seq<char>, JsonValue)>, key: Seq<char>, i: int)
    requires
        0 <= i < members.len(),
        members[i].0 == key,
        forall|j: int| 0 <= j < i ==> (#[trigger] members[j]).0 != key,
    ensures
        member(members, key) == Some(members[i].1),
    decreases i,
{
    if i > 0 {
        let rest = members.skip(1);
        assert(rest[i - 1] == members[i]);
        assert forall|j: int| 0 <= j < i - 1 implies (#[trigger] rest[j]).0 != key by {
            assert(rest[j] == members[j + 1]);
        }
        lemma_member_found(rest, key, i - 1);
    }
}

impl Json {
    /// Reads a document from its text.
    ///
    /// The result is the document that `serde_json` finds in `bytes`, and
    /// an error exactly where it finds none. No object of the document
    /// holds a key twice.
    pub fn from_slice(bytes: &[u8]) -> (r: Result<Json, ConversionError>)
        ensures
            r matches Ok(json) ==> json_text(bytes@) == Some(json@) && json@.wf(),
            r matches Err(e) ==> json_text(bytes@) is None && e is Json,
    {
        match parse_value(bytes) {
            Ok(value) => Ok(json_from_value(&value)),
            Err(e) => Err(ConversionError::Json(e)),
        }
    }

    /// An object with the given members.
    pub fn object(members: Vec<(String, Json)>) -> (json: Json)
        ensures
            json@ == JsonValue::Object(members_view(members@)),
    {
        proof {
            lemma_object_view(members);
        }
        Json::Object(members)
    }

    /// Appends a member to the members of an object that is being made.
    pub fn push_member(members: &mut Vec<(String, Json)>, key: &str, value: Json)
        ensures
            members_view(final(members)@) == members_view(old(members)@).push((key@, value@)),
    {
        members.push((key.to_string(), value));
        assert(members_view(members@) =~= members_view(old(members)@).push((key@, value@)));
    }

    /// The member named `key` of this object, where `null` counts as
    /// absent.
    pub fn optional(&self, key: &str) -> (r: Result<Option<&Json>, ShapeError>)
        ensures
            r matches Ok(Some(json)) ==> self@.optional(key@) == Ok::<_, ShapeError>(Some(json@)),
            r matches Ok(None) ==> self@.optional(key@) == Ok::<_, ShapeError>(None::<JsonValue>),
            r matches Err(e) ==> self@.optional(key@) == Err::<Option<JsonValue>, _>(e),
    {
        match self.find(key) {
            Ok(Some(Json::Null)) => Ok(None),
            Ok(found) => Ok(found),
            Err(e) => Err(e),
        }
    }

    /// The member named `key` of this object, which has to be there.
    pub fn required(&self, key: &str) -> (r: Result<&Json, ShapeError>)
        ensures
            r matches Ok(json) ==> self@.required(key@) == Ok::<_, ShapeError>(json@),
            r matches Err(e) ==> self@.required(key@) == Err::<JsonValue, _>(e),
    {
        match self.find(key) {
            Ok(Some(json)) => Ok(json),
            Ok(None) => Err(ShapeError::Missing),
            Err(e) => Err(e),
        }
    }

    /// The string that the member named `key` holds.
    pub fn string_at(&self, key: &str) -> (r: Result<String, ShapeError>)
        ensures
            r matches Ok(s) ==> self@.string_at(key@) == Ok::<_, ShapeError>(s@),
            r matches Err(e) ==> self@.string_at(key@) == Err::<Seq<char>, _>(e),
    {
        match self.required(key) {
            Ok(Json::String(s)) => Ok(s.clone()),
            Ok(_) => Err(ShapeError::ExpectedString),
            Err(e) => Err(e),
        }
    }

    /// The number that the member named `key` holds.
    pub fn number_at(&self, key: &str) -> (r: Result<Number, ShapeError>)
        ensures
            r == self@.number_at(key@),
    {
        match self.required(key) {
            Ok(Json::Number(n)) => Ok(*n),
            Ok(_) => Err(ShapeError::ExpectedNumber),
            Err(e) => Err(e),
        }
    }

    /// The non-negative integer that the member named `key` holds.
    pub fn unsigned_at(&self, key: &str) -> (r: Result<u64, ShapeError>)
        ensures
            r == self@.unsigned_at(key@),
    {
        match self.required(key) {
            Ok(Json::Number(Number::PosInt(n))) => Ok(*n),
            Ok(_) => Err(ShapeError::ExpectedUnsigned),
            Err(e) => Err(e),
        }
    }

    /// The first member named `key` of this object.
    fn find(&self, key: &str) -> (r: Result<Option<&Json>, ShapeError>)
        ensures
            match self@ {
                JsonValue::Object(members) => match member(members, key@) {
                    Some(value) => r matches Ok(Some(json)) && json@ == value,
                    None => r matches Ok(None),
                },
                _ => r == Err::<Option<&Json>, _>(ShapeError::ExpectedObject),
            },
    {
        match self {
            Json::Object(members) => {
                let wanted = key.to_string();
                let ghost all = self@->Object_0;
                let mut i: usize = 0;
                assert(all.skip(0) == all);
                while i < members.len()
                    invariant
                        i <= members@.len(),
                        wanted@ == key@,
                        self@ == JsonValue::Object(all),
                        *self == Json::Object(*members),
                        member(all, key@) == member(all.skip(i as int), key@),
                    decreases members.len() - i,
                {
                    proof {
                        lemma_object_view(*members);
                        assert(all.skip(i as int)[0] == all[i as int]);
                        assert(all.skip(i as int).skip(1) == all.skip(i as int + 1));
                    }
                    if members[i].0 == wanted {
                        return Ok(Some(&members[i].1));
                    }
                    i += 1;
                }
                Ok(None)
            },
            _ => Err(ShapeError::ExpectedObject),
        }
    }
}

} // verus!
