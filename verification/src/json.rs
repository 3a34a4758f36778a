//! JSON documents, as far as the library reads them.
//!
//! The text is parsed by `serde_json`. What it yields is copied, value for
//! value, into [`JsonValue`], a type that verified code can take apart.

use vstd::prelude::*;

verus! {

/// A JSON value.
#[derive(Debug)]
pub enum JsonValue {
    Null,
    Bool(bool),
    /// A number, in the notation in which `serde_json` prints it.
    Number(String),
    String(String),
    Array(Vec<JsonValue>),
    /// The members of an object, each name once.
    Object(Vec<JsonMember>),
}

/// One member of a JSON object.
#[derive(Debug)]
pub struct JsonMember {
    pub key: String,
    pub value: JsonValue,
}

/// The mathematical content of a [`JsonValue`].
pub enum JsonModel {
    Null,
    Bool(bool),
    Number(Seq<char>),
    String(Seq<char>),
    Array(Seq<JsonModel>),
    Object(Seq<(Seq<char>, JsonModel)>),
}

impl View for JsonValue {
    type V = JsonModel;

    open spec fn view(&self) -> JsonModel
        decreases self,
    {
        match self {
            JsonValue::Null => JsonModel::Null,
            JsonValue::Bool(b) => JsonModel::Bool(*b),
            JsonValue::Number(n) => JsonModel::Number(n@),
            JsonValue::String(s) => JsonModel::String(s@),
            JsonValue::Array(items) => JsonModel::Array(
                Seq::new(
                    items@.len(),
                    |i: int|
                        if 0 <= i < items@.len() {
                            items@[i].view()
                        } else {
                            JsonModel::Null
                        },
                ),
            ),
            JsonValue::Object(members) => JsonModel::Object(
                Seq::new(
                    members@.len(),
                    |i: int|
                        if 0 <= i < members@.len() {
                            (members@[i].key@, members@[i].value.view())
                        } else {
                            (Seq::empty(), JsonModel::Null)
                        },
                ),
            ),
        }
    }
}

impl JsonModel {
    /// The members of an object; `None` for any other value.
    pub open spec fn members(self) -> Option<Seq<(Seq<char>, JsonModel)>> {
        match self {
            JsonModel::Object(members) => Some(members),
            _ => None,
        }
    }

    /// The text of a string; `None` for any other value.
    pub open spec fn text(self) -> Option<Seq<char>> {
        match self {
            JsonModel::String(text) => Some(text),
            _ => None,
        }
    }
}

/// The value of the first member named `key`, if there is one.
pub open spec fn lookup(members: Seq<(Seq<char>, JsonModel)>, key: Seq<char>) -> Option<JsonModel>
    decreases members.len(),
{
    if members.len() == 0 {
        None
    } else if members[0].0 == key {
        Some(members[0].1)
    } else {
        lookup(members.drop_first(), key)
    }
}

/// The members of an object as the object's view holds them.
pub open spec fn member_models(members: Seq<JsonMember>) -> Seq<(Seq<char>, JsonModel)> {
    Seq::new(members.len(), |i: int| (members[i].key@, members[i].value@))
}

impl JsonValue {
    /// The members of an object; `None` for any other value.
    pub fn members(&self) -> (members: Option<&Vec<JsonMember>>)
        ensures
            match members {
                Some(found) => self@.members() == Some(member_models(found@)),
                None => self@.members() is None,
            },
    {
        match self {
            JsonValue::Object(members) => {
                assert(self@.members()->0 =~= member_models(members@)) by {
                    reveal_with_fuel(<JsonValue as View>::view, 2);
                }
                Some(members)
            },
            _ => None,
        }
    }

    /// The text of a string; `None` for any other value.
    pub fn text(&self) -> (text: Option<&String>)
        ensures
            match text {
                Some(found) => self@.text() == Some(found@),
                None => self@.text() is None,
            },
    {
        match self {
            JsonValue::String(text) => Some(text),
            _ => None,
        }
    }
}

/// Looks `key` up among the members of an object.
pub fn member<'a>(members: &'a Vec<JsonMember>, key: &str) -> (value: Option<&'a JsonValue>)
    ensures
        match value {
            Some(found) => lookup(member_models(members@), key@) == Some(found@),
            None => lookup(member_models(members@), key@) is None,
        },
{
    let wanted = String::from_str(key);
    let ghost all = member_models(members@);
    let mut i: usize = 0;
    assert(all.skip(0) == all);
    while i < members.len()
        invariant
            i <= members.len(),
            wanted@ == key@,
            all == member_models(members@),
            lookup(all, key@) == lookup(all.skip(i as int), key@),
        decreases members.len() - i,
    {
        assert(all.skip(i as int)[0] == all[i as int]);
        assert(all.skip(i as int).drop_first() == all.skip(i + 1));
        if members[i].key == wanted {
            return Some(&members[i].value);
        }
        i = i + 1;
    }
    None
}

/// What `serde_json` makes of a text: the document, or the message of its
/// error.
pub uninterp spec fn json_document(text: Seq<u8>) -> Result<JsonModel, Seq<char>>;

/// What a value of `serde_json` holds.
pub uninterp spec fn json_content(value: serde_json::Value) -> JsonModel;

/// `serde_json::Value`, carried from the parser to [`json_from`] and not
/// looked into on the way.
#[verifier::external_type_specification]
#[verifier::external_body]
pub struct ExValue(serde_json::Value);

/// `serde_json::from_slice`, reading a `serde_json::Value`. The result is a
/// function of the text alone: the document that the text denotes, or the
/// message with which the parser refused it.
#[verifier::external_body]
fn read_document(text: &[u8]) -> (read: Result<serde_json::Value, String>)
    ensures
        match read {
            Ok(value) => json_document(text@) == Ok::<JsonModel, Seq<char>>(json_content(value)),
            Err(message) => json_document(text@) == Err::<JsonModel, Seq<char>>(message@),
        },
{
    match serde_json::from_slice::<serde_json::Value>(text) {
        Ok(value) => Ok(value),
        Err(error) => Err(error.to_string()),
    }
}

/// Takes a `serde_json::Value` apart by its variants and copies it into a
/// [`JsonValue`], variant for variant and member for member, keeping the
/// order in which `serde_json` hands the members out. A number is copied in
/// the notation that `serde_json::Number` prints. The copy holds what the
/// value holds, and nothing is claimed of what that is.
#[verifier::external_body]
fn json_from(value: serde_json::Value) -> (copy: JsonValue)
    ensures
        copy@ == json_content(value),
{
    match value {
        serde_json::Value::Null => JsonValue::Null,
        serde_json::Value::Bool(b) => JsonValue::Bool(b),
        serde_json::Value::Number(n) => JsonValue::Number(n.to_string()),
        serde_json::Value::String(s) => JsonValue::String(s),
        serde_json::Value::Array(items) => JsonValue::Array(
            items.into_iter().map(json_from).collect(),
        ),
        serde_json::Value::Object(members) => JsonValue::Object(
            members.into_iter().map(|(key, value)| JsonMember { key, value: json_from(value) }).collect(),
        ),
    }
}

/// Parses a JSON text.
pub fn parse(text: &[u8]) -> (parsed: Result<JsonValue, String>)
    ensures
        match parsed {
            Ok(value) => json_document(text@) == Ok::<JsonModel, Seq<char>>(value@),
            Err(message) => json_document(text@) == Err::<JsonModel, Seq<char>>(message@),
        },
{
    match read_document(text) {
        Ok(value) => Ok(json_from(value)),
        Err(message) => Err(message),
    }
}

} // verus!
