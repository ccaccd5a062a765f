//! A JSON document as plain data, with accessors that never fail: a member
//! that is absent, or of another type than the one asked for, reads as the
//! zero value of that type.

use vstd::prelude::*;
use vstd::string::*;

verus! {

/// A JSON document as a mathematical value.
///
/// A number is kept as the 64 bit signed integer that it holds, if it holds
/// one. An object is kept as the sequence of its members.
pub enum JsonValue {
    Null,
    Bool(bool),
    Number(Option<i64>),
    Text(Seq<char>),
    Array(Seq<JsonValue>),
    Object(Seq<(Seq<char>, JsonValue)>),
}

/// The value of the first member named `key` at or after position `from`.
pub open spec fn find_from(
    entries: Seq<(Seq<char>, JsonValue)>,
    key: Seq<char>,
    from: int,
) -> Option<JsonValue>
    decreases entries.len() - from,
{
    if from < 0 || from >= entries.len() {
        None
    } else if entries[from].0 == key {
        Some(entries[from].1)
    } else {
        find_from(entries, key, from + 1)
    }
}

impl JsonValue {
    /// The member of an object under `key`; `None` if there is no such member
    /// or the value is no object.
    pub open spec fn member(self, key: Seq<char>) -> Option<JsonValue> {
        match self {
            JsonValue::Object(entries) => find_from(entries, key, 0),
            _ => None,
        }
    }

    /// The member under `key`, or `Null` where `member` finds none.
    pub open spec fn at(self, key: Seq<char>) -> JsonValue {
        match self.member(key) {
            Some(value) => value,
            None => JsonValue::Null,
        }
    }

    /// The characters of a text value.
    pub open spec fn text(self) -> Option<Seq<char>> {
        match self {
            JsonValue::Text(characters) => Some(characters),
            _ => None,
        }
    }

    /// The integer of a number that holds one.
    pub open spec fn integer(self) -> Option<i64> {
        match self {
            JsonValue::Number(number) => number,
            _ => None,
        }
    }

    /// The truth value of a boolean.
    pub open spec fn flag(self) -> Option<bool> {
        match self {
            JsonValue::Bool(flag) => Some(flag),
            _ => None,
        }
    }

    /// The elements of an array.
    pub open spec fn items(self) -> Option<Seq<JsonValue>> {
        match self {
            JsonValue::Array(items) => Some(items),
            _ => None,
        }
    }

    /// The text under `key`, or the empty text.
    pub open spec fn text_or_empty(self, key: Seq<char>) -> Seq<char> {
        match self.at(key).text() {
            Some(characters) => characters,
            None => Seq::empty(),
        }
    }

    /// The integer under `key`, or zero.
    pub open spec fn integer_or_zero(self, key: Seq<char>) -> i64 {
        match self.at(key).integer() {
            Some(number) => number,
            None => 0,
        }
    }

    /// The truth value under `key`, or false.
    pub open spec fn flag_or_false(self, key: Seq<char>) -> bool {
        match self.at(key).flag() {
            Some(flag) => flag,
            None => false,
        }
    }
}

/// A member that is absent reads as the zero value of whatever type is asked
/// for.
pub proof fn lemma_absent_member_reads_as_zero(doc: JsonValue, key: Seq<char>)
    requires
        doc.member(key) is None,
    ensures
        doc.at(key) == JsonValue::Null,
        doc.text_or_empty(key) == Seq::<char>::empty(),
        doc.integer_or_zero(key) == 0,
        doc.flag_or_false(key) == false,
{
}

/// A member of another type than the one asked for reads as the zero value of
/// the type asked for.
pub proof fn lemma_member_of_another_type_reads_as_zero(doc: JsonValue, key: Seq<char>)
    ensures
        !(doc.at(key) is Text) ==> doc.text_or_empty(key) == Seq::<char>::empty(),
        !(doc.at(key) is Number) ==> doc.integer_or_zero(key) == 0,
        !(doc.at(key) is Bool) ==> doc.flag_or_false(key) == false,
{
}

/// A JSON document.
#[derive(Debug, PartialEq, Eq)]
pub enum Json {
    Null,
    Bool(bool),
    /// A number, as the 64 bit signed integer that it holds, if it holds one.
    Number(Option<i64>),
    Text(String),
    Array(Vec<Json>),
    /// An object, as its members in the order in which they are kept.
    Object(Vec<(String, Json)>),
}

/// The mathematical value of a document.
pub open spec fn json_view(doc: Json) -> JsonValue
    decreases doc,
{
    match doc {
        Json::Null => JsonValue::Null,
        Json::Bool(flag) => JsonValue::Bool(flag),
        Json::Number(number) => JsonValue::Number(number),
        Json::Text(text) => JsonValue::Text(text@),
        Json::Array(items) => JsonValue::Array(
            Seq::new(
                items@.len(),
                |i: int|
                    if 0 <= i < items@.len() {
                        json_view(items@[i])
                    } else {
                        JsonValue::Null
                    },
            ),
        ),
        Json::Object(entries) => JsonValue::Object(
            Seq::new(
                entries@.len(),
                |i: int|
                    if 0 <= i < entries@.len() {
                        (entries@[i].0@, json_view(entries@[i].1))
                    } else {
                        (Seq::empty(), JsonValue::Null)
                    },
            ),
        ),
    }
}

impl View for Json {
    type V = JsonValue;

    open spec fn view(&self) -> JsonValue {
        json_view(*self)
    }
}

/// The mathematical values of a sequence of documents.
pub open spec fn views_of(items: Seq<Json>) -> Seq<JsonValue> {
    Seq::new(items.len(), |i: int| items[i]@)
}

impl Json {
    /// Looks up the member of an object under `key`.
    pub fn get(&self, key: &str) -> (found: Option<&Json>)
        ensures
            match found {
                Some(value) => self@.member(key@) == Some(value@),
                None => self@.member(key@) is None,
            },
    {
        match self {
            Json::Object(entries) => {
                let wanted = String::from_str(key);
                let ghost members = self@->Object_0;
                let mut i: usize = 0;
                while i < entries.len()
                    invariant
                        i <= entries.len(),
                        wanted@ == key@,
                        self@ == JsonValue::Object(members),
                        members.len() == entries@.len(),
                        forall|k: int|
                            0 <= k < entries@.len() ==> #[trigger] members[k] == (
                                entries@[k].0@,
                                entries@[k].1@,
                            ),
                        find_from(members, key@, 0) == find_from(members, key@, i as int),
                    decreases entries.len() - i,
                {
                    if entries[i].0 == wanted {
                        return Some(&entries[i].1);
                    }
                    i = i + 1;
                }
                None
            },
            _ => None,
        }
    }

    /// The member under `key`, or `otherwise` where there is none.
    pub fn get_or<'a>(&'a self, key: &str, otherwise: &'a Json) -> (found: &'a Json)
        ensures
            found@ == match self@.member(key@) {
                Some(value) => value,
                None => otherwise@,
            },
    {
        match self.get(key) {
            Some(value) => value,
            None => otherwise,
        }
    }

    /// The text of a text value.
    pub fn as_str(&self) -> (text: Option<&str>)
        ensures
            match text {
                Some(characters) => self@.text() == Some(characters@),
                None => self@.text() is None,
            },
    {
        match self {
            Json::Text(text) => Some(text.as_str()),
            _ => None,
        }
    }

    /// The integer of a number that holds one.
    pub fn as_i64(&self) -> (number: Option<i64>)
        ensures
            number == self@.integer(),
    {
        match self {
            Json::Number(number) => *number,
            _ => None,
        }
    }

    /// The truth value of a boolean.
    pub fn as_bool(&self) -> (flag: Option<bool>)
        ensures
            flag == self@.flag(),
    {
        match self {
            Json::Bool(flag) => Some(*flag),
            _ => None,
        }
    }

    /// The elements of an array.
    pub fn as_array(&self) -> (elements: Option<&Vec<Json>>)
        ensures
            match elements {
                Some(items) => self@.items() == Some(views_of(items@)),
                None => self@.items() is None,
            },
    {
        match self {
            Json::Array(items) => {
                assert(self@->Array_0 =~= views_of(items@));
                Some(items)
            },
            _ => None,
        }
    }

    /// The text under `key`, or the empty text where the member is absent or
    /// no text.
    pub fn text_or_empty(&self, key: &str) -> (text: String)
        ensures
            text@ == self@.text_or_empty(key@),
    {
        match self.get(key) {
            Some(value) => match value.as_str() {
                Some(characters) => String::from_str(characters),
                None => String::new(),
            },
            None => String::new(),
        }
    }

    /// The integer under `key`, or zero where the member is absent or holds
    /// no integer.
    pub fn integer_or_zero(&self, key: &str) -> (number: i64)
        ensures
            number == self@.integer_or_zero(key@),
    {
        match self.get(key) {
            Some(value) => match value.as_i64() {
                Some(number) => number,
                None => 0,
            },
            None => 0,
        }
    }

    /// The truth value under `key`, or false where the member is absent or
    /// no boolean.
    pub fn flag_or_false(&self, key: &str) -> (flag: bool)
        ensures
            flag == self@.flag_or_false(key@),
    {
        match self.get(key) {
            Some(value) => match value.as_bool() {
                Some(flag) => flag,
                None => false,
            },
            None => false,
        }
    }
}

/// `serde_json::Value`, the tree that the JSON parser builds. Nothing inside
/// it is visible to the proofs; it is copied into a `Json` at once.
#[verifier::external_type_specification]
#[verifier::external_body]
pub struct ExJsonTree(serde_json::Value);

/// What the JSON parser makes of a text: the document that the text writes,
/// or the parser's message where it writes none.
pub uninterp spec fn parsed_json(text: Seq<char>) -> Result<JsonValue, Seq<char>>;

/// The document that a tree of the JSON parser holds.
pub uninterp spec fn tree_document(tree: serde_json::Value) -> JsonValue;

/// Parses a text with `serde_json::from_str`. The parser is a function of the
/// text alone, so its outcome has a name, `parsed_json`: the document that the
/// tree holds on success, the text of the parser's error otherwise.
#[verifier::external_body]
fn read_tree(text: &str) -> (outcome: Result<serde_json::Value, String>)
    ensures
        match outcome {
            Ok(tree) => parsed_json(text@) == Ok::<JsonValue, Seq<char>>(tree_document(tree)),
            Err(reason) => parsed_json(text@) == Err::<JsonValue, Seq<char>>(reason@),
        },
{
    match serde_json::from_str::<serde_json::Value>(text) {
        Ok(tree) => Ok(tree),
        Err(error) => Err(error.to_string()),
    }
}

/// Copies a tree of `serde_json::Value` into a `Json`, variant by variant: the
/// result is the document that the tree holds. A number keeps what
/// `Number::as_i64` gives; the members of an object come in the order in
/// which the tree's map hands them out.
#[verifier::external_body]
fn json_of_value(tree: serde_json::Value) -> (doc: Json)
    ensures
        doc@ == tree_document(tree),
{
    match tree {
        serde_json::Value::Null => Json::Null,
        serde_json::Value::Bool(flag) => Json::Bool(flag),
        serde_json::Value::Number(number) => Json::Number(number.as_i64()),
        serde_json::Value::String(text) => Json::Text(text),
        serde_json::Value::Array(items) => Json::Array(
            items.into_iter().map(json_of_value).collect(),
        ),
        serde_json::Value::Object(entries) => Json::Object(
            entries.into_iter().map(|(key, member)| (key, json_of_value(member))).collect(),
        ),
    }
}

/// Parses a text as JSON: the document that it writes, or the parser's
/// message where it writes none.
pub fn parse(text: &str) -> (outcome: Result<Json, String>)
    ensures
        match outcome {
            Ok(doc) => parsed_json(text@) == Ok::<JsonValue, Seq<char>>(doc@),
            Err(reason) => parsed_json(text@) == Err::<JsonValue, Seq<char>>(reason@),
        },
{
    match read_tree(text) {
        Ok(tree) => Ok(json_of_value(tree)),
        Err(reason) => Err(reason),
    }
}

} // verus!
