//! JSON documents as the bridge sees them.
//!
//! A document is a `serde_json::Value`. The library never looks inside one
//! except through the functions below, and its contracts speak of the
//! document a value holds: [`json_of`].

use vstd::prelude::*;

verus! {

/// `serde_json::Value`: one JSON document.
#[verifier::external_type_specification]
#[verifier::external_body]
pub struct ExValue(serde_json::Value);

/// A JSON document as a mathematical value.
///
/// Numbers are integers where serde_json holds them as `u64` or `i64`, and
/// `Real` otherwise; the library reads only the integers. `Real` carries the
/// digits of the number as serde_json writes them.
pub enum Json {
    Null,
    Bool(bool),
    Integer(int),
    Real(Seq<char>),
    Text(Seq<char>),
    Array(Seq<Json>),
    Object(Map<Seq<char>, Json>),
}

impl Json {
    /// The member `key` of an object; `None` for anything else.
    pub open spec fn member(self, key: Seq<char>) -> Option<Json> {
        match self {
            Json::Object(members) => if members.contains_key(key) {
                Some(members[key])
            } else {
                None
            },
            _ => None,
        }
    }

    /// The member `key`, or `Null` where there is none.
    pub open spec fn member_or_null(self, key: Seq<char>) -> Json {
        match self.member(key) {
            Some(found) => found,
            None => Json::Null,
        }
    }

    /// The characters of a string document.
    pub open spec fn as_text(self) -> Option<Seq<char>> {
        match self {
            Json::Text(s) => Some(s),
            _ => None,
        }
    }

    /// The value of a boolean document.
    pub open spec fn as_flag(self) -> Option<bool> {
        match self {
            Json::Bool(b) => Some(b),
            _ => None,
        }
    }

    /// The value of a number document that is an integer of 0 to `u64::MAX`.
    pub open spec fn as_unsigned(self) -> Option<u64> {
        match self {
            Json::Integer(n) => if 0 <= n <= u64::MAX {
                Some(n as u64)
            } else {
                None
            },
            _ => None,
        }
    }

    /// The value of a number document that is an integer of `i64::MIN` to
    /// `i64::MAX`.
    pub open spec fn as_signed(self) -> Option<i64> {
        match self {
            Json::Integer(n) => if i64::MIN <= n <= i64::MAX {
                Some(n as i64)
            } else {
                None
            },
            _ => None,
        }
    }

    /// The items of an array document.
    pub open spec fn as_items(self) -> Option<Seq<Json>> {
        match self {
            Json::Array(items) => Some(items),
            _ => None,
        }
    }

    /// The object with no members.
    pub open spec fn empty_object() -> Json {
        Json::Object(Map::empty())
    }

    /// The object `self` with `key` set to `value`; `self` where it is no
    /// object.
    pub open spec fn with_member(self, key: Seq<char>, value: Json) -> Json {
        match self {
            Json::Object(members) => Json::Object(members.insert(key, value)),
            _ => self,
        }
    }

    /// The boolean member `key`; `None` where it is missing or no boolean.
    pub open spec fn flag_member(self, key: Seq<char>) -> Option<bool> {
        match self.member(key) {
            Some(found) => found.as_flag(),
            None => None,
        }
    }

    /// The string member `key`; `None` where it is missing or no string.
    pub open spec fn text_member(self, key: Seq<char>) -> Option<Seq<char>> {
        match self.member(key) {
            Some(found) => found.as_text(),
            None => None,
        }
    }

    /// The integer member `key`; `None` where it is missing, no integer, or
    /// outside `i64`.
    pub open spec fn signed_member(self, key: Seq<char>) -> Option<i64> {
        match self.member(key) {
            Some(found) => found.as_signed(),
            None => None,
        }
    }

    /// The member `key` where it may be left out: `Some(None)` where it is
    /// missing or `null`, `Some(Some(..))` where it is a string, `None` where
    /// it is anything else.
    pub open spec fn optional_text_member(self, key: Seq<char>) -> Option<Option<Seq<char>>> {
        match self.member(key) {
            None => Some(None),
            Some(Json::Null) => Some(None),
            Some(Json::Text(s)) => Some(Some(s)),
            Some(_) => None,
        }
    }

    /// The member `key` where it may be left out: `Some(None)` where it is
    /// missing or `null`, `Some(Some(..))` where it is a boolean, `None`
    /// where it is anything else.
    pub open spec fn optional_flag_member(self, key: Seq<char>) -> Option<Option<bool>> {
        match self.member(key) {
            None => Some(None),
            Some(Json::Null) => Some(None),
            Some(Json::Bool(b)) => Some(Some(b)),
            Some(_) => None,
        }
    }

    /// The texts of an array all of whose items are strings; `None` for any
    /// other document.
    pub open spec fn as_text_list(self) -> Option<Seq<Seq<char>>> {
        match self {
            Json::Array(items) => if forall|i: int| 0 <= i < items.len() ==> items[i] is Text {
                Some(Seq::new(items.len(), |i: int| items[i]->Text_0))
            } else {
                None
            },
            _ => None,
        }
    }

    /// The member `key` as a list of texts; `None` where it is missing or no
    /// array of strings.
    pub open spec fn text_list_member(self, key: Seq<char>) -> Option<Seq<Seq<char>>> {
        match self.member(key) {
            Some(found) => found.as_text_list(),
            None => None,
        }
    }
}

/// The document that a `serde_json::Value` holds.
pub uninterp spec fn json_of(value: serde_json::Value) -> Json;

/// What `serde_json::from_str` makes of a text: the document, or the
/// parser's message.
pub uninterp spec fn parsed_json(text: Seq<char>) -> Result<Json, Seq<char>>;

/// The compact text that `serde_json::to_string` writes for a document,
/// with serde_json's sorted maps.
pub uninterp spec fn rendered_json(doc: Json) -> Seq<char>;

/// The documents of a sequence of values, one for one.
pub open spec fn json_of_each(values: Seq<serde_json::Value>) -> Seq<Json> {
    Seq::new(values.len(), |i: int| json_of(values[i]))
}

/// `Value::as_bool`: the boolean of a `Value::Bool`, `None` for every other
/// variant.
pub assume_specification[ serde_json::Value::as_bool ](value: &serde_json::Value) -> (flag: Option<
    bool,
>)
    ensures
        flag == json_of(*value).as_flag(),
;

/// `Value::as_u64`: the integer of a `Value::Number` that serde_json holds as
/// a `u64`, `None` for a negative or fractional number and for every other
/// variant.
pub assume_specification[ serde_json::Value::as_u64 ](value: &serde_json::Value) -> (number: Option<
    u64,
>)
    ensures
        number == json_of(*value).as_unsigned(),
;

/// `Value::as_i64`: the integer of a `Value::Number` that serde_json holds as
/// an integer and that fits an `i64`, `None` for a larger or fractional number
/// and for every other variant.
pub assume_specification[ serde_json::Value::as_i64 ](value: &serde_json::Value) -> (number: Option<
    i64,
>)
    ensures
        number == json_of(*value).as_signed(),
;

/// `Value::as_str`: the text of a `Value::String`, `None` for every other
/// variant.
pub assume_specification<'a>[ serde_json::Value::as_str ](value: &'a serde_json::Value) -> (text:
    Option<&'a str>)
    ensures
        match text {
            Some(s) => json_of(*value).as_text() == Some(s@),
            None => json_of(*value).as_text() is None,
        },
;

/// `Value::as_array`: the items of a `Value::Array`, `None` for every other
/// variant.
pub assume_specification<'a>[ serde_json::Value::as_array ](value: &'a serde_json::Value) -> (items:
    Option<&'a Vec<serde_json::Value>>)
    ensures
        match items {
            Some(list) => json_of(*value).as_items() == Some(json_of_each(list@)),
            None => json_of(*value).as_items() is None,
        },
;

/// `Value::is_null`: whether the value is `Value::Null`.
pub assume_specification[ serde_json::Value::is_null ](value: &serde_json::Value) -> (null: bool)
    ensures
        null == (json_of(*value) is Null),
;

/// `Value::get` with a string key: the member of a `Value::Object` under that
/// key, `None` where the object has no such member or the value is no object.
#[verifier::external_body]
pub(crate) fn value_member<'a>(value: &'a serde_json::Value, key: &str) -> (found: Option<
    &'a serde_json::Value,
>)
    ensures
        match found {
            Some(inner) => json_of(*value).member(key@) == Some(json_of(*inner)),
            None => json_of(*value).member(key@) is None,
        },
{
    value.get(key)
}

/// `<Value as Clone>::clone`: a value that holds the same document.
pub assume_specification[ <serde_json::Value as Clone>::clone ](value: &serde_json::Value) -> (copy:
    serde_json::Value)
    ensures
        json_of(copy) == json_of(*value),
;

/// `serde_json::from_str` at `Value`: the document that the text spells, or
/// the message of the parser's error.
#[verifier::external_body]
pub(crate) fn parse_value(text: &str) -> (parsed: Result<serde_json::Value, String>)
    ensures
        match parsed {
            Ok(value) => parsed_json(text@) == Ok::<Json, Seq<char>>(json_of(value)),
            Err(reason) => parsed_json(text@) == Err::<Json, Seq<char>>(reason@),
        },
{
    match serde_json::from_str::<serde_json::Value>(text) {
        Ok(value) => Ok(value),
        Err(error) => Err(error.to_string()),
    }
}

/// `serde_json::to_string` at `Value`: the compact text of the document,
/// the members of an object in the order of their keys. It cannot fail for
/// a `Value`, whose keys are strings and whose numbers are finite, and the
/// text holds no line feed: the writer adds no white space and escapes
/// control characters inside strings.
#[verifier::external_body]
pub(crate) fn render_value(value: &serde_json::Value) -> (text: String)
    ensures
        text@ == rendered_json(json_of(*value)),
        !text@.contains('\n'),
{
    serde_json::to_string(value).unwrap_or_default()
}

/// `Value::Null`.
#[verifier::external_body]
pub(crate) fn value_null() -> (value: serde_json::Value)
    ensures
        json_of(value) == Json::Null,
{
    serde_json::Value::Null
}

/// `Value::from` at `bool`: a `Value::Bool`.
#[verifier::external_body]
pub(crate) fn value_from_bool(flag: bool) -> (value: serde_json::Value)
    ensures
        json_of(value) == Json::Bool(flag),
{
    serde_json::Value::from(flag)
}

/// `Value::from` at `u64`: a `Value::Number` that holds the integer.
#[verifier::external_body]
pub(crate) fn value_from_u64(number: u64) -> (value: serde_json::Value)
    ensures
        json_of(value) == Json::Integer(number as int),
{
    serde_json::Value::from(number)
}

/// `Value::from` at `&str`: a `Value::String` with the same characters.
#[verifier::external_body]
pub(crate) fn value_from_str(text: &str) -> (value: serde_json::Value)
    ensures
        json_of(value) == Json::Text(text@),
{
    serde_json::Value::from(text)
}

/// `Value::Object` of `serde_json::Map::new`: the object with no members.
#[verifier::external_body]
pub(crate) fn value_empty_object() -> (value: serde_json::Value)
    ensures
        json_of(value) == Json::empty_object(),
{
    serde_json::Value::Object(serde_json::Map::new())
}

/// `serde_json::Map::insert` on the map of a `Value::Object`: the object
/// with `key` set to `member`, whatever it held under that key before. A
/// value that is no object is handed back as it came.
#[verifier::external_body]
pub(crate) fn value_with_member(
    object: serde_json::Value,
    key: &str,
    member: serde_json::Value,
) -> (value: serde_json::Value)
    ensures
        json_of(value) == json_of(object).with_member(key@, json_of(member)),
{
    match object {
        serde_json::Value::Object(mut members) => {
            members.insert(key.to_string(), member);
            serde_json::Value::Object(members)
        },
        other => other,
    }
}


/// The characters of each string of a list.
pub open spec fn texts_of(list: Seq<String>) -> Seq<Seq<char>> {
    Seq::new(list.len(), |i: int| list[i]@)
}

/// The boolean member `key` of `value`.
pub fn flag_member(value: &serde_json::Value, key: &str) -> (flag: Option<bool>)
    ensures
        flag == json_of(*value).flag_member(key@),
{
    match value_member(value, key) {
        Some(found) => found.as_bool(),
        None => None,
    }
}

/// The string member `key` of `value`.
pub fn text_member(value: &serde_json::Value, key: &str) -> (text: Option<String>)
    ensures
        match text {
            Some(s) => json_of(*value).text_member(key@) == Some(s@),
            None => json_of(*value).text_member(key@) is None,
        },
{
    match value_member(value, key) {
        Some(found) => match found.as_str() {
            Some(s) => Some(String::from_str(s)),
            None => None,
        },
        None => None,
    }
}

/// The integer member `key` of `value`.
pub fn signed_member(value: &serde_json::Value, key: &str) -> (number: Option<i64>)
    ensures
        number == json_of(*value).signed_member(key@),
{
    match value_member(value, key) {
        Some(found) => found.as_i64(),
        None => None,
    }
}

/// The string member `key` of `value` where it may be left out. The outer
/// `None` says that the member is there and is neither `null` nor a string.
pub fn optional_text_member(value: &serde_json::Value, key: &str) -> (text: Option<Option<String>>)
    ensures
        match text {
            Some(Some(s)) => json_of(*value).optional_text_member(key@) == Some(Some(s@)),
            Some(None) => json_of(*value).optional_text_member(key@) == Some(
                None::<Seq<char>>,
            ),
            None => json_of(*value).optional_text_member(key@) is None,
        },
{
    match value_member(value, key) {
        None => Some(None),
        Some(found) => {
            if found.is_null() {
                Some(None)
            } else {
                match found.as_str() {
                    Some(s) => Some(Some(String::from_str(s))),
                    None => None,
                }
            }
        },
    }
}

/// The boolean member `key` of `value` where it may be left out. The outer
/// `None` says that the member is there and is neither `null` nor a boolean.
pub fn optional_flag_member(value: &serde_json::Value, key: &str) -> (flag: Option<Option<bool>>)
    ensures
        flag == json_of(*value).optional_flag_member(key@),
{
    match value_member(value, key) {
        None => Some(None),
        Some(found) => {
            if found.is_null() {
                Some(None)
            } else {
                match found.as_bool() {
                    Some(b) => Some(Some(b)),
                    None => None,
                }
            }
        },
    }
}

/// The texts of `value` where it is an array of strings.
pub fn text_list(value: &serde_json::Value) -> (list: Option<Vec<String>>)
    ensures
        match list {
            Some(texts) => json_of(*value).as_text_list() == Some(texts_of(texts@)),
            None => json_of(*value).as_text_list() is None,
        },
{
    match value.as_array() {
        None => None,
        Some(items) => {
            let ghost docs = json_of_each(items@);
            let mut texts: Vec<String> = Vec::new();
            let mut at: usize = 0;
            while at < items.len()
                invariant
                    at <= items.len(),
                    docs == json_of_each(items@),
                    json_of(*value) == Json::Array(docs),
                    texts@.len() == at,
                    forall|i: int| 0 <= i < at ==> (#[trigger] docs[i]) == Json::Text(texts@[i]@),
                decreases items.len() - at,
            {
                match items[at].as_str() {
                    Some(s) => {
                        texts.push(String::from_str(s));
                    },
                    None => {
                        assert(!(docs[at as int] is Text));
                        return None;
                    },
                }
                at = at + 1;
            }
            assert(Seq::new(docs.len(), |i: int| docs[i]->Text_0) =~= texts_of(texts@));
            Some(texts)
        },
    }
}

/// The member `key` of `value` as a list of texts.
pub fn text_list_member(value: &serde_json::Value, key: &str) -> (list: Option<Vec<String>>)
    ensures
        match list {
            Some(texts) => json_of(*value).text_list_member(key@) == Some(texts_of(texts@)),
            None => json_of(*value).text_list_member(key@) is None,
        },
{
    match value_member(value, key) {
        Some(found) => text_list(found),
        None => None,
    }
}

} // verus!
