//! JSON values as plain data.
//!
//! Labels, filters and input parameters are JSON values. The library holds
//! them in a tree of its own, so that the rest of the crate can speak of
//! them in contracts; the text is parsed by `serde_json`.

use vstd::prelude::*;

verus! {

/// A JSON value.
///
/// A number is held as the decimal text that `serde_json` prints for it, an
/// object as its members in the order in which `serde_json` walks them.
#[derive(Debug, PartialEq)]
pub enum JsonValue {
    Null,
    Bool(bool),
    Number(String),
    String(String),
    Array(Vec<JsonValue>),
    Object(Vec<Member>),
}

/// One member of a JSON object.
#[derive(Debug, Clone, PartialEq)]
pub struct Member {
    pub key: String,
    pub value: JsonValue,
}

/// A JSON value as a mathematical tree: what a `JsonValue` stands for.
pub enum JsonTree {
    Null,
    Bool(bool),
    Number(Seq<char>),
    String(Seq<char>),
    Array(Seq<JsonTree>),
    Object(Seq<TreeMember>),
}

/// One member of an object in a `JsonTree`.
pub struct TreeMember {
    pub key: Seq<char>,
    pub value: JsonTree,
}

impl View for JsonValue {
    type V = JsonTree;

    open spec fn view(&self) -> JsonTree
        decreases self,
    {
        match self {
            JsonValue::Null => JsonTree::Null,
            JsonValue::Bool(b) => JsonTree::Bool(*b),
            JsonValue::Number(text) => JsonTree::Number(text@),
            JsonValue::String(text) => JsonTree::String(text@),
            JsonValue::Array(items) => JsonTree::Array(
                Seq::new(
                    items@.len(),
                    |i: int|
                        if 0 <= i < items@.len() {
                            items@[i]@
                        } else {
                            JsonTree::Null
                        },
                ),
            ),
            JsonValue::Object(members) => JsonTree::Object(
                Seq::new(
                    members@.len(),
                    |i: int|
                        if 0 <= i < members@.len() {
                            TreeMember { key: members@[i].key@, value: members@[i].value@ }
                        } else {
                            TreeMember { key: Seq::empty(), value: JsonTree::Null }
                        },
                ),
            ),
        }
    }
}

impl JsonValue {
    /// Copies of `items`, one for one.
    fn duplicate_items(items: &Vec<JsonValue>) -> (r: Vec<JsonValue>)
        ensures
            r@.len() == items@.len(),
            forall|i: int| 0 <= i < items@.len() ==> (#[trigger] r@[i])@ == items@[i]@,
        decreases items,
    {
        let mut out: Vec<JsonValue> = Vec::new();
        let mut i: usize = 0;
        while i < items.len()
            invariant
                i <= items@.len(),
                out@.len() == i,
                forall|j: int| 0 <= j < i ==> (#[trigger] out@[j])@ == items@[j]@,
            decreases items@.len() - i,
        {
            out.push(items[i].duplicate());
            i = i + 1;
        }
        out
    }

    /// Copies of `members`, one for one.
    fn duplicate_members(members: &Vec<Member>) -> (r: Vec<Member>)
        ensures
            r@.len() == members@.len(),
            forall|i: int|
                0 <= i < members@.len() ==> (#[trigger] r@[i]).key@ == members@[i].key@
                    && r@[i].value@ == members@[i].value@,
        decreases members,
    {
        let mut out: Vec<Member> = Vec::new();
        let mut i: usize = 0;
        while i < members.len()
            invariant
                i <= members@.len(),
                out@.len() == i,
                forall|j: int|
                    0 <= j < i ==> (#[trigger] out@[j]).key@ == members@[j].key@
                        && out@[j].value@ == members@[j].value@,
            decreases members@.len() - i,
        {
            let member = &members[i];
            out.push(Member { key: member.key.clone(), value: member.value.duplicate() });
            i = i + 1;
        }
        out
    }

    /// A copy of this value: another value that stands for the same tree.
    pub fn duplicate(&self) -> (r: JsonValue)
        ensures
            r@ == self@,
        decreases self,
    {
        match self {
            JsonValue::Null => JsonValue::Null,
            JsonValue::Bool(b) => JsonValue::Bool(*b),
            JsonValue::Number(text) => JsonValue::Number(text.clone()),
            JsonValue::String(text) => JsonValue::String(text.clone()),
            JsonValue::Array(items) => {
                let copies = JsonValue::duplicate_items(items);
                let r = JsonValue::Array(copies);
                proof {
                    assert(r@->Array_0 =~= self@->Array_0);
                }
                r
            },
            JsonValue::Object(members) => {
                let copies = JsonValue::duplicate_members(members);
                let r = JsonValue::Object(copies);
                proof {
                    assert(r@->Object_0 =~= self@->Object_0);
                }
                r
            },
        }
    }
}

impl Clone for JsonValue {
    fn clone(&self) -> (r: Self)
        ensures
            r@ == self@,
    {
        self.duplicate()
    }
}

/// What `serde_json::from_str::<serde_json::Value>` makes of a text: the
/// value it parses to, or `None` where it reports an error.
pub uninterp spec fn json_parse(text: Seq<char>) -> Option<JsonTree>;

/// Whether `value` is the structured reading of `text`: the parsed value
/// where the text is JSON, and else the text itself as a JSON string.
pub open spec fn reads_as(text: Seq<char>, value: JsonValue) -> bool {
    match json_parse(text) {
        Some(parsed) => value@ == parsed,
        None => value@ == JsonTree::String(text),
    }
}

/// `serde_json::Value`, which the parser hands out; nothing of its inside is
/// known here.
#[verifier::external_type_specification]
#[verifier::external_body]
pub struct ExValue(serde_json::Value);

/// Moves a `serde_json::Value` into a `JsonValue`, variant by variant: a
/// number as `serde_json::Number::to_string` prints it, the members of an
/// object in the order in which `serde_json::Map::into_iter` hands them out.
#[verifier::external_body]
fn lift(value: serde_json::Value) -> JsonValue {
    match value {
        serde_json::Value::Null => JsonValue::Null,
        serde_json::Value::Bool(b) => JsonValue::Bool(b),
        serde_json::Value::Number(n) => JsonValue::Number(n.to_string()),
        serde_json::Value::String(s) => JsonValue::String(s),
        serde_json::Value::Array(items) => JsonValue::Array(items.into_iter().map(lift).collect()),
        serde_json::Value::Object(members) => JsonValue::Object(
            members.into_iter().map(|(key, value)| Member { key, value: lift(value) }).collect(),
        ),
    }
}

/// Calls `serde_json::from_str::<serde_json::Value>`, and `to_string` on
/// the error where there is one. The contract claims only that whether the
/// text parses, and to what, is a function of the text, named `json_parse`;
/// of the error's wording it claims nothing.
#[verifier::external_body]
fn serde_from_str(text: &str) -> (r: Result<JsonValue, String>)
    ensures
        match r {
            Ok(value) => json_parse(text@) == Some(value@),
            Err(_) => json_parse(text@) is None,
        },
{
    match serde_json::from_str::<serde_json::Value>(text) {
        Ok(value) => Ok(lift(value)),
        Err(e) => Err(e.to_string()),
    }
}

/// Parses a text as JSON: the value, or the parser's complaint.
pub fn parse(text: &str) -> (r: Result<JsonValue, String>)
    ensures
        match r {
            Ok(value) => json_parse(text@) == Some(value@),
            Err(_) => json_parse(text@) is None,
        },
{
    serde_from_str(text)
}

/// Settles the reading of `value`, given what parsing it came to: the
/// parsed value, or else the text itself as a JSON string.
pub fn reading_of(value: &str, parsed: Result<JsonValue, String>) -> (r: JsonValue)
    ensures
        match parsed {
            Ok(v) => r == v,
            Err(_) => r@ == JsonTree::String(value@),
        },
{
    match parsed {
        Ok(v) => v,
        Err(_) => JsonValue::String(value.to_owned()),
    }
}

/// Reads a text as JSON. A text that does not parse is kept, unchanged, as a
/// JSON string, so every text has a reading.
pub fn from_str_to_json(value: &str) -> (r: JsonValue)
    ensures
        reads_as(value@, r),
{
    reading_of(value, serde_from_str(value))
}

} // verus!
