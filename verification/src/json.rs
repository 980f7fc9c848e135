//! One JSON object as a list of named members, read by serde_json.

use vstd::prelude::*;
use vstd::string::*;

verus! {

/// What a member of a JSON object holds. A number is kept as the text that serde_json
/// prints for it; what an array or an object holds is left out.
#[derive(Debug, PartialEq)]
pub enum JsonValue {
    Null,
    Bool(bool),
    Number(String),
    Text(String),
    Array,
    Object,
}

/// A [`JsonValue`] with its texts by their characters.
pub enum JsonText {
    Null,
    Bool(bool),
    Number(Seq<char>),
    Text(Seq<char>),
    Array,
    Object,
}

impl View for JsonValue {
    type V = JsonText;

    open spec fn view(&self) -> JsonText {
        match self {
            JsonValue::Null => JsonText::Null,
            JsonValue::Bool(truth) => JsonText::Bool(*truth),
            JsonValue::Number(numeral) => JsonText::Number(numeral@),
            JsonValue::Text(text) => JsonText::Text(text@),
            JsonValue::Array => JsonText::Array,
            JsonValue::Object => JsonText::Object,
        }
    }
}

/// The members of an object with their names and texts by their characters.
pub open spec fn member_views(members: Seq<(String, JsonValue)>) -> Seq<(Seq<char>, JsonText)> {
    members.map_values(|member: (String, JsonValue)| (member.0@, member.1@))
}

/// What the first member called `name` holds, or `None` where no member has that name.
pub open spec fn member(members: Seq<(Seq<char>, JsonText)>, name: Seq<char>) -> Option<JsonText>
    decreases members.len(),
{
    if members.len() == 0 {
        None
    } else if members[0].0 == name {
        Some(members[0].1)
    } else {
        member(members.drop_first(), name)
    }
}

/// The text of the member called `name`, where there is one and it holds a text.
pub open spec fn text_member(members: Seq<(Seq<char>, JsonText)>, name: Seq<char>) -> Option<
    Seq<char>,
> {
    match member(members, name) {
        Some(JsonText::Text(text)) => Some(text),
        _ => None,
    }
}

/// The numeral of the member called `name`, where there is one and it holds a number.
pub open spec fn number_member(members: Seq<(Seq<char>, JsonText)>, name: Seq<char>) -> Option<
    Seq<char>,
> {
    match member(members, name) {
        Some(JsonText::Number(numeral)) => Some(numeral),
        _ => None,
    }
}

/// The members of the JSON object that serde_json reads from `line`, or `None` where it
/// reads none.
pub uninterp spec fn json_object(line: Seq<char>) -> Option<Seq<(Seq<char>, JsonText)>>;

/// The error of serde_json, which is handed on unread.
#[verifier::external_type_specification]
#[verifier::external_body]
pub struct ExJsonError(serde_json::Error);

/// What the first member called `name` holds.
pub fn find_member<'a>(members: &'a Vec<(String, JsonValue)>, name: &str) -> (found: Option<
    &'a JsonValue,
>)
    ensures
        found is Some <==> member(member_views(members@), name@) is Some,
        found matches Some(value) ==> member(member_views(members@), name@) == Some(value@),
{
    let ghost all = member_views(members@);
    let wanted = String::from_str(name);
    let mut i: usize = 0;
    assert(all.skip(0) == all);
    while i < members.len()
        invariant
            i <= members.len(),
            all == member_views(members@),
            wanted@ == name@,
            member(all, name@) == member(all.skip(i as int), name@),
        decreases members.len() - i,
    {
        assert(all.skip(i as int)[0] == all[i as int]);
        assert(all.skip(i as int).drop_first() == all.skip(i + 1));
        if members[i].0 == wanted {
            return Some(&members[i].1);
        }
        i += 1;
    }
    None
}

/// Calls `serde_json::from_str` for a `serde_json::Map` and hands out its members, each
/// value by its kind. The contract names the members and says that the call fails where
/// there are none.
#[verifier::external_body]
pub(crate) fn read_object(line: &str) -> (members: Result<
    Vec<(String, JsonValue)>,
    serde_json::Error,
>)
    ensures
        members is Ok <==> json_object(line@) is Some,
        members matches Ok(read) ==> json_object(line@) == Some(member_views(read@)),
{
    let object: serde_json::Map<String, serde_json::Value> = serde_json::from_str(line)?;
    let mut members = Vec::new();
    for (name, value) in object {
        members.push((name, match value {
            serde_json::Value::Null => JsonValue::Null,
            serde_json::Value::Bool(truth) => JsonValue::Bool(truth),
            serde_json::Value::Number(number) => JsonValue::Number(number.to_string()),
            serde_json::Value::String(text) => JsonValue::Text(text),
            serde_json::Value::Array(_) => JsonValue::Array,
            serde_json::Value::Object(_) => JsonValue::Object,
        }));
    }
    Ok(members)
}

} // verus!
