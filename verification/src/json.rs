//! JSON values, as the `serde_json` crate holds and writes them.

use crate::text::{decimal, texts, truth};
use serde_json::Value;
use vstd::prelude::*;

verus! {

/// `serde_json::Value`, any JSON value.
#[verifier::external_type_specification]
#[verifier::external_body]
pub struct ExValue(Value);

/// What a JSON value holds, as its compact JSON text.
pub uninterp spec fn json_text(value: Value) -> Seq<char>;

/// The members of a JSON object that are strings, by name. A value that is no
/// object has none.
pub uninterp spec fn json_strings(value: Value) -> Map<Seq<char>, Seq<char>>;

/// The JSON string literal of a text, with its quotes.
pub uninterp spec fn json_quoted(text: Seq<char>) -> Seq<char>;

/// `serde_json::to_string` on a `Value` gives the compact JSON text of the
/// value. It never fails on one: every key is a string, and writing to memory
/// succeeds.
#[verifier::external_body]
pub(crate) fn value_text(value: &Value) -> (r: Result<String, String>)
    ensures
        r is Ok,
        r->Ok_0@ == json_text(*value),
{
    serde_json::to_string(value).map_err(|e| e.to_string())
}

/// `serde_json::to_string` on a text gives its JSON string literal, and never fails.
#[verifier::external_body]
pub(crate) fn quoted(text: &str) -> (r: Result<String, String>)
    ensures
        r is Ok,
        r->Ok_0@ == json_quoted(text@),
{
    serde_json::to_string(text).map_err(|e| e.to_string())
}

/// `serde_json::Value::get` with a key, then `Value::as_str`: the text of the
/// member of that name, where the value is an object that has one and it is a
/// string.
#[verifier::external_body]
pub(crate) fn string_member(value: &Value, key: &str) -> (r: Option<String>)
    ensures
        match r {
            Some(s) => json_strings(*value).contains_key(key@) && s@ == json_strings(
                *value,
            )[key@],
            None => !json_strings(*value).contains_key(key@),
        },
{
    value.get(key).and_then(Value::as_str).map(String::from)
}

/// The JSON string literals of some texts, with commas between them.
pub open spec fn quoted_list(list: Seq<Seq<char>>) -> Seq<char>
    decreases list.len(),
{
    if list.len() == 0 {
        Seq::empty()
    } else if list.len() == 1 {
        json_quoted(list[0])
    } else {
        quoted_list(list.drop_last()) + ","@ + json_quoted(list.last())
    }
}

/// `serde_json::Value::Null` is written `null`.
#[verifier::external_body]
pub(crate) fn null_value() -> (r: Value)
    ensures
        json_text(r) == "null"@,
{
    Value::Null
}

/// `serde_json::Value::Bool` is written `true` or `false`.
#[verifier::external_body]
pub(crate) fn flag_value(flag: bool) -> (r: Value)
    ensures
        json_text(r) == truth(flag),
{
    Value::Bool(flag)
}

/// `serde_json::Value::String` is written as the string literal of its text.
#[verifier::external_body]
pub(crate) fn text_value(text: String) -> (r: Value)
    ensures
        json_text(r) == json_quoted(text@),
{
    Value::String(text)
}

/// `serde_json::Value::from` a list of texts is an array, written as their string
/// literals with commas between them and in square brackets.
#[verifier::external_body]
pub(crate) fn texts_value(list: Vec<String>) -> (r: Value)
    ensures
        json_text(r) == "["@ + quoted_list(texts(list@)) + "]"@,
{
    Value::from(list)
}

/// `serde_json::Value::from` a number is written in decimal notation.
#[verifier::external_body]
pub(crate) fn number_value(n: u32) -> (r: Value)
    ensures
        json_text(r) == decimal(n as nat),
{
    Value::from(n)
}

/// The members of a JSON object by name, each as its compact JSON text. A value that
/// is no object has none.
pub uninterp spec fn json_members(value: Value) -> Map<Seq<char>, Seq<char>>;

/// Whether no two members have the same name.
pub open spec fn distinct_names(members: Seq<(String, Value)>) -> bool {
    forall|i: int, j: int| 0 <= i < j < members.len() ==> members[i].0@ != members[j].0@
}

/// The texts of members by name.
pub open spec fn member_texts(members: Seq<(String, Value)>) -> Map<Seq<char>, Seq<char>>
    decreases members.len(),
{
    if members.len() == 0 {
        Map::empty()
    } else {
        member_texts(members.drop_last()).insert(
            members.last().0@,
            json_text(members.last().1),
        )
    }
}

/// A `serde_json::Map` of members with distinct names, as a value, is the object with
/// these members. One with a single member is written as the string literal of its name, a colon and the
/// member, in curly brackets.
#[verifier::external_body]
pub(crate) fn object_value(members: Vec<(String, Value)>) -> (r: Value)
    requires
        distinct_names(members@),
    ensures
        json_members(r) == member_texts(members@),
        members@.len() == 1 ==> json_text(r) == "{"@ + json_quoted(members@[0].0@) + ":"@
            + json_text(members@[0].1) + "}"@,
{
    Value::Object(members.into_iter().collect())
}

/// The JSON text of a value over several lines, indented.
pub uninterp spec fn json_pretty(value: Value) -> Seq<char>;

/// `serde_json::to_string_pretty` on a `Value` gives its JSON text over several lines.
/// It never fails on one.
#[verifier::external_body]
pub(crate) fn pretty_text(value: &Value) -> (r: Result<String, String>)
    ensures
        r is Ok,
        r->Ok_0@ == json_pretty(*value),
{
    serde_json::to_string_pretty(value).map_err(|e| e.to_string())
}

/// `serde_json::Value::clone` gives an equal value.
#[verifier::external_body]
pub(crate) fn copy_value(value: &Value) -> (r: Value)
    ensures
        r == *value,
{
    value.clone()
}

/// A copy of an optional value.
pub(crate) fn copy_opt_value(value: &Option<Value>) -> (r: Option<Value>)
    ensures
        r == *value,
{
    match value {
        Some(v) => Some(copy_value(v)),
        None => None,
    }
}

// ----------------------------------------------------------------------- laws

/// The literals of two lists in a row are those of the first, a comma, and those of
/// the second; those of one text are its literal.
pub proof fn law_lists_in_a_row(a: Seq<Seq<char>>, b: Seq<Seq<char>>)
    ensures
        a.len() == 1 ==> quoted_list(a) == json_quoted(a[0]),
        a.len() == 0 ==> quoted_list(a).len() == 0,
        a.len() > 0 && b.len() > 0 ==> quoted_list(a + b) == quoted_list(a) + ","@ + quoted_list(b),
    decreases b.len(),
{
    if a.len() > 0 && b.len() > 0 {
        assert((a + b).drop_last() =~= a + b.drop_last());
        assert((a + b).last() == b.last());
        if b.len() == 1 {
            assert(b.drop_last() =~= Seq::empty());
            assert(a + b.drop_last() =~= a);
        } else {
            law_lists_in_a_row(a, b.drop_last());
            assert(quoted_list(a + b) =~= quoted_list(a) + ","@ + quoted_list(b));
        }
    }
}

/// Members with distinct names are all there, each under its name with its text, and
/// there are no others.
pub proof fn law_members_are_all_there(members: Seq<(String, Value)>, name: Seq<char>, i: int)
    requires
        distinct_names(members),
    ensures
        0 <= i < members.len() ==> member_texts(members).contains_key(members[i].0@)
            && member_texts(members)[members[i].0@] == json_text(members[i].1),
        member_texts(members).contains_key(name) <==> exists|j: int|
            0 <= j < members.len() && (#[trigger] members[j]).0@ == name,
    decreases members.len(),
{
    if members.len() > 0 {
        let front = members.drop_last();
        let last = members.len() - 1;
        assert forall|j: int, k: int| 0 <= j < k < front.len() implies front[j].0@
            != front[k].0@ by {
            assert(members[j].0@ != members[k].0@);
        }
        law_members_are_all_there(front, name, i);
        if 0 <= i < last {
            assert(members[i].0@ != members[last].0@);
            assert(front[i] == members[i]);
        }
        if member_texts(front).contains_key(name) {
            let j = choose|j: int| 0 <= j < front.len() && (#[trigger] front[j]).0@ == name;
            assert(members[j].0@ == name);
        }
        if members[last].0@ == name {
            assert(member_texts(members).contains_key(name));
        }
        if exists|j: int| 0 <= j < members.len() && (#[trigger] members[j]).0@ == name {
            let j = choose|j: int| 0 <= j < members.len() && (#[trigger] members[j]).0@ == name;
            if j < last {
                assert(front[j].0@ == name);
            }
        }
    }
}

} // verus!
