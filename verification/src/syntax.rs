//! JSON text, read and written by `serde_json`. A text is parsed to a
//! `serde_json::Value` and the value is copied into a `Json`; a `Json` is copied into
//! a `serde_json::Value` and the value is printed. The copies are made here, member
//! by member; only the single calls into `serde_json` are taken on trust.

use vstd::prelude::*;
use vstd::string::*;
use serde_json::Value;
use crate::json::{
    entries_view, items_view, lemma_view_list, lemma_view_object, Json, JsonView, Number,
    NumberView,
};
use crate::text::str_eq;

verus! {

#[verifier::external_type_specification]
#[verifier::external_body]
pub struct ExValue(Value);

/// What a `serde_json::Value` holds: `Null`, `Bool`, `String`, `Array` and `Object`
/// as the variants of the same kind, the members of an object in the order in which
/// the value hands them out; a `Number` as its integer where it holds one, and as the
/// text that it prints where it holds none.
pub uninterp spec fn value_view(v: Value) -> JsonView;

/// What `serde_json::from_slice` makes of a text: what the value that it reads holds,
/// or the message of the error with which it refuses the text.
pub uninterp spec fn parsed(bytes: Seq<u8>) -> Result<JsonView, Seq<char>>;

/// What `serde_json::to_string` prints for a value that holds `j`: the text, or the
/// message of the error with which the value is refused.
pub uninterp spec fn rendered(j: JsonView) -> Result<Seq<char>, Seq<char>>;

/// What each of a list of values holds.
pub open spec fn values_view(values: Seq<Value>) -> Seq<JsonView> {
    Seq::new(values.len(), |i: int| value_view(values[i]))
}

/// What each of a list of named values holds.
pub open spec fn members_view(members: Seq<(String, Value)>) -> Seq<(Seq<char>, JsonView)> {
    Seq::new(members.len(), |i: int| (members[i].0@, value_view(members[i].1)))
}

/// What each of a list of borrowed named values holds.
pub open spec fn borrowed_members_view(members: Seq<(&String, &Value)>) -> Seq<
    (Seq<char>, JsonView),
> {
    Seq::new(members.len(), |i: int| ((*members[i].0)@, value_view(*members[i].1)))
}

/// Whether no two members have one name.
pub open spec fn names_differ(fields: Seq<(Seq<char>, JsonView)>) -> bool {
    forall|i: int, j: int| 0 <= i < j < fields.len() ==> fields[i].0 != fields[j].0
}

/// Whether a value can be written: it holds no number that is no integer, and no
/// object in it has two members of one name.
pub open spec fn writable(j: JsonView) -> bool
    decreases j,
{
    match j {
        JsonView::Number(NumberView::Real(_)) => false,
        JsonView::List(items) => forall|i: int|
            0 <= i < items.len() ==> writable(#[trigger] items[i]),
        JsonView::Object(fields) => names_differ(fields) && forall|i: int|
            0 <= i < fields.len() ==> writable((#[trigger] fields[i]).1),
        _ => true,
    }
}

/// The message with which a value that cannot be written is refused.
pub open spec fn not_writable() -> Seq<char> {
    "a number that is no integer or an object that repeats a name cannot be written"@
}

/// What becomes of writing a value: the text that is printed for it, or the message
/// with which it is refused.
pub open spec fn written(j: JsonView) -> Result<Seq<char>, Seq<char>> {
    if writable(j) {
        rendered(j)
    } else {
        Err(not_writable())
    }
}

/// `serde_json::from_slice` at the type `Value`, with the error as the text of its
/// `to_string`. The contract gives the outcome its name, `parsed`.
#[verifier::external_body]
fn parse_value(bytes: &[u8]) -> (r: Result<Value, String>)
    ensures
        parsed(bytes@) == (match r {
            Ok(v) => Ok::<JsonView, Seq<char>>(value_view(v)),
            Err(m) => Err::<JsonView, Seq<char>>(m@),
        }),
{
    serde_json::from_slice::<Value>(bytes).map_err(|e| e.to_string())
}

/// `serde_json::to_string` of a `Value`, with the error as the text of its
/// `to_string`. The contract gives the outcome its name, `rendered`.
#[verifier::external_body]
fn render_value(v: &Value) -> (r: Result<String, String>)
    ensures
        rendered(value_view(*v)) == (match r {
            Ok(t) => Ok::<Seq<char>, Seq<char>>(t@),
            Err(m) => Err::<Seq<char>, Seq<char>>(m@),
        }),
{
    serde_json::to_string(v).map_err(|e| e.to_string())
}

/// `Value::is_null`: true of `Value::Null` and of nothing else.
#[verifier::external_body]
fn value_is_null(v: &Value) -> (r: bool)
    ensures
        r == (value_view(*v) is Null),
{
    v.is_null()
}

/// `Value::as_bool`: the boolean of a `Value::Bool`, none of anything else.
#[verifier::external_body]
fn value_as_bool(v: &Value) -> (r: Option<bool>)
    ensures
        r == (match value_view(*v) {
            JsonView::Bool(b) => Some(b),
            _ => None,
        }),
{
    v.as_bool()
}

/// `Value::as_i64`: the integer of a number that holds one which fits `i64`. A
/// number that holds an integer up to `i64::MAX` gives it.
#[verifier::external_body]
fn value_as_i64(v: &Value) -> (r: Option<i64>)
    ensures
        match r {
            Some(i) => value_view(*v) == JsonView::Number(NumberView::Int(i as int)),
            None => !(value_view(*v) matches JsonView::Number(NumberView::Int(n)) && n
                <= i64::MAX),
        },
{
    v.as_i64()
}

/// `Value::as_u64`: the integer of a number that holds one which fits `u64`. A
/// number that holds an integer above `i64::MAX` gives it.
#[verifier::external_body]
fn value_as_u64(v: &Value) -> (r: Option<u64>)
    ensures
        match r {
            Some(n) => value_view(*v) == JsonView::Number(NumberView::Int(n as int)),
            None => !(value_view(*v) matches JsonView::Number(NumberView::Int(n)) && n
                > i64::MAX),
        },
{
    v.as_u64()
}

/// `Value::as_number` and the number's `to_string`: the text that a number prints,
/// none of anything that is no number. Of a number that holds no integer this text
/// is what the value is said to hold.
#[verifier::external_body]
fn value_number_text(v: &Value) -> (r: Option<String>)
    ensures
        r is Some <==> value_view(*v) is Number,
        r matches Some(t) ==> (value_view(*v) matches JsonView::Number(NumberView::Real(x))
            ==> t@ == x),
{
    v.as_number().map(|n| n.to_string())
}

/// `Value::as_str`: the text of a `Value::String`, none of anything else.
#[verifier::external_body]
fn value_as_str(v: &Value) -> (r: Option<&str>)
    ensures
        match r {
            Some(t) => value_view(*v) == JsonView::Text(t@),
            None => !(value_view(*v) is Text),
        },
{
    v.as_str()
}

/// `Value::as_array`: the elements of a `Value::Array`, none of anything else.
#[verifier::external_body]
fn value_as_array(v: &Value) -> (r: Option<&Vec<Value>>)
    ensures
        match r {
            Some(items) => value_view(*v) == JsonView::List(values_view(items@)),
            None => !(value_view(*v) is List),
        },
{
    v.as_array()
}

/// `Value::as_object` and the map's `iter`: the members of a `Value::Object` in the
/// order in which the map hands them out, none of anything else.
#[verifier::external_body]
fn value_members(v: &Value) -> (r: Option<Vec<(&String, &Value)>>)
    ensures
        match r {
            Some(members) => value_view(*v) == JsonView::Object(
                borrowed_members_view(members@),
            ),
            None => !(value_view(*v) is Object),
        },
{
    v.as_object().map(|m| m.iter().collect())
}

/// `Value::Null`.
#[verifier::external_body]
fn value_null() -> (v: Value)
    ensures
        value_view(v) == JsonView::Null,
{
    Value::Null
}

/// `Value::Bool`.
#[verifier::external_body]
fn value_bool(b: bool) -> (v: Value)
    ensures
        value_view(v) == JsonView::Bool(b),
{
    Value::Bool(b)
}

/// `Value::from` of a `u64`: the number that holds this integer.
#[verifier::external_body]
fn value_u64(n: u64) -> (v: Value)
    ensures
        value_view(v) == JsonView::Number(NumberView::Int(n as int)),
{
    Value::from(n)
}

/// `Value::from` of an `i64`: the number that holds this integer.
#[verifier::external_body]
fn value_i64(n: i64) -> (v: Value)
    ensures
        value_view(v) == JsonView::Number(NumberView::Int(n as int)),
{
    Value::from(n)
}

/// `Value::String`.
#[verifier::external_body]
fn value_text(t: String) -> (v: Value)
    ensures
        value_view(v) == JsonView::Text(t@),
{
    Value::String(t)
}

/// `Value::Array`.
#[verifier::external_body]
fn value_list(items: Vec<Value>) -> (v: Value)
    ensures
        value_view(v) == JsonView::List(values_view(items@)),
{
    Value::Array(items)
}

/// `Value::Object` of the map that is collected from the members. The map keeps its
/// members in the order in which they come, as long as no name comes twice.
#[verifier::external_body]
fn value_object(members: Vec<(String, Value)>) -> (v: Value)
    requires
        names_differ(members_view(members@)),
    ensures
        value_view(v) == JsonView::Object(members_view(members@)),
{
    Value::Object(members.into_iter().collect())
}

proof fn lemma_item_is_smaller(whole: JsonView, i: int)
    requires
        whole is List,
        0 <= i < whole->List_0.len(),
    ensures
        decreases_to!(whole => whole->List_0[i]),
{
    match whole {
        JsonView::List(items) => {
            assert(decreases_to!(whole => items));
            vstd::seq::axiom_seq_index_decreases(items, i);
        },
        _ => {},
    }
}

proof fn lemma_member_is_smaller(whole: JsonView, i: int)
    requires
        whole is Object,
        0 <= i < whole->Object_0.len(),
    ensures
        decreases_to!(whole => whole->Object_0[i].1),
{
    match whole {
        JsonView::Object(fields) => {
            assert(decreases_to!(whole => fields));
            vstd::seq::axiom_seq_index_decreases(fields, i);
            let field = fields[i];
            match field {
                (name, value) => {
                    assert(decreases_to!(field => value));
                },
            }
        },
        _ => {},
    }
}

/// The number that a value holds.
fn number_of_value(v: &Value) -> (r: Option<Number>)
    ensures
        match r {
            Some(n) => value_view(*v) == JsonView::Number(n@),
            None => !(value_view(*v) is Number),
        },
{
    match value_as_i64(v) {
        Some(i) => {
            if i >= 0 {
                Some(Number::PosInt(i as u64))
            } else {
                Some(Number::NegInt(i))
            }
        },
        None => match value_as_u64(v) {
            Some(n) => Some(Number::PosInt(n)),
            None => match value_number_text(v) {
                Some(t) => Some(Number::Real(t)),
                None => None,
            },
        },
    }
}

/// Copies what a value holds.
fn json_of_value(v: &Value) -> (j: Json)
    ensures
        j@ == value_view(*v),
    decreases value_view(*v),
{
    if value_is_null(v) {
        return Json::Null;
    }
    if let Some(b) = value_as_bool(v) {
        return Json::Bool(b);
    }
    if let Some(n) = number_of_value(v) {
        return Json::Number(n);
    }
    if let Some(t) = value_as_str(v) {
        return Json::Text(String::from_str(t));
    }
    if let Some(items) = value_as_array(v) {
        let ghost views = values_view(items@);
        let mut out: Vec<Json> = Vec::new();
        let mut i: usize = 0;
        while i < items.len()
            invariant
                i <= items.len(),
                views == values_view(items@),
                value_view(*v) == JsonView::List(views),
                out@.len() == i,
                forall|k: int| 0 <= k < i ==> out@[k]@ == views[k],
            decreases items.len() - i,
        {
            proof {
                assert(value_view(items@[i as int]) == views[i as int]);
                lemma_item_is_smaller(value_view(*v), i as int);
            }
            let item = json_of_value(&items[i]);
            out.push(item);
            i += 1;
        }
        proof {
            lemma_view_list(out);
            assert(items_view(out@) =~= views);
        }
        return Json::List(out);
    }
    if let Some(members) = value_members(v) {
        let ghost views = borrowed_members_view(members@);
        let mut out: Vec<(String, Json)> = Vec::new();
        let mut i: usize = 0;
        while i < members.len()
            invariant
                i <= members.len(),
                views == borrowed_members_view(members@),
                value_view(*v) == JsonView::Object(views),
                out@.len() == i,
                forall|k: int| 0 <= k < i ==> (out@[k].0@, out@[k].1@) == views[k],
            decreases members.len() - i,
        {
            proof {
                assert(((*members@[i as int].0)@, value_view(*members@[i as int].1))
                    == views[i as int]);
                lemma_member_is_smaller(value_view(*v), i as int);
            }
            let name = members[i].0.clone();
            let value = json_of_value(members[i].1);
            out.push((name, value));
            i += 1;
        }
        proof {
            lemma_view_object(out);
            assert(entries_view(out@) =~= views);
        }
        return Json::Object(out);
    }
    Json::Null
}

/// Reads a text as a value.
pub fn parse_json(bytes: &[u8]) -> (r: Result<Json, String>)
    ensures
        parsed(bytes@) == (match r {
            Ok(j) => Ok::<JsonView, Seq<char>>(j@),
            Err(m) => Err::<JsonView, Seq<char>>(m@),
        }),
{
    match parse_value(bytes) {
        Ok(v) => Ok(json_of_value(&v)),
        Err(m) => Err(m),
    }
}

/// Whether no two members have one name.
fn has_distinct_names(fields: &Vec<(String, Json)>) -> (r: bool)
    ensures
        r == names_differ(entries_view(fields@)),
{
    let ghost views = entries_view(fields@);
    let mut j: usize = 0;
    while j < fields.len()
        invariant
            j <= fields.len(),
            views == entries_view(fields@),
            forall|a: int, b: int| 0 <= a < b < j ==> views[a].0 != views[b].0,
        decreases fields.len() - j,
    {
        let mut i: usize = 0;
        while i < j
            invariant
                i <= j < fields.len(),
                views == entries_view(fields@),
                forall|a: int| 0 <= a < i ==> views[a].0 != views[j as int].0,
            decreases j - i,
        {
            if str_eq(fields[i].0.as_str(), fields[j].0.as_str()) {
                assert(views[i as int].0 == views[j as int].0);
                return false;
            }
            i += 1;
        }
        j += 1;
    }
    true
}

/// Makes the value that holds what `j` holds; none where `j` cannot be written.
fn value_of_json(j: &Json) -> (r: Option<Value>)
    ensures
        match r {
            Some(v) => writable(j@) && value_view(v) == j@,
            None => !writable(j@),
        },
    decreases j,
{
    match j {
        Json::Null => Some(value_null()),
        Json::Bool(b) => Some(value_bool(*b)),
        Json::Number(Number::PosInt(n)) => Some(value_u64(*n)),
        Json::Number(Number::NegInt(n)) => Some(value_i64(*n)),
        Json::Number(Number::Real(_)) => None,
        Json::Text(t) => Some(value_text(t.clone())),
        Json::List(items) => {
            proof {
                lemma_view_list(*items);
            }
            let ghost views = items_view(items@);
            let mut out: Vec<Value> = Vec::new();
            let mut i: usize = 0;
            while i < items.len()
                invariant
                    i <= items.len(),
                    views == items_view(items@),
                    j@ == JsonView::List(views),
                    decreases_to!(*j => *items),
                    out@.len() == i,
                    forall|k: int| 0 <= k < i ==> writable(#[trigger] views[k]),
                    forall|k: int| 0 <= k < i ==> value_view(out@[k]) == views[k],
                decreases items.len() - i,
            {
                proof {
                    vstd::std_specs::vec::axiom_vec_index_decreases(*items, i as int);
                }
                match value_of_json(&items[i]) {
                    Some(v) => {
                        out.push(v);
                    },
                    None => {
                        assert(!writable(views[i as int]));
                        assert(j@->List_0[i as int] == views[i as int]);
                        assert(!writable(j@));
                        return None;
                    },
                }
                i += 1;
            }
            assert(values_view(out@) =~= views);
            Some(value_list(out))
        },
        Json::Object(fields) => {
            proof {
                lemma_view_object(*fields);
            }
            let ghost views = entries_view(fields@);
            if !has_distinct_names(fields) {
                return None;
            }
            let mut out: Vec<(String, Value)> = Vec::new();
            let mut i: usize = 0;
            while i < fields.len()
                invariant
                    i <= fields.len(),
                    views == entries_view(fields@),
                    j@ == JsonView::Object(views),
                    names_differ(views),
                    decreases_to!(*j => *fields),
                    out@.len() == i,
                    forall|k: int| 0 <= k < i ==> writable((#[trigger] views[k]).1),
                    forall|k: int|
                        0 <= k < i ==> (out@[k].0@, value_view(out@[k].1)) == views[k],
                decreases fields.len() - i,
            {
                proof {
                    vstd::std_specs::vec::axiom_vec_index_decreases(*fields, i as int);
                }
                match value_of_json(&fields[i].1) {
                    Some(v) => {
                        out.push((fields[i].0.clone(), v));
                    },
                    None => {
                        assert(!writable(views[i as int].1));
                        assert(j@->Object_0[i as int] == views[i as int]);
                        assert(!writable(j@));
                        return None;
                    },
                }
                i += 1;
            }
            assert(members_view(out@) =~= views);
            Some(value_object(out))
        },
    }
}

/// Writes a value as text; refuses a value that cannot be written.
pub fn render_json(j: &Json) -> (r: Result<String, String>)
    ensures
        written(j@) == (match r {
            Ok(t) => Ok::<Seq<char>, Seq<char>>(t@),
            Err(m) => Err::<Seq<char>, Seq<char>>(m@),
        }),
{
    match value_of_json(j) {
        Some(v) => render_value(&v),
        None => Err(
            String::from_str(
                "a number that is no integer or an object that repeats a name cannot be written",
            ),
        ),
    }
}

} // verus!
