use vstd::prelude::*;
use crate::text::str_eq;

verus! {

/// A JSON number: an integer, or the literal of a number that is no integer.
#[derive(Debug, PartialEq, Eq)]
pub enum Number {
    PosInt(u64),
    NegInt(i64),
    Real(String),
}

pub enum NumberView {
    Int(int),
    Real(Seq<char>),
}

impl View for Number {
    type V = NumberView;

    open spec fn view(&self) -> NumberView {
        match self {
            Number::PosInt(n) => NumberView::Int(*n as int),
            Number::NegInt(n) => NumberView::Int(*n as int),
            Number::Real(t) => NumberView::Real(t@),
        }
    }
}

/// A JSON value. An object keeps its members in the order in which they were written.
#[derive(Debug, PartialEq, Eq)]
pub enum Json {
    Null,
    Bool(bool),
    Number(Number),
    Text(String),
    List(Vec<Json>),
    Object(Vec<(String, Json)>),
}

pub enum JsonView {
    Null,
    Bool(bool),
    Number(NumberView),
    Text(Seq<char>),
    List(Seq<JsonView>),
    Object(Seq<(Seq<char>, JsonView)>),
}

pub open spec fn json_view(j: Json) -> JsonView
    decreases j,
{
    match j {
        Json::Null => JsonView::Null,
        Json::Bool(b) => JsonView::Bool(b),
        Json::Number(n) => JsonView::Number(n@),
        Json::Text(t) => JsonView::Text(t@),
        Json::List(items) => JsonView::List(
            Seq::new(
                items@.len(),
                |i: int|
                    if 0 <= i < items@.len() {
                        json_view(items@[i])
                    } else {
                        JsonView::Null
                    },
            ),
        ),
        Json::Object(fields) => JsonView::Object(
            Seq::new(
                fields@.len(),
                |i: int|
                    if 0 <= i < fields@.len() {
                        (fields@[i].0@, json_view(fields@[i].1))
                    } else {
                        (Seq::empty(), JsonView::Null)
                    },
            ),
        ),
    }
}

impl View for Json {
    type V = JsonView;

    open spec fn view(&self) -> JsonView {
        json_view(*self)
    }
}

/// The members of an object, each as its name and its value's view.
pub open spec fn entries_view(fields: Seq<(String, Json)>) -> Seq<(Seq<char>, JsonView)> {
    Seq::new(fields.len(), |i: int| (fields[i].0@, fields[i].1@))
}

/// The elements of a list, each as its view.
pub open spec fn items_view(items: Seq<Json>) -> Seq<JsonView> {
    Seq::new(items.len(), |i: int| items[i]@)
}

pub proof fn lemma_view_object(fields: Vec<(String, Json)>)
    ensures
        Json::Object(fields)@ == JsonView::Object(entries_view(fields@)),
{
    reveal_with_fuel(json_view, 2);
    assert(Json::Object(fields)@->Object_0 =~= entries_view(fields@));
}

pub proof fn lemma_view_list(items: Vec<Json>)
    ensures
        Json::List(items)@ == JsonView::List(items_view(items@)),
{
    reveal_with_fuel(json_view, 2);
    assert(Json::List(items)@->List_0 =~= items_view(items@));
}

/// The value of the first member named `key`, if there is one.
pub open spec fn lookup(fields: Seq<(Seq<char>, JsonView)>, key: Seq<char>) -> Option<JsonView>
    decreases fields.len(),
{
    if fields.len() == 0 {
        None
    } else {
        match lookup(fields.drop_last(), key) {
            Some(v) => Some(v),
            None => if fields.last().0 == key {
                Some(fields.last().1)
            } else {
                None
            },
        }
    }
}

/// The member `key` of `j`: absent where `j` is no object or has no such member.
pub open spec fn member(j: JsonView, key: Seq<char>) -> Option<JsonView> {
    match j {
        JsonView::Object(fields) => lookup(fields, key),
        _ => None,
    }
}

pub proof fn lemma_lookup_prefix(fields: Seq<(Seq<char>, JsonView)>, key: Seq<char>, n: int)
    requires
        0 <= n <= fields.len(),
        lookup(fields.take(n), key) is Some,
    ensures
        lookup(fields, key) == lookup(fields.take(n), key),
    decreases fields.len() - n,
{
    if n < fields.len() {
        assert(fields.take(n + 1).drop_last() =~= fields.take(n));
        lemma_lookup_prefix(fields, key, n + 1);
    } else {
        assert(fields.take(n) =~= fields);
    }
}

/// A member pushed behind the others is found under its name unless an earlier one has it.
pub proof fn lemma_lookup_push(
    fields: Seq<(Seq<char>, JsonView)>,
    name: Seq<char>,
    value: JsonView,
    key: Seq<char>,
)
    ensures
        lookup(fields.push((name, value)), key) == (match lookup(fields, key) {
            Some(v) => Some(v),
            None => if name == key {
                Some(value)
            } else {
                None
            },
        }),
{
    assert(fields.push((name, value)).drop_last() =~= fields);
}

/// Among the members of two lists, one behind the other, a name is looked up in the
/// first list first.
pub proof fn lemma_lookup_concat(
    a: Seq<(Seq<char>, JsonView)>,
    b: Seq<(Seq<char>, JsonView)>,
    key: Seq<char>,
)
    ensures
        lookup(a + b, key) == (match lookup(a, key) {
            Some(v) => Some(v),
            None => lookup(b, key),
        }),
    decreases b.len(),
{
    if b.len() == 0 {
        assert(a + b =~= a);
    } else {
        assert((a + b).drop_last() =~= a + b.drop_last());
        assert((a + b).last() == b.last());
        lemma_lookup_concat(a, b.drop_last(), key);
    }
}

impl Json {
    /// Looks a member up by name.
    pub fn get<'a>(&'a self, key: &str) -> (r: Option<&'a Json>)
        ensures
            match r {
                Some(v) => member(self@, key@) == Some(v@),
                None => member(self@, key@) is None,
            },
    {
        match self {
            Json::Object(fields) => {
                proof {
                    lemma_view_object(*fields);
                }
                let ghost entries = entries_view(fields@);
                let mut i: usize = 0;
                while i < fields.len()
                    invariant
                        i <= fields.len(),
                        entries == entries_view(fields@),
                        self@ == JsonView::Object(entries),
                        lookup(entries.take(i as int), key@) is None,
                    decreases fields.len() - i,
                {
                    let k = &fields[i].0;
                    assert(entries.take(i + 1).drop_last() =~= entries.take(i as int));
                    if str_eq(k.as_str(), key) {
                        proof {
                            assert(entries.take(i + 1).last() == entries[i as int]);
                            lemma_lookup_prefix(entries, key@, i + 1);
                        }
                        return Some(&fields[i].1);
                    }
                    i += 1;
                }
                assert(entries.take(i as int) =~= entries);
                None
            },
            _ => None,
        }
    }

    /// A copy of the value.
    pub fn duplicate(&self) -> (r: Json)
        ensures
            r@ == self@,
        decreases self,
    {
        match self {
            Json::Null => Json::Null,
            Json::Bool(b) => Json::Bool(*b),
            Json::Number(Number::PosInt(n)) => Json::Number(Number::PosInt(*n)),
            Json::Number(Number::NegInt(n)) => Json::Number(Number::NegInt(*n)),
            Json::Number(Number::Real(t)) => Json::Number(Number::Real(t.clone())),
            Json::Text(t) => Json::Text(t.clone()),
            Json::List(items) => {
                let mut out: Vec<Json> = Vec::new();
                let mut i: usize = 0;
                while i < items.len()
                    invariant
                        i <= items.len(),
                        out@.len() == i,
                        self == Json::List(*items),
                        decreases_to!(*self => *items),
                        forall|k: int| 0 <= k < i ==> out@[k]@ == items@[k]@,
                    decreases items.len() - i,
                {
                    proof {
                        vstd::std_specs::vec::axiom_vec_index_decreases(*items, i as int);
                    }
                    let item = items[i].duplicate();
                    out.push(item);
                    i += 1;
                }
                proof {
                    lemma_view_list(*items);
                    lemma_view_list(out);
                    assert(items_view(out@) =~= items_view(items@));
                }
                Json::List(out)
            },
            Json::Object(fields) => {
                let mut out: Vec<(String, Json)> = Vec::new();
                let mut i: usize = 0;
                while i < fields.len()
                    invariant
                        i <= fields.len(),
                        out@.len() == i,
                        self == Json::Object(*fields),
                        decreases_to!(*self => *fields),
                        forall|k: int|
                            0 <= k < i ==> out@[k].0@ == fields@[k].0@ && out@[k].1@
                                == fields@[k].1@,
                    decreases fields.len() - i,
                {
                    let name = fields[i].0.clone();
                    proof {
                        vstd::std_specs::vec::axiom_vec_index_decreases(*fields, i as int);
                    }
                    let value = fields[i].1.duplicate();
                    out.push((name, value));
                    i += 1;
                }
                proof {
                    lemma_view_object(*fields);
                    lemma_view_object(out);
                    assert(entries_view(out@) =~= entries_view(fields@));
                }
                Json::Object(out)
            },
        }
    }
}

} // verus!
