use vstd::prelude::*;
use vstd::string::*;
use crate::json::{
    entries_view, items_view, lemma_view_list, lemma_view_object, Json, JsonView, Number,
    NumberView,
};

verus! {

/// A type that is written as a JSON value.
pub trait ToJson {
    /// The JSON value that stands for `self`.
    spec fn json(&self) -> JsonView;

    fn to_json(&self) -> (j: Json)
        ensures
            j@ == self.json(),
    ;
}

impl ToJson for String {
    open spec fn json(&self) -> JsonView {
        JsonView::Text(self@)
    }

    fn to_json(&self) -> (j: Json) {
        Json::Text(self.clone())
    }
}

impl<'a> ToJson for &'a str {
    open spec fn json(&self) -> JsonView {
        JsonView::Text(self@)
    }

    fn to_json(&self) -> (j: Json) {
        Json::Text(String::from_str(*self))
    }
}

impl ToJson for bool {
    open spec fn json(&self) -> JsonView {
        JsonView::Bool(*self)
    }

    fn to_json(&self) -> (j: Json) {
        Json::Bool(*self)
    }
}

impl ToJson for u8 {
    open spec fn json(&self) -> JsonView {
        JsonView::Number(NumberView::Int(*self as int))
    }

    fn to_json(&self) -> (j: Json) {
        Json::Number(Number::PosInt(*self as u64))
    }
}

impl ToJson for u16 {
    open spec fn json(&self) -> JsonView {
        JsonView::Number(NumberView::Int(*self as int))
    }

    fn to_json(&self) -> (j: Json) {
        Json::Number(Number::PosInt(*self as u64))
    }
}

impl ToJson for u32 {
    open spec fn json(&self) -> JsonView {
        JsonView::Number(NumberView::Int(*self as int))
    }

    fn to_json(&self) -> (j: Json) {
        Json::Number(Number::PosInt(*self as u64))
    }
}

/// The JSON values of the elements of a list, in order.
pub open spec fn list_json<T: ToJson>(items: Seq<T>) -> Seq<JsonView> {
    Seq::new(items.len(), |i: int| items[i].json())
}

impl<T: ToJson> ToJson for Vec<T> {
    open spec fn json(&self) -> JsonView {
        JsonView::List(list_json::<T>(self@))
    }

    fn to_json(&self) -> (j: Json) {
        let mut out: Vec<Json> = Vec::new();
        let mut i: usize = 0;
        while i < self.len()
            invariant
                i <= self.len(),
                out@.len() == i,
                forall|k: int| 0 <= k < i ==> out@[k]@ == self@[k].json(),
            decreases self.len() - i,
        {
            let item = self[i].to_json();
            out.push(item);
            i += 1;
        }
        proof {
            lemma_view_list(out);
            assert(items_view(out@) =~= list_json::<T>(self@));
        }
        Json::List(out)
    }
}

/// The member that a field contributes to an object: none where the field is absent.
pub open spec fn optional_member<T: ToJson>(key: Seq<char>, value: Option<T>) -> Seq<
    (Seq<char>, JsonView),
> {
    match value {
        Some(v) => seq![(key, v.json())],
        None => Seq::empty(),
    }
}

/// The member that a field which is always present contributes to an object.
pub open spec fn required_member<T: ToJson>(key: Seq<char>, value: T) -> Seq<
    (Seq<char>, JsonView),
> {
    seq![(key, value.json())]
}

/// The members that an object written into its parent contributes to the parent.
pub open spec fn flattened_members(j: JsonView) -> Seq<(Seq<char>, JsonView)> {
    match j {
        JsonView::Object(fields) => fields,
        _ => Seq::empty(),
    }
}

/// Collects the members of a JSON object in the order in which they are added.
pub struct ObjectBuilder {
    fields: Vec<(String, Json)>,
}

impl View for ObjectBuilder {
    type V = Seq<(Seq<char>, JsonView)>;

    closed spec fn view(&self) -> Seq<(Seq<char>, JsonView)> {
        entries_view(self.fields@)
    }
}

impl ObjectBuilder {
    pub fn new() -> (b: ObjectBuilder)
        ensures
            b@ == Seq::<(Seq<char>, JsonView)>::empty(),
    {
        let b = ObjectBuilder { fields: Vec::new() };
        assert(b@ =~= Seq::<(Seq<char>, JsonView)>::empty());
        b
    }

    /// Adds a member whose value is given as JSON.
    pub fn member(&mut self, key: &str, value: Json)
        ensures
            final(self)@ == old(self)@.push((key@, value@)),
    {
        self.fields.push((String::from_str(key), value));
        assert(final(self)@ =~= old(self)@.push((key@, value@)));
    }

    /// Adds a field that is always written.
    pub fn field<T: ToJson>(&mut self, key: &str, value: &T)
        ensures
            final(self)@ == old(self)@ + required_member::<T>(key@, *value),
    {
        let j = value.to_json();
        self.member(key, j);
        assert(final(self)@ =~= old(self)@ + required_member::<T>(key@, *value));
    }

    /// Adds a field that is written only where it is present.
    pub fn optional<T: ToJson>(&mut self, key: &str, value: &Option<T>)
        ensures
            final(self)@ == old(self)@ + optional_member::<T>(key@, *value),
    {
        match value {
            Some(v) => {
                let j = v.to_json();
                self.member(key, j);
            },
            None => {},
        }
        assert(final(self)@ =~= old(self)@ + optional_member::<T>(key@, *value));
    }

    /// Adds the members of another object in their order; adds nothing for a value
    /// that is no object.
    pub fn flatten(&mut self, value: Json)
        ensures
            final(self)@ == old(self)@ + flattened_members(value@),
    {
        match value {
            Json::Object(inner) => {
                proof {
                    lemma_view_object(inner);
                }
                let ghost before = self@;
                let ghost added = entries_view(inner@);
                let mut inner = inner;
                let mut rest: Vec<(String, Json)> = Vec::new();
                // Move the members over one by one, from the last to the first, and
                // put them back in their order.
                while inner.len() > 0
                    invariant
                        rest@.len() + inner@.len() == added.len(),
                        forall|k: int|
                            0 <= k < inner@.len() ==> (inner@[k].0@, inner@[k].1@) == added[k],
                        forall|k: int|
                            0 <= k < rest@.len() ==> (rest@[k].0@, rest@[k].1@) == added[
                                added.len() - 1 - k
                            ],
                    decreases inner.len(),
                {
                    let entry = inner.pop().unwrap();
                    rest.push(entry);
                }
                while rest.len() > 0
                    invariant
                        rest@.len() <= added.len(),
                        forall|k: int|
                            0 <= k < rest@.len() ==> (rest@[k].0@, rest@[k].1@) == added[
                                added.len() - 1 - k
                            ],
                        self@ == before + added.take(added.len() - rest@.len()),
                    decreases rest.len(),
                {
                    let entry = rest.pop().unwrap();
                    let ghost n = added.len() - rest@.len() - 1;
                    let ghost so_far = self@;
                    assert((entry.0@, entry.1@) == added[n]);
                    self.fields.push(entry);
                    assert(self@ =~= so_far.push(added[n]));
                    assert(added.take(n + 1) =~= added.take(n).push(added[n]));
                    assert(self@ =~= before + added.take(n + 1));
                }
                assert(added.take(added.len() as int) =~= added);
            },
            _ => {
                assert(self@ + flattened_members(value@) =~= self@);
            },
        }
    }

    /// The object with the members added so far.
    pub fn build(self) -> (j: Json)
        ensures
            j@ == JsonView::Object(self@),
    {
        proof {
            lemma_view_object(self.fields);
        }
        Json::Object(self.fields)
    }
}

} // verus!
