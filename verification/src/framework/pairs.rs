use vstd::prelude::*;
use crate::framework::decode::{ApiResult, DecodeError, DecodeErrorView, Kind};
use crate::framework::encode::ToJson;
use crate::json::{entries_view, lemma_view_object, member, Json, JsonView};
use crate::text::str_eq;

verus! {

/// A map from names to texts. It keeps its entries in the order in which their names
/// first came, and is well formed where no name occurs twice.
#[derive(Clone, Debug, PartialEq, Eq)]
pub struct StringMap {
    pub entries: Vec<(String, String)>,
}

impl View for StringMap {
    type V = Seq<(Seq<char>, Seq<char>)>;

    open spec fn view(&self) -> Seq<(Seq<char>, Seq<char>)> {
        Seq::new(self.entries@.len(), |i: int| (self.entries@[i].0@, self.entries@[i].1@))
    }
}

/// Whether no name occurs twice.
pub open spec fn names_differ(s: Seq<(Seq<char>, Seq<char>)>) -> bool {
    forall|i: int, j: int| 0 <= i < j < s.len() ==> s[i].0 != s[j].0
}

/// Whether an entry has the name.
pub open spec fn holds(s: Seq<(Seq<char>, Seq<char>)>, name: Seq<char>) -> bool {
    exists|i: int| 0 <= i < s.len() && s[i].0 == name
}

/// The entries after a text is put under a name: in the place of the entry that has
/// the name, or behind all entries where none has it.
pub open spec fn put(s: Seq<(Seq<char>, Seq<char>)>, name: Seq<char>, value: Seq<char>) -> Seq<
    (Seq<char>, Seq<char>),
> {
    if holds(s, name) {
        let i = choose|i: int| 0 <= i < s.len() && s[i].0 == name;
        s.update(i, (name, value))
    } else {
        s.push((name, value))
    }
}

/// The text of a JSON value that is one.
pub open spec fn text_of(j: JsonView) -> Seq<char> {
    match j {
        JsonView::Text(t) => t,
        _ => Seq::empty(),
    }
}

/// The entries that the members of an object give, put one after the other: of two
/// members with one name, the later gives the text and the earlier the place.
pub open spec fn collected(fields: Seq<(Seq<char>, JsonView)>) -> Seq<(Seq<char>, Seq<char>)>
    decreases fields.len(),
{
    if fields.len() == 0 {
        Seq::empty()
    } else {
        put(collected(fields.drop_last()), fields.last().0, text_of(fields.last().1))
    }
}

impl StringMap {
    /// Whether no name occurs twice.
    pub open spec fn wf(&self) -> bool {
        names_differ(self@)
    }

    /// The entries as the members of a JSON object.
    pub open spec fn members(&self) -> Seq<(Seq<char>, JsonView)> {
        Seq::new(
            self.entries@.len(),
            |i: int| (self.entries@[i].0@, JsonView::Text(self.entries@[i].1@)),
        )
    }

    /// The map without entries.
    pub fn new() -> (m: StringMap)
        ensures
            m.wf(),
            m@.len() == 0,
    {
        StringMap { entries: Vec::new() }
    }

    /// Puts a text under a name.
    pub fn insert(&mut self, name: String, value: String)
        requires
            old(self).wf(),
        ensures
            final(self).wf(),
            final(self)@ == put(old(self)@, name@, value@),
    {
        let ghost before = self@;
        let mut i: usize = 0;
        while i < self.entries.len()
            invariant
                i <= self.entries.len(),
                self@ == before,
                before == old(self)@,
                names_differ(before),
                forall|k: int| 0 <= k < i ==> before[k].0 != name@,
            decreases self.entries.len() - i,
        {
            if str_eq(self.entries[i].0.as_str(), name.as_str()) {
                let ghost found = i as int;
                proof {
                    assert(before[found].0 == name@);
                    assert(holds(before, name@));
                    let chosen = choose|c: int| 0 <= c < before.len() && before[c].0 == name@;
                    assert(chosen == found) by {
                        if chosen < found {
                            assert(before[chosen].0 != before[found].0);
                        } else if found < chosen {
                            assert(before[found].0 != before[chosen].0);
                        }
                    }
                }
                self.entries.set(i, (name, value));
                proof {
                    assert(self@ =~= before.update(found, (name@, value@)));
                    assert forall|a: int, b: int| 0 <= a < b < self@.len() implies self@[a].0
                        != self@[b].0 by {
                        assert(self@[a].0 == before[a].0);
                        assert(self@[b].0 == before[b].0);
                    }
                }
                return ;
            }
            i += 1;
        }
        self.entries.push((name, value));
        proof {
            assert(!holds(before, name@));
            assert(self@ =~= before.push((name@, value@)));
            assert forall|a: int, b: int| 0 <= a < b < self@.len() implies self@[a].0
                != self@[b].0 by {
                if b < before.len() {
                    assert(self@[a].0 == before[a].0);
                    assert(self@[b].0 == before[b].0);
                } else {
                    assert(self@[a].0 == before[a].0);
                }
            }
        }
    }

    /// The text under a name.
    pub fn get(&self, name: &str) -> (r: Option<&String>)
        ensures
            match r {
                Some(value) => exists|i: int|
                    0 <= i < self@.len() && self@[i] == (name@, value@),
                None => !holds(self@, name@),
            },
    {
        let mut i: usize = 0;
        while i < self.entries.len()
            invariant
                i <= self.entries.len(),
                forall|k: int| 0 <= k < i ==> self@[k].0 != name@,
            decreases self.entries.len() - i,
        {
            if str_eq(self.entries[i].0.as_str(), name) {
                assert(self@[i as int] == (name@, self.entries@[i as int].1@));
                return Some(&self.entries[i].1);
            }
            i += 1;
        }
        None
    }
}

impl ToJson for StringMap {
    open spec fn json(&self) -> JsonView {
        JsonView::Object(self.members())
    }

    fn to_json(&self) -> (j: Json) {
        let mut fields: Vec<(String, Json)> = Vec::new();
        let mut i: usize = 0;
        while i < self.entries.len()
            invariant
                i <= self.entries.len(),
                fields@.len() == i,
                forall|k: int|
                    0 <= k < i ==> fields@[k].0@ == self.entries@[k].0@ && fields@[k].1@
                        == JsonView::Text(self.entries@[k].1@),
            decreases self.entries.len() - i,
        {
            fields.push((self.entries[i].0.clone(), Json::Text(self.entries[i].1.clone())));
            i += 1;
        }
        proof {
            lemma_view_object(fields);
            assert(entries_view(fields@) =~= self.members());
        }
        Json::Object(fields)
    }
}

/// Why the first member whose value is no text is refused.
pub open spec fn first_non_text(fields: Seq<(Seq<char>, JsonView)>) -> Option<DecodeErrorView>
    decreases fields.len(),
{
    if fields.len() == 0 {
        None
    } else {
        match first_non_text(fields.drop_last()) {
            Some(e) => Some(e),
            None => if fields.last().1 is Text {
                None
            } else {
                Some(DecodeErrorView::InvalidType(Kind::Text))
            },
        }
    }
}

proof fn lemma_first_non_text_prefix(fields: Seq<(Seq<char>, JsonView)>, n: int)
    requires
        0 <= n <= fields.len(),
        first_non_text(fields.take(n)) is Some,
    ensures
        first_non_text(fields) == first_non_text(fields.take(n)),
    decreases fields.len() - n,
{
    if n < fields.len() {
        assert(fields.take(n + 1).drop_last() =~= fields.take(n));
        lemma_first_non_text_prefix(fields, n + 1);
    } else {
        assert(fields.take(n) =~= fields);
    }
}

impl ApiResult for StringMap {
    open spec fn rejection(j: JsonView) -> Option<DecodeErrorView> {
        match j {
            JsonView::Object(fields) => first_non_text(fields),
            _ => Some(DecodeErrorView::InvalidType(Kind::Object)),
        }
    }

    open spec fn decodes(j: JsonView, v: Self) -> bool {
        match j {
            JsonView::Object(fields) => v.wf() && v@ == collected(fields),
            _ => false,
        }
    }

    fn from_json(j: &Json) -> (r: Result<Self, DecodeError>) {
        match j {
            Json::Object(fields) => {
                proof {
                    lemma_view_object(*fields);
                }
                let ghost views = entries_view(fields@);
                let mut map = StringMap::new();
                assert(map@ =~= collected(views.take(0)));
                let mut i: usize = 0;
                while i < fields.len()
                    invariant
                        i <= fields.len(),
                        views == entries_view(fields@),
                        j@ == JsonView::Object(views),
                        map.wf(),
                        map@ == collected(views.take(i as int)),
                        first_non_text(views.take(i as int)) is None,
                    decreases fields.len() - i,
                {
                    proof {
                        assert(views.take(i + 1).drop_last() =~= views.take(i as int));
                        assert(views.take(i + 1).last() == views[i as int]);
                    }
                    match &fields[i].1 {
                        Json::Text(t) => {
                            map.insert(fields[i].0.clone(), t.clone());
                        },
                        _ => {
                            proof {
                                lemma_first_non_text_prefix(views, i + 1);
                            }
                            return Err(DecodeError::InvalidType(Kind::Text));
                        },
                    }
                    i += 1;
                }
                proof {
                    assert(views.take(i as int) =~= views);
                }
                Ok(map)
            },
            _ => Err(DecodeError::InvalidType(Kind::Object)),
        }
    }
}

/// Why the member `key` of `j` gives no map, a missing member standing for the empty
/// map.
pub open spec fn mapped_rejection(j: JsonView, key: Seq<char>) -> Option<DecodeErrorView> {
    match member(j, key) {
        None => None,
        Some(x) => StringMap::rejection(x),
    }
}

pub open spec fn mapped_decodes(j: JsonView, key: Seq<char>, v: StringMap) -> bool {
    match member(j, key) {
        None => v@.len() == 0,
        Some(x) => StringMap::decodes(x, v),
    }
}

/// Decodes a map that is empty where the member is missing.
pub fn mapped(j: &Json, key: &str) -> (r: Result<StringMap, DecodeError>)
    ensures
        match r {
            Ok(v) => mapped_rejection(j@, key@) is None && mapped_decodes(j@, key@, v),
            Err(e) => mapped_rejection(j@, key@) == Some(e@),
        },
{
    match j.get(key) {
        None => Ok(StringMap::new()),
        Some(x) => StringMap::from_json(x),
    }
}

} // verus!
