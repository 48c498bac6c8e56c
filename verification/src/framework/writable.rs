use vstd::prelude::*;
use crate::framework::encode::{list_json, optional_member, required_member, ToJson};
use crate::framework::pairs::StringMap;
use crate::json::{lookup, JsonView};
use crate::syntax::{names_differ, rendered, writable, written};

verus! {

/// A type whose JSON can be written as text: what is written for a sound value holds
/// no number that is no integer, and no object that repeats a name.
pub trait Writable: ToJson + Sized {
    /// Whether the value is in order; for most types every value is.
    spec fn sound(&self) -> bool;

    proof fn lemma_writable(v: Self)
        requires
            v.sound(),
        ensures
            writable(v.json()),
    ;
}

impl Writable for String {
    open spec fn sound(&self) -> bool {
        true
    }

    proof fn lemma_writable(v: Self) {
    }
}

impl<'a> Writable for &'a str {
    open spec fn sound(&self) -> bool {
        true
    }

    proof fn lemma_writable(v: Self) {
    }
}

impl Writable for bool {
    open spec fn sound(&self) -> bool {
        true
    }

    proof fn lemma_writable(v: Self) {
    }
}

impl Writable for u8 {
    open spec fn sound(&self) -> bool {
        true
    }

    proof fn lemma_writable(v: Self) {
    }
}

impl Writable for u16 {
    open spec fn sound(&self) -> bool {
        true
    }

    proof fn lemma_writable(v: Self) {
    }
}

impl Writable for u32 {
    open spec fn sound(&self) -> bool {
        true
    }

    proof fn lemma_writable(v: Self) {
    }
}

impl<T: Writable> Writable for Vec<T> {
    open spec fn sound(&self) -> bool {
        forall|i: int| 0 <= i < self@.len() ==> (#[trigger] self@[i]).sound()
    }

    proof fn lemma_writable(v: Self) {
        assert forall|i: int| 0 <= i < v@.len() implies writable(
            #[trigger] list_json::<T>(v@)[i],
        ) by {
            assert(v@[i].sound());
            T::lemma_writable(v@[i]);
        }
    }
}

impl Writable for StringMap {
    open spec fn sound(&self) -> bool {
        self.wf()
    }

    proof fn lemma_writable(v: Self) {
        let fields = v.members();
        assert forall|i: int, j: int| 0 <= i < j < fields.len() implies fields[i].0
            != fields[j].0 by {
            assert(v@[i].0 == fields[i].0);
            assert(v@[j].0 == fields[j].0);
        }
        assert forall|i: int| 0 <= i < fields.len() implies writable(
            (#[trigger] fields[i]).1,
        ) by {
        }
    }
}

/// Whether the value of every member can be written.
pub open spec fn all_writable(fields: Seq<(Seq<char>, JsonView)>) -> bool {
    forall|i: int| 0 <= i < fields.len() ==> writable((#[trigger] fields[i]).1)
}

/// A name that is not found is the name of no member.
pub proof fn lemma_lookup_none(fields: Seq<(Seq<char>, JsonView)>, key: Seq<char>, i: int)
    requires
        lookup(fields, key) is None,
        0 <= i < fields.len(),
    ensures
        fields[i].0 != key,
    decreases fields.len(),
{
    if i < fields.len() - 1 {
        lemma_lookup_none(fields.drop_last(), key, i);
    }
}

/// Members behind others, none of them under a name that is in use, keep the names
/// apart and the values writable.
pub proof fn lemma_extend(a: Seq<(Seq<char>, JsonView)>, b: Seq<(Seq<char>, JsonView)>)
    requires
        names_differ(a),
        all_writable(a),
        names_differ(b),
        all_writable(b),
        forall|i: int| 0 <= i < b.len() ==> lookup(a, (#[trigger] b[i]).0) is None,
    ensures
        names_differ(a + b),
        all_writable(a + b),
{
    let s = a + b;
    assert forall|i: int, j: int| 0 <= i < j < s.len() implies s[i].0 != s[j].0 by {
        if j < a.len() {
            assert(s[i] == a[i] && s[j] == a[j]);
        } else if i < a.len() {
            assert(s[i] == a[i]);
            assert(s[j] == b[j - a.len()]);
            lemma_lookup_none(a, b[j - a.len()].0, i);
        } else {
            assert(s[i] == b[i - a.len()] && s[j] == b[j - a.len()]);
        }
    }
    assert forall|i: int| 0 <= i < s.len() implies writable((#[trigger] s[i]).1) by {
        if i < a.len() {
            assert(s[i] == a[i]);
        } else {
            assert(s[i] == b[i - a.len()]);
        }
    }
}

/// The member of a field that is always written.
pub proof fn lemma_required_part<T: Writable>(key: Seq<char>, value: T)
    requires
        value.sound(),
    ensures
        names_differ(required_member::<T>(key, value)),
        all_writable(required_member::<T>(key, value)),
        required_member::<T>(key, value).len() == 1,
        required_member::<T>(key, value)[0].0 == key,
{
    T::lemma_writable(value);
}

/// The member of a field that may be absent.
pub proof fn lemma_optional_part<T: Writable>(key: Seq<char>, value: Option<T>)
    requires
        value matches Some(v) ==> v.sound(),
    ensures
        names_differ(optional_member::<T>(key, value)),
        all_writable(optional_member::<T>(key, value)),
        forall|i: int|
            0 <= i < optional_member::<T>(key, value).len() ==> (#[trigger] optional_member::<T>(
                key,
                value,
            )[i]).0 == key,
{
    match value {
        Some(v) => {
            T::lemma_writable(v);
        },
        None => {},
    }
}

/// What is written for a sound value is refused by nothing but the serializer.
pub proof fn lemma_sound_is_written<T: Writable>(v: T)
    requires
        v.sound(),
    ensures
        written(v.json()) == rendered(v.json()),
{
    T::lemma_writable(v);
}

} // verus!
