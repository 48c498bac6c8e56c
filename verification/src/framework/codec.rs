use vstd::prelude::*;
use crate::framework::decode::{first_rejection, ApiResult};
use crate::framework::encode::{list_json, optional_member, required_member, ToJson};
use crate::json::{lemma_lookup_push, lookup};

verus! {

/// A type that is written as JSON and decoded from it, such that decoding undoes
/// writing.
pub trait Codec: ToJson + ApiResult {
    /// What is written for a value is accepted and decodes to that value; and any
    /// value that it decodes to is written as the value itself is. No value is
    /// written as null.
    proof fn lemma_round_trip(v: Self)
        ensures
            !(v.json() is Null),
            Self::rejection(v.json()) is None,
            Self::decodes(v.json(), v),
            forall|w: Self| Self::decodes(v.json(), w) ==> w.json() == v.json(),
    ;
}

impl Codec for String {
    proof fn lemma_round_trip(v: Self) {
    }
}

impl Codec for bool {
    proof fn lemma_round_trip(v: Self) {
    }
}

impl Codec for u8 {
    proof fn lemma_round_trip(v: Self) {
    }
}

impl Codec for u16 {
    proof fn lemma_round_trip(v: Self) {
    }
}

impl Codec for u32 {
    proof fn lemma_round_trip(v: Self) {
    }
}

proof fn lemma_list_accepted<T: Codec>(items: Seq<T>)
    ensures
        first_rejection::<T>(list_json::<T>(items)) is None,
    decreases items.len(),
{
    if items.len() > 0 {
        assert(list_json::<T>(items).drop_last() =~= list_json::<T>(items.drop_last()));
        lemma_list_accepted::<T>(items.drop_last());
        T::lemma_round_trip(items.last());
    }
}

impl<T: Codec> Codec for Vec<T> {
    proof fn lemma_round_trip(v: Self) {
        lemma_list_accepted::<T>(v@);
        assert forall|i: int| 0 <= i < v@.len() implies T::decodes(
            #[trigger] list_json::<T>(v@)[i],
            v@[i],
        ) by {
            T::lemma_round_trip(v@[i]);
        }
        assert forall|w: Self| Self::decodes(v.json(), w) implies w.json() == v.json() by {
            assert forall|i: int| 0 <= i < v@.len() implies w@[i].json() == v@[i].json() by {
                T::lemma_round_trip(v@[i]);
                assert(T::decodes(list_json::<T>(v@)[i], w@[i]));
            }
            assert(list_json::<T>(w@) =~= list_json::<T>(v@));
        }
    }
}

/// Where a field that is always written is found among the members it contributes.
pub proof fn lemma_required_lookup<T: ToJson>(name: Seq<char>, value: T, key: Seq<char>)
    ensures
        lookup(required_member::<T>(name, value), key) == (if name == key {
            Some(value.json())
        } else {
            None
        }),
{
    lemma_lookup_push(Seq::empty(), name, value.json(), key);
    assert(required_member::<T>(name, value) =~= Seq::empty().push((name, value.json())));
}

/// Where a field that may be absent is found among the members it contributes.
pub proof fn lemma_optional_lookup<T: ToJson>(name: Seq<char>, value: Option<T>, key: Seq<char>)
    ensures
        lookup(optional_member::<T>(name, value), key) == (if name == key && value is Some {
            Some(value.unwrap().json())
        } else {
            None
        }),
{
    match value {
        Some(v) => {
            lemma_lookup_push(Seq::empty(), name, v.json(), key);
            assert(optional_member::<T>(name, value) =~= Seq::empty().push((name, v.json())));
        },
        None => {},
    }
}

/// Texts that decode from the JSON written for a list of texts are those texts.
pub proof fn lemma_texts_agree(x: Vec<String>, y: Vec<String>)
    requires
        Vec::<String>::decodes(x.json(), y),
    ensures
        y.deep_view() == x.deep_view(),
{
    assert forall|i: int| 0 <= i < x@.len() implies y@[i]@ == x@[i]@ by {
        assert(String::decodes(list_json::<String>(x@)[i], y@[i]));
    }
    assert(y.deep_view() =~= x.deep_view());
}

} // verus!
