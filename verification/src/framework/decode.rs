use vstd::prelude::*;
use vstd::string::*;
use crate::json::{
    entries_view, items_view, lemma_view_list, lemma_view_object, member, Json, JsonView, Number,
    NumberView,
};
use crate::text::str_eq;

verus! {

/// The JSON kinds and ranges that a decoder can ask for.
#[derive(Clone, Copy, Debug, PartialEq, Eq, Structural)]
pub enum Kind {
    Object,
    List,
    Text,
    Bool,
    Unsigned8,
    Unsigned16,
    Unsigned32,
    Unsigned64,
    Signed32,
    Number,
    Timestamp,
}

/// Why a JSON value could not be decoded.
#[derive(Debug, PartialEq, Eq)]
pub enum DecodeError {
    /// A required field is absent; holds the field's name.
    MissingField(String),
    /// A member is none of those that the alternative admits; holds the member's name.
    UnknownField(String),
    /// The value is of another JSON kind, or outside the range, than the one expected.
    InvalidType(Kind),
    /// A discriminator names no alternative; holds the raw value.
    UnknownDiscriminator(Json),
    /// No alternative of an untagged union matched; holds the raw fragment.
    NoAlternative(Json),
}

pub enum DecodeErrorView {
    MissingField(Seq<char>),
    UnknownField(Seq<char>),
    InvalidType(Kind),
    UnknownDiscriminator(JsonView),
    NoAlternative(JsonView),
}

impl View for DecodeError {
    type V = DecodeErrorView;

    open spec fn view(&self) -> DecodeErrorView {
        match self {
            DecodeError::MissingField(name) => DecodeErrorView::MissingField(name@),
            DecodeError::UnknownField(name) => DecodeErrorView::UnknownField(name@),
            DecodeError::InvalidType(kind) => DecodeErrorView::InvalidType(*kind),
            DecodeError::UnknownDiscriminator(raw) => DecodeErrorView::UnknownDiscriminator(raw@),
            DecodeError::NoAlternative(raw) => DecodeErrorView::NoAlternative(raw@),
        }
    }
}

/// A type that can be decoded from a JSON value.
pub trait ApiResult: Sized {
    /// Why `j` is not a value of this type; `None` when it is one.
    spec fn rejection(j: JsonView) -> Option<DecodeErrorView>;

    /// Whether `v` is what `j` decodes to.
    spec fn decodes(j: JsonView, v: Self) -> bool;

    fn from_json(j: &Json) -> (r: Result<Self, DecodeError>)
        ensures
            match r {
                Ok(v) => Self::rejection(j@) is None && Self::decodes(j@, v),
                Err(e) => Self::rejection(j@) == Some(e@),
            },
    ;
}

impl ApiResult for String {
    open spec fn rejection(j: JsonView) -> Option<DecodeErrorView> {
        if j is Text { None } else { Some(DecodeErrorView::InvalidType(Kind::Text)) }
    }

    open spec fn decodes(j: JsonView, v: Self) -> bool {
        j == JsonView::Text(v@)
    }

    fn from_json(j: &Json) -> (r: Result<Self, DecodeError>) {
        match j {
            Json::Text(t) => Ok(t.clone()),
            _ => Err(DecodeError::InvalidType(Kind::Text)),
        }
    }
}

impl ApiResult for bool {
    open spec fn rejection(j: JsonView) -> Option<DecodeErrorView> {
        if j is Bool { None } else { Some(DecodeErrorView::InvalidType(Kind::Bool)) }
    }

    open spec fn decodes(j: JsonView, v: Self) -> bool {
        j == JsonView::Bool(v)
    }

    fn from_json(j: &Json) -> (r: Result<Self, DecodeError>) {
        match j {
            Json::Bool(b) => Ok(*b),
            _ => Err(DecodeError::InvalidType(Kind::Bool)),
        }
    }
}

impl ApiResult for u32 {
    open spec fn rejection(j: JsonView) -> Option<DecodeErrorView> {
        match j {
            JsonView::Number(NumberView::Int(n)) if 0 <= n <= u32::MAX => None,
            _ => Some(DecodeErrorView::InvalidType(Kind::Unsigned32)),
        }
    }

    open spec fn decodes(j: JsonView, v: Self) -> bool {
        j == JsonView::Number(NumberView::Int(v as int))
    }

    fn from_json(j: &Json) -> (r: Result<Self, DecodeError>) {
        match j {
            Json::Number(Number::PosInt(n)) => {
                if *n <= 0xffff_ffff {
                    Ok(*n as u32)
                } else {
                    Err(DecodeError::InvalidType(Kind::Unsigned32))
                }
            },
            Json::Number(Number::NegInt(n)) => {
                if 0 <= *n && *n <= 0xffff_ffff {
                    Ok(*n as u32)
                } else {
                    Err(DecodeError::InvalidType(Kind::Unsigned32))
                }
            },
            _ => Err(DecodeError::InvalidType(Kind::Unsigned32)),
        }
    }
}

/// The reason for which the first element of `items` that is no `T` is rejected.
pub open spec fn first_rejection<T: ApiResult>(items: Seq<JsonView>) -> Option<DecodeErrorView>
    decreases items.len(),
{
    if items.len() == 0 {
        None
    } else {
        match first_rejection::<T>(items.drop_last()) {
            Some(e) => Some(e),
            None => T::rejection(items.last()),
        }
    }
}

impl<T: ApiResult> ApiResult for Vec<T> {
    open spec fn rejection(j: JsonView) -> Option<DecodeErrorView> {
        match j {
            JsonView::List(items) => first_rejection::<T>(items),
            _ => Some(DecodeErrorView::InvalidType(Kind::List)),
        }
    }

    open spec fn decodes(j: JsonView, v: Self) -> bool {
        &&& j is List
        &&& j->List_0.len() == v@.len()
        &&& forall|i: int| 0 <= i < v@.len() ==> T::decodes(#[trigger] j->List_0[i], v@[i])
    }

    fn from_json(j: &Json) -> (r: Result<Self, DecodeError>) {
        match j {
            Json::List(items) => {
                proof { lemma_view_list(*items); }
                let ghost views = items_view(items@);
                let mut out: Vec<T> = Vec::new();
                let mut i: usize = 0;
                while i < items.len()
                    invariant
                        i <= items.len(),
                        views == items_view(items@),
                        j@ == JsonView::List(views),
                        out@.len() == i,
                        first_rejection::<T>(views.take(i as int)) is None,
                        forall|k: int| 0 <= k < i ==> T::decodes(#[trigger] views[k], out@[k]),
                    decreases items.len() - i,
                {
                    assert(views.take(i + 1).drop_last() =~= views.take(i as int));
                    assert(views.take(i + 1).last() == views[i as int]);
                    match T::from_json(&items[i]) {
                        Ok(v) => { out.push(v); },
                        Err(e) => {
                            proof { lemma_first_rejection_prefix::<T>(views, i + 1); }
                            return Err(e);
                        },
                    }
                    i += 1;
                }
                assert(views.take(i as int) =~= views);
                Ok(out)
            },
            _ => Err(DecodeError::InvalidType(Kind::List)),
        }
    }
}

pub proof fn lemma_first_rejection_prefix<T: ApiResult>(items: Seq<JsonView>, n: int)
    requires
        0 <= n <= items.len(),
        first_rejection::<T>(items.take(n)) is Some,
    ensures
        first_rejection::<T>(items) == first_rejection::<T>(items.take(n)),
    decreases items.len() - n,
{
    if n < items.len() {
        assert(items.take(n + 1).drop_last() =~= items.take(n));
        lemma_first_rejection_prefix::<T>(items, n + 1);
    } else {
        assert(items.take(n) =~= items);
    }
}

impl<T: ApiResult> ApiResult for Option<T> {
    open spec fn rejection(j: JsonView) -> Option<DecodeErrorView> {
        if j is Null { None } else { T::rejection(j) }
    }

    open spec fn decodes(j: JsonView, v: Self) -> bool {
        match v {
            None => j is Null,
            Some(x) => !(j is Null) && T::decodes(j, x),
        }
    }

    fn from_json(j: &Json) -> (r: Result<Self, DecodeError>) {
        match j {
            Json::Null => Ok(None),
            _ => match T::from_json(j) {
                Ok(v) => Ok(Some(v)),
                Err(e) => Err(e),
            },
        }
    }
}

impl ApiResult for u8 {
    open spec fn rejection(j: JsonView) -> Option<DecodeErrorView> {
        match j {
            JsonView::Number(NumberView::Int(n)) if 0 <= n <= u8::MAX => None,
            _ => Some(DecodeErrorView::InvalidType(Kind::Unsigned8)),
        }
    }

    open spec fn decodes(j: JsonView, v: Self) -> bool {
        j == JsonView::Number(NumberView::Int(v as int))
    }

    fn from_json(j: &Json) -> (r: Result<Self, DecodeError>) {
        match j {
            Json::Number(Number::PosInt(n)) => {
                if *n <= 0xff {
                    Ok(*n as u8)
                } else {
                    Err(DecodeError::InvalidType(Kind::Unsigned8))
                }
            },
            Json::Number(Number::NegInt(n)) => {
                if 0 <= *n && *n <= 0xff {
                    Ok(*n as u8)
                } else {
                    Err(DecodeError::InvalidType(Kind::Unsigned8))
                }
            },
            _ => Err(DecodeError::InvalidType(Kind::Unsigned8)),
        }
    }
}

impl ApiResult for u16 {
    open spec fn rejection(j: JsonView) -> Option<DecodeErrorView> {
        match j {
            JsonView::Number(NumberView::Int(n)) if 0 <= n <= u16::MAX => None,
            _ => Some(DecodeErrorView::InvalidType(Kind::Unsigned16)),
        }
    }

    open spec fn decodes(j: JsonView, v: Self) -> bool {
        j == JsonView::Number(NumberView::Int(v as int))
    }

    fn from_json(j: &Json) -> (r: Result<Self, DecodeError>) {
        match j {
            Json::Number(Number::PosInt(n)) => {
                if *n <= 0xffff {
                    Ok(*n as u16)
                } else {
                    Err(DecodeError::InvalidType(Kind::Unsigned16))
                }
            },
            Json::Number(Number::NegInt(n)) => {
                if 0 <= *n && *n <= 0xffff {
                    Ok(*n as u16)
                } else {
                    Err(DecodeError::InvalidType(Kind::Unsigned16))
                }
            },
            _ => Err(DecodeError::InvalidType(Kind::Unsigned16)),
        }
    }
}

impl ApiResult for u64 {
    open spec fn rejection(j: JsonView) -> Option<DecodeErrorView> {
        match j {
            JsonView::Number(NumberView::Int(n)) if 0 <= n <= u64::MAX => None,
            _ => Some(DecodeErrorView::InvalidType(Kind::Unsigned64)),
        }
    }

    open spec fn decodes(j: JsonView, v: Self) -> bool {
        j == JsonView::Number(NumberView::Int(v as int))
    }

    fn from_json(j: &Json) -> (r: Result<Self, DecodeError>) {
        match j {
            Json::Number(Number::PosInt(n)) => Ok(*n),
            Json::Number(Number::NegInt(n)) => {
                if 0 <= *n {
                    Ok(*n as u64)
                } else {
                    Err(DecodeError::InvalidType(Kind::Unsigned64))
                }
            },
            _ => Err(DecodeError::InvalidType(Kind::Unsigned64)),
        }
    }
}

impl ApiResult for i32 {
    open spec fn rejection(j: JsonView) -> Option<DecodeErrorView> {
        match j {
            JsonView::Number(NumberView::Int(n)) if i32::MIN <= n <= i32::MAX => None,
            _ => Some(DecodeErrorView::InvalidType(Kind::Signed32)),
        }
    }

    open spec fn decodes(j: JsonView, v: Self) -> bool {
        j == JsonView::Number(NumberView::Int(v as int))
    }

    fn from_json(j: &Json) -> (r: Result<Self, DecodeError>) {
        match j {
            Json::Number(Number::PosInt(n)) => {
                if *n <= 0x7fff_ffff {
                    Ok(*n as i32)
                } else {
                    Err(DecodeError::InvalidType(Kind::Signed32))
                }
            },
            Json::Number(Number::NegInt(n)) => {
                if -0x8000_0000 <= *n && *n <= 0x7fff_ffff {
                    Ok(*n as i32)
                } else {
                    Err(DecodeError::InvalidType(Kind::Signed32))
                }
            },
            _ => Err(DecodeError::InvalidType(Kind::Signed32)),
        }
    }
}

/// Any JSON number, kept as it stands.
impl ApiResult for Number {
    open spec fn rejection(j: JsonView) -> Option<DecodeErrorView> {
        if j is Number {
            None
        } else {
            Some(DecodeErrorView::InvalidType(Kind::Number))
        }
    }

    open spec fn decodes(j: JsonView, v: Self) -> bool {
        j == JsonView::Number(v@)
    }

    fn from_json(j: &Json) -> (r: Result<Self, DecodeError>) {
        match j {
            Json::Number(Number::PosInt(n)) => Ok(Number::PosInt(*n)),
            Json::Number(Number::NegInt(n)) => Ok(Number::NegInt(*n)),
            Json::Number(Number::Real(t)) => Ok(Number::Real(t.clone())),
            _ => Err(DecodeError::InvalidType(Kind::Number)),
        }
    }
}

/// Any JSON value, kept as it stands.
impl ApiResult for Json {
    open spec fn rejection(j: JsonView) -> Option<DecodeErrorView> {
        None
    }

    open spec fn decodes(j: JsonView, v: Self) -> bool {
        j == v@
    }

    fn from_json(j: &Json) -> (r: Result<Self, DecodeError>) {
        Ok(j.duplicate())
    }
}

/// The first of two reasons: `next` counts only where `prev` is none.
pub open spec fn then(prev: Option<DecodeErrorView>, next: Option<DecodeErrorView>) -> Option<
    DecodeErrorView,
> {
    if prev is Some {
        prev
    } else {
        next
    }
}

/// Why `j` is no object.
pub open spec fn object_rejection(j: JsonView) -> Option<DecodeErrorView> {
    if j is Object {
        None
    } else {
        Some(DecodeErrorView::InvalidType(Kind::Object))
    }
}

/// Why the member `key` of `j` gives no `T`, a missing member being refused.
pub open spec fn required_rejection<T: ApiResult>(j: JsonView, key: Seq<char>) -> Option<
    DecodeErrorView,
> {
    match member(j, key) {
        None => Some(DecodeErrorView::MissingField(key)),
        Some(x) => T::rejection(x),
    }
}

pub open spec fn required_decodes<T: ApiResult>(j: JsonView, key: Seq<char>, v: T) -> bool {
    match member(j, key) {
        None => false,
        Some(x) => T::decodes(x, v),
    }
}

/// Why the member `key` of `j` gives no `T`, a missing or null member standing for
/// an absent value.
pub open spec fn optional_rejection<T: ApiResult>(j: JsonView, key: Seq<char>) -> Option<
    DecodeErrorView,
> {
    match member(j, key) {
        None => None,
        Some(x) => Option::<T>::rejection(x),
    }
}

pub open spec fn optional_decodes<T: ApiResult>(j: JsonView, key: Seq<char>, v: Option<T>) -> bool {
    match member(j, key) {
        None => v is None,
        Some(x) => Option::<T>::decodes(x, v),
    }
}

/// Why the member `key` of `j` gives no list of `T`, a missing member standing for
/// the empty list.
pub open spec fn listed_rejection<T: ApiResult>(j: JsonView, key: Seq<char>) -> Option<
    DecodeErrorView,
> {
    match member(j, key) {
        None => None,
        Some(x) => Vec::<T>::rejection(x),
    }
}

pub open spec fn listed_decodes<T: ApiResult>(j: JsonView, key: Seq<char>, v: Vec<T>) -> bool {
    match member(j, key) {
        None => v@.len() == 0,
        Some(x) => Vec::<T>::decodes(x, v),
    }
}

/// Accepts an object and nothing else.
pub fn require_object(j: &Json) -> (r: Result<(), DecodeError>)
    ensures
        match r {
            Ok(_) => object_rejection(j@) is None,
            Err(e) => object_rejection(j@) == Some(e@),
        },
{
    match j {
        Json::Object(_) => Ok(()),
        _ => Err(DecodeError::InvalidType(Kind::Object)),
    }
}

/// Decodes a member that must be there.
pub fn required<T: ApiResult>(j: &Json, key: &str) -> (r: Result<T, DecodeError>)
    ensures
        match r {
            Ok(v) => required_rejection::<T>(j@, key@) is None && required_decodes::<T>(
                j@,
                key@,
                v,
            ),
            Err(e) => required_rejection::<T>(j@, key@) == Some(e@),
        },
{
    match j.get(key) {
        None => Err(DecodeError::MissingField(String::from_str(key))),
        Some(x) => T::from_json(x),
    }
}

/// Decodes a member that may be missing or null.
pub fn optional<T: ApiResult>(j: &Json, key: &str) -> (r: Result<Option<T>, DecodeError>)
    ensures
        match r {
            Ok(v) => optional_rejection::<T>(j@, key@) is None && optional_decodes::<T>(
                j@,
                key@,
                v,
            ),
            Err(e) => optional_rejection::<T>(j@, key@) == Some(e@),
        },
{
    match j.get(key) {
        None => Ok(None),
        Some(x) => Option::<T>::from_json(x),
    }
}

/// Decodes a list that is empty where the member is missing.
pub fn listed<T: ApiResult>(j: &Json, key: &str) -> (r: Result<Vec<T>, DecodeError>)
    ensures
        match r {
            Ok(v) => listed_rejection::<T>(j@, key@) is None && listed_decodes::<T>(j@, key@, v),
            Err(e) => listed_rejection::<T>(j@, key@) == Some(e@),
        },
{
    match j.get(key) {
        None => Ok(Vec::new()),
        Some(x) => Vec::<T>::from_json(x),
    }
}

/// Why the first member that is named neither `a` nor `b` is refused.
pub open spec fn first_unknown(
    fields: Seq<(Seq<char>, JsonView)>,
    a: Seq<char>,
    b: Seq<char>,
) -> Option<DecodeErrorView>
    decreases fields.len(),
{
    if fields.len() == 0 {
        None
    } else {
        match first_unknown(fields.drop_last(), a, b) {
            Some(e) => Some(e),
            None => if fields.last().0 == a || fields.last().0 == b {
                None
            } else {
                Some(DecodeErrorView::UnknownField(fields.last().0))
            },
        }
    }
}

/// Why `j` is no object whose members are all named `a` or `b`; nothing is said
/// here of a value that is no object.
pub open spec fn only_rejection(j: JsonView, a: Seq<char>, b: Seq<char>) -> Option<
    DecodeErrorView,
> {
    match j {
        JsonView::Object(fields) => first_unknown(fields, a, b),
        _ => None,
    }
}

pub proof fn lemma_first_unknown_prefix(
    fields: Seq<(Seq<char>, JsonView)>,
    a: Seq<char>,
    b: Seq<char>,
    n: int,
)
    requires
        0 <= n <= fields.len(),
        first_unknown(fields.take(n), a, b) is Some,
    ensures
        first_unknown(fields, a, b) == first_unknown(fields.take(n), a, b),
    decreases fields.len() - n,
{
    if n < fields.len() {
        assert(fields.take(n + 1).drop_last() =~= fields.take(n));
        lemma_first_unknown_prefix(fields, a, b, n + 1);
    } else {
        assert(fields.take(n) =~= fields);
    }
}

/// A member that is named neither `a` nor `b` has the object refused.
pub proof fn lemma_unknown_is_found(
    fields: Seq<(Seq<char>, JsonView)>,
    a: Seq<char>,
    b: Seq<char>,
    i: int,
)
    requires
        0 <= i < fields.len(),
        fields[i].0 != a,
        fields[i].0 != b,
    ensures
        first_unknown(fields, a, b) is Some,
    decreases fields.len(),
{
    if i < fields.len() - 1 {
        lemma_unknown_is_found(fields.drop_last(), a, b, i);
    }
}

/// Every member of an object that is not refused is named `a` or `b`.
pub proof fn lemma_known_members(
    fields: Seq<(Seq<char>, JsonView)>,
    a: Seq<char>,
    b: Seq<char>,
    i: int,
)
    requires
        first_unknown(fields, a, b) is None,
        0 <= i < fields.len(),
    ensures
        fields[i].0 == a || fields[i].0 == b,
    decreases fields.len(),
{
    if i < fields.len() - 1 {
        lemma_known_members(fields.drop_last(), a, b, i);
    }
}

/// Accepts an object only where each of its members is named `a` or `b`; accepts
/// whatever is no object.
pub fn require_only(j: &Json, a: &str, b: &str) -> (r: Result<(), DecodeError>)
    ensures
        match r {
            Ok(_) => only_rejection(j@, a@, b@) is None,
            Err(e) => only_rejection(j@, a@, b@) == Some(e@),
        },
{
    match j {
        Json::Object(fields) => {
            proof {
                lemma_view_object(*fields);
            }
            let ghost views = entries_view(fields@);
            let mut i: usize = 0;
            while i < fields.len()
                invariant
                    i <= fields.len(),
                    views == entries_view(fields@),
                    j@ == JsonView::Object(views),
                    first_unknown(views.take(i as int), a@, b@) is None,
                decreases fields.len() - i,
            {
                proof {
                    assert(views.take(i + 1).drop_last() =~= views.take(i as int));
                    assert(views.take(i + 1).last() == views[i as int]);
                }
                let name = fields[i].0.as_str();
                if !str_eq(name, a) && !str_eq(name, b) {
                    proof {
                        lemma_first_unknown_prefix(views, a@, b@, i + 1);
                    }
                    return Err(DecodeError::UnknownField(fields[i].0.clone()));
                }
                i += 1;
            }
            assert(views.take(i as int) =~= views);
            Ok(())
        },
        _ => Ok(()),
    }
}

} // verus!
