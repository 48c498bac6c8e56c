use vstd::prelude::*;
use vstd::string::*;
use crate::framework::decode::{DecodeError, DecodeErrorView, Kind};
use crate::json::{member, Json, JsonView};

verus! {

/// An enumeration whose values are written as fixed texts.
pub trait TextEnum: Sized {
    /// The text that stands for `self`.
    spec fn text(&self) -> Seq<char>;

    /// The value that a text stands for, if it stands for one.
    spec fn named(t: Seq<char>) -> Option<Self>;

    fn as_str(&self) -> (s: &'static str)
        ensures
            s@ == self.text(),
    ;

    fn from_text(t: &str) -> (r: Option<Self>)
        ensures
            r == Self::named(t@),
    ;

    /// Reading the text of a value gives the value back.
    proof fn lemma_named_text(v: Self)
        ensures
            Self::named(v.text()) == Some(v),
    ;
}

/// Why `j` is no value of the enumeration `T`.
pub open spec fn text_rejection<T: TextEnum>(j: JsonView) -> Option<DecodeErrorView> {
    match j {
        JsonView::Text(t) => if T::named(t) is Some {
            None
        } else {
            Some(DecodeErrorView::UnknownDiscriminator(j))
        },
        _ => Some(DecodeErrorView::InvalidType(Kind::Text)),
    }
}

pub open spec fn text_decodes<T: TextEnum>(j: JsonView, v: T) -> bool {
    match j {
        JsonView::Text(t) => T::named(t) == Some(v),
        _ => false,
    }
}

/// Decodes a value of an enumeration from its text.
pub fn text_from_json<T: TextEnum>(j: &Json) -> (r: Result<T, DecodeError>)
    ensures
        match r {
            Ok(v) => text_rejection::<T>(j@) is None && text_decodes::<T>(j@, v),
            Err(e) => text_rejection::<T>(j@) == Some(e@),
        },
{
    match j {
        Json::Text(t) => match T::from_text(t.as_str()) {
            Some(v) => Ok(v),
            None => Err(DecodeError::UnknownDiscriminator(j.duplicate())),
        },
        _ => Err(DecodeError::InvalidType(Kind::Text)),
    }
}

/// Writes a value of an enumeration as its text.
pub fn text_to_json<T: TextEnum>(v: &T) -> (j: Json)
    ensures
        j@ == JsonView::Text(v.text()),
{
    Json::Text(String::from_str(v.as_str()))
}

/// Writes a value of an enumeration as its text, for a query.
pub fn text_to_query<T: TextEnum>(v: &T) -> (s: String)
    ensures
        s@ == v.text(),
{
    String::from_str(v.as_str())
}

/// Why `j` has no discriminator under `key`: it is no object, the member is missing,
/// or the member is no text. A member that is no text is kept in the reason as it
/// stands.
pub open spec fn tag_rejection(j: JsonView, key: Seq<char>) -> Option<DecodeErrorView> {
    if !(j is Object) {
        Some(DecodeErrorView::InvalidType(Kind::Object))
    } else {
        match member(j, key) {
            None => Some(DecodeErrorView::MissingField(key)),
            Some(JsonView::Text(_)) => None,
            Some(x) => Some(DecodeErrorView::UnknownDiscriminator(x)),
        }
    }
}

/// The discriminator of `j` under `key`, where it has one.
pub open spec fn tag_of(j: JsonView, key: Seq<char>) -> Seq<char> {
    match member(j, key) {
        Some(JsonView::Text(t)) => t,
        _ => Seq::empty(),
    }
}

/// The reason with which a discriminator that names no alternative is refused.
pub open spec fn unknown_tag(j: JsonView, key: Seq<char>) -> DecodeErrorView {
    DecodeErrorView::UnknownDiscriminator(JsonView::Text(tag_of(j, key)))
}

/// Reads the discriminator of an object.
pub fn tag<'a>(j: &'a Json, key: &str) -> (r: Result<&'a String, DecodeError>)
    ensures
        match r {
            Ok(t) => tag_rejection(j@, key@) is None && t@ == tag_of(j@, key@),
            Err(e) => tag_rejection(j@, key@) == Some(e@),
        },
{
    match j {
        Json::Object(_) => {},
        _ => {
            return Err(DecodeError::InvalidType(Kind::Object));
        },
    }
    match j.get(key) {
        None => Err(DecodeError::MissingField(String::from_str(key))),
        Some(Json::Text(t)) => Ok(t),
        Some(x) => Err(DecodeError::UnknownDiscriminator(x.duplicate())),
    }
}

} // verus!
