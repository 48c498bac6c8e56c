pub mod codec;
pub mod decode;
pub mod encode;
pub mod endpoint;
pub mod pairs;
pub mod query;
pub mod response;
pub mod variant;
pub mod writable;

use vstd::prelude::*;
use vstd::string::*;
use crate::framework::codec::Codec;
use crate::framework::decode::{ApiResult, DecodeError, DecodeErrorView};
use crate::framework::encode::ToJson;
use crate::framework::query::QueryValue;
use crate::framework::writable::Writable;
use crate::framework::variant::{
    text_decodes, text_from_json, text_rejection, text_to_json, text_to_query, TextEnum,
};
use crate::json::{Json, JsonView};
use crate::text::str_eq;

verus! {

/// The direction in which a list is ordered.
#[derive(Clone, Copy, Debug, PartialEq, Eq, Structural)]
pub enum OrderDirection {
    Ascending,
    Descending,
}

impl TextEnum for OrderDirection {
    open spec fn text(&self) -> Seq<char> {
        match self {
            OrderDirection::Ascending => "asc"@,
            OrderDirection::Descending => "desc"@,
        }
    }

    open spec fn named(t: Seq<char>) -> Option<Self> {
        if t == "asc"@ {
            Some(OrderDirection::Ascending)
        } else if t == "desc"@ {
            Some(OrderDirection::Descending)
        } else {
            None
        }
    }

    fn as_str(&self) -> (s: &'static str) {
        match self {
            OrderDirection::Ascending => "asc",
            OrderDirection::Descending => "desc",
        }
    }

    fn from_text(t: &str) -> (r: Option<Self>) {
        if str_eq(t, "asc") {
            Some(OrderDirection::Ascending)
        } else if str_eq(t, "desc") {
            Some(OrderDirection::Descending)
        } else {
            None
        }
    }

    proof fn lemma_named_text(v: Self) {
        reveal_strlit("asc");
        reveal_strlit("desc");
        assert("asc"@.len() == 3);
        assert("desc"@.len() == 4);
    }
}

impl ToJson for OrderDirection {
    open spec fn json(&self) -> JsonView {
        JsonView::Text(self.text())
    }

    fn to_json(&self) -> (j: Json) {
        text_to_json(self)
    }
}

impl QueryValue for OrderDirection {
    open spec fn query_value(&self) -> Seq<char> {
        self.text()
    }

    fn to_query_value(&self) -> (s: String) {
        text_to_query(self)
    }
}

impl Writable for OrderDirection {
    open spec fn sound(&self) -> bool {
        true
    }

    proof fn lemma_writable(v: Self) {
    }
}

/// Whether a search asks for all of its conditions or for any of them.
#[derive(Clone, Copy, Debug, PartialEq, Eq, Structural)]
pub enum SearchMatch {
    All,
    Any,
}

impl TextEnum for SearchMatch {
    open spec fn text(&self) -> Seq<char> {
        match self {
            SearchMatch::All => "all"@,
            SearchMatch::Any => "any"@,
        }
    }

    open spec fn named(t: Seq<char>) -> Option<Self> {
        if t == "all"@ {
            Some(SearchMatch::All)
        } else if t == "any"@ {
            Some(SearchMatch::Any)
        } else {
            None
        }
    }

    fn as_str(&self) -> (s: &'static str) {
        match self {
            SearchMatch::All => "all",
            SearchMatch::Any => "any",
        }
    }

    fn from_text(t: &str) -> (r: Option<Self>) {
        if str_eq(t, "all") {
            Some(SearchMatch::All)
        } else if str_eq(t, "any") {
            Some(SearchMatch::Any)
        } else {
            None
        }
    }

    proof fn lemma_named_text(v: Self) {
        reveal_strlit("all");
        reveal_strlit("any");
        assert("all"@.len() == 3);
        assert("any"@.len() == 3);
        assert("all"@[1] != "any"@[1]);
    }
}

impl ToJson for SearchMatch {
    open spec fn json(&self) -> JsonView {
        JsonView::Text(self.text())
    }

    fn to_json(&self) -> (j: Json) {
        text_to_json(self)
    }
}

impl QueryValue for SearchMatch {
    open spec fn query_value(&self) -> Seq<char> {
        self.text()
    }

    fn to_query_value(&self) -> (s: String) {
        text_to_query(self)
    }
}

impl Writable for SearchMatch {
    open spec fn sound(&self) -> bool {
        true
    }

    proof fn lemma_writable(v: Self) {
    }
}

/// A setting that is switched on or off.
#[derive(Clone, Copy, Debug, PartialEq, Eq, Structural)]
pub enum BooleanValue {
    On,
    Off,
}

impl TextEnum for BooleanValue {
    open spec fn text(&self) -> Seq<char> {
        match self {
            BooleanValue::On => "on"@,
            BooleanValue::Off => "off"@,
        }
    }

    open spec fn named(t: Seq<char>) -> Option<Self> {
        if t == "on"@ {
            Some(BooleanValue::On)
        } else if t == "off"@ {
            Some(BooleanValue::Off)
        } else {
            None
        }
    }

    fn as_str(&self) -> (s: &'static str) {
        match self {
            BooleanValue::On => "on",
            BooleanValue::Off => "off",
        }
    }

    fn from_text(t: &str) -> (r: Option<Self>) {
        if str_eq(t, "on") {
            Some(BooleanValue::On)
        } else if str_eq(t, "off") {
            Some(BooleanValue::Off)
        } else {
            None
        }
    }

    proof fn lemma_named_text(v: Self) {
        reveal_strlit("on");
        reveal_strlit("off");
        assert("on"@.len() == 2);
        assert("off"@.len() == 3);
    }
}

impl ToJson for BooleanValue {
    open spec fn json(&self) -> JsonView {
        JsonView::Text(self.text())
    }

    fn to_json(&self) -> (j: Json) {
        text_to_json(self)
    }
}

impl ApiResult for BooleanValue {
    open spec fn rejection(j: JsonView) -> Option<DecodeErrorView> {
        text_rejection::<BooleanValue>(j)
    }

    open spec fn decodes(j: JsonView, v: Self) -> bool {
        text_decodes::<BooleanValue>(j, v)
    }

    fn from_json(j: &Json) -> (r: Result<Self, DecodeError>) {
        text_from_json::<BooleanValue>(j)
    }
}

impl Writable for BooleanValue {
    open spec fn sound(&self) -> bool {
        true
    }

    proof fn lemma_writable(v: Self) {
    }
}

impl Codec for BooleanValue {
    proof fn lemma_round_trip(v: Self) {
        Self::lemma_named_text(v);
    }
}

/// A version of TLS.
#[derive(Clone, Copy, Debug, PartialEq, Eq, Structural)]
pub enum TlsVersion {
    V1_0,
    V1_1,
    V1_2,
    V1_3,
}

impl TextEnum for TlsVersion {
    open spec fn text(&self) -> Seq<char> {
        match self {
            TlsVersion::V1_0 => "1.0"@,
            TlsVersion::V1_1 => "1.1"@,
            TlsVersion::V1_2 => "1.2"@,
            TlsVersion::V1_3 => "1.3"@,
        }
    }

    open spec fn named(t: Seq<char>) -> Option<Self> {
        if t == "1.0"@ {
            Some(TlsVersion::V1_0)
        } else if t == "1.1"@ {
            Some(TlsVersion::V1_1)
        } else if t == "1.2"@ {
            Some(TlsVersion::V1_2)
        } else if t == "1.3"@ {
            Some(TlsVersion::V1_3)
        } else {
            None
        }
    }

    fn as_str(&self) -> (s: &'static str) {
        match self {
            TlsVersion::V1_0 => "1.0",
            TlsVersion::V1_1 => "1.1",
            TlsVersion::V1_2 => "1.2",
            TlsVersion::V1_3 => "1.3",
        }
    }

    fn from_text(t: &str) -> (r: Option<Self>) {
        if str_eq(t, "1.0") {
            Some(TlsVersion::V1_0)
        } else if str_eq(t, "1.1") {
            Some(TlsVersion::V1_1)
        } else if str_eq(t, "1.2") {
            Some(TlsVersion::V1_2)
        } else if str_eq(t, "1.3") {
            Some(TlsVersion::V1_3)
        } else {
            None
        }
    }

    proof fn lemma_named_text(v: Self) {
        reveal_strlit("1.0");
        reveal_strlit("1.1");
        reveal_strlit("1.2");
        reveal_strlit("1.3");
        assert("1.0"@.len() == 3);
        assert("1.1"@.len() == 3);
        assert("1.2"@.len() == 3);
        assert("1.3"@.len() == 3);
        assert("1.0"@[2] != "1.1"@[2]);
        assert("1.0"@[2] != "1.2"@[2]);
        assert("1.1"@[2] != "1.2"@[2]);
        assert("1.0"@[2] != "1.3"@[2]);
        assert("1.1"@[2] != "1.3"@[2]);
        assert("1.2"@[2] != "1.3"@[2]);
    }
}

impl ToJson for TlsVersion {
    open spec fn json(&self) -> JsonView {
        JsonView::Text(self.text())
    }

    fn to_json(&self) -> (j: Json) {
        text_to_json(self)
    }
}

impl ApiResult for TlsVersion {
    open spec fn rejection(j: JsonView) -> Option<DecodeErrorView> {
        text_rejection::<TlsVersion>(j)
    }

    open spec fn decodes(j: JsonView, v: Self) -> bool {
        text_decodes::<TlsVersion>(j, v)
    }

    fn from_json(j: &Json) -> (r: Result<Self, DecodeError>) {
        text_from_json::<TlsVersion>(j)
    }
}

impl Writable for TlsVersion {
    open spec fn sound(&self) -> bool {
        true
    }

    proof fn lemma_writable(v: Self) {
    }
}

impl Codec for TlsVersion {
    proof fn lemma_round_trip(v: Self) {
        Self::lemma_named_text(v);
    }
}

} // verus!
