use vstd::prelude::*;
use vstd::string::*;
use crate::framework::codec::{
    lemma_optional_lookup, lemma_required_lookup, lemma_texts_agree, Codec,
};
use crate::framework::decode::{
    listed, listed_decodes, listed_rejection, object_rejection, optional, optional_decodes,
    optional_rejection, require_object, required, required_decodes, required_rejection, then,
    ApiResult, DecodeError, DecodeErrorView,
};
use crate::framework::encode::{optional_member, required_member, ObjectBuilder, ToJson};
use crate::framework::endpoint::{
    render_body, serialize_query, EndpointSpec, Method, RequestBody, RequestError,
};
use crate::framework::query::{optional_pair, QueryBuilder, QueryPayload};
use crate::framework::response::ApiSuccess;
use crate::framework::variant::{
    tag, text_decodes, text_from_json, text_rejection, text_to_json, TextEnum,
};
use crate::framework::writable::{lemma_extend, lemma_optional_part, lemma_required_part, Writable};
use crate::json::{lemma_lookup_concat, member, Json, JsonView};
use crate::text::str_eq;

verus! {

/// What a routing rule does with a message.
#[derive(Clone, Copy, Debug, PartialEq, Eq, Structural)]
pub enum ActionType {
    Drop,
    Forward,
    Worker,
}

impl TextEnum for ActionType {
    open spec fn text(&self) -> Seq<char> {
        match self {
            ActionType::Drop => "drop"@,
            ActionType::Forward => "forward"@,
            ActionType::Worker => "worker"@,
        }
    }

    open spec fn named(t: Seq<char>) -> Option<Self> {
        if t == "drop"@ {
            Some(ActionType::Drop)
        } else if t == "forward"@ {
            Some(ActionType::Forward)
        } else if t == "worker"@ {
            Some(ActionType::Worker)
        } else {
            None
        }
    }

    fn as_str(&self) -> (s: &'static str) {
        match self {
            ActionType::Drop => "drop",
            ActionType::Forward => "forward",
            ActionType::Worker => "worker",
        }
    }

    fn from_text(t: &str) -> (r: Option<Self>) {
        if str_eq(t, "drop") {
            Some(ActionType::Drop)
        } else if str_eq(t, "forward") {
            Some(ActionType::Forward)
        } else if str_eq(t, "worker") {
            Some(ActionType::Worker)
        } else {
            None
        }
    }

    proof fn lemma_named_text(v: Self) {
        reveal_strlit("drop");
        reveal_strlit("forward");
        reveal_strlit("worker");
        assert("drop"@.len() == 4);
        assert("forward"@.len() == 7);
        assert("worker"@.len() == 6);
    }
}

impl ToJson for ActionType {
    open spec fn json(&self) -> JsonView {
        JsonView::Text(self.text())
    }

    fn to_json(&self) -> (j: Json) {
        text_to_json(self)
    }
}

impl ApiResult for ActionType {
    open spec fn rejection(j: JsonView) -> Option<DecodeErrorView> {
        text_rejection::<ActionType>(j)
    }

    open spec fn decodes(j: JsonView, v: Self) -> bool {
        text_decodes::<ActionType>(j, v)
    }

    fn from_json(j: &Json) -> (r: Result<Self, DecodeError>) {
        text_from_json::<ActionType>(j)
    }
}

impl Writable for ActionType {
    open spec fn sound(&self) -> bool {
        true
    }

    proof fn lemma_writable(v: Self) {
    }
}

impl Codec for ActionType {
    proof fn lemma_round_trip(v: Self) {
        Self::lemma_named_text(v);
    }
}

impl Default for ActionType {
    fn default() -> (r: ActionType)
        ensures
            r == ActionType::Forward,
    {
        ActionType::Forward
    }
}

/// An action of a routing rule.
#[derive(Clone, Debug, PartialEq, Eq)]
pub struct Action {
    pub action_type: ActionType,
    pub value: Option<Vec<String>>,
}

impl ToJson for Action {
    open spec fn json(&self) -> JsonView {
        JsonView::Object(
            Seq::<(Seq<char>, JsonView)>::empty()
                + required_member::<ActionType>("type"@, self.action_type)
                + optional_member::<Vec<String>>("value"@, self.value),
        )
    }

    fn to_json(&self) -> (j: Json) {
        let mut b = ObjectBuilder::new();
        b.field("type", &self.action_type);
        b.optional("value", &self.value);
        b.build()
    }
}

impl ApiResult for Action {
    open spec fn rejection(j: JsonView) -> Option<DecodeErrorView> {
        let e = object_rejection(j);
        let e = then(e, required_rejection::<ActionType>(j, "type"@));
        let e = then(e, optional_rejection::<Vec<String>>(j, "value"@));
        e
    }

    open spec fn decodes(j: JsonView, v: Self) -> bool {
        &&& required_decodes::<ActionType>(j, "type"@, v.action_type)
        &&& optional_decodes::<Vec<String>>(j, "value"@, v.value)
    }

    fn from_json(j: &Json) -> (r: Result<Self, DecodeError>) {
        match require_object(j) {
            Ok(_) => {},
            Err(e) => {
                return Err(e);
            },
        }
        let action_type = match required::<ActionType>(j, "type") {
            Ok(v) => v,
            Err(e) => {
                return Err(e);
            },
        };
        let value = match optional::<Vec<String>>(j, "value") {
            Ok(v) => v,
            Err(e) => {
                return Err(e);
            },
        };
        Ok(Action { action_type, value })
    }
}

impl Writable for Action {
    open spec fn sound(&self) -> bool {
        &&& self.action_type.sound()
        &&& self.value matches Some(x) ==> x.sound()
    }

    proof fn lemma_writable(v: Self) {
        reveal_strlit("type");
        reveal_strlit("value");
        assert("type"@.len() == 4);
        assert("value"@.len() == 5);
        let head0 = Seq::<(Seq<char>, JsonView)>::empty();
        let part0 = required_member::<ActionType>("type"@, v.action_type);
        lemma_required_part::<ActionType>("type"@, v.action_type);
        lemma_extend(head0, part0);
        let head1 = head0 + part0;
        let part1 = optional_member::<Vec<String>>("value"@, v.value);
        lemma_optional_part::<Vec<String>>("value"@, v.value);
        lemma_required_lookup::<ActionType>("type"@, v.action_type, "value"@);
        lemma_lookup_concat(head0, part0, "value"@);
        lemma_extend(head1, part1);
    }
}

impl Action {
    /// Whether every field is absent, empty or at its default.
    pub open spec fn is_default(&self) -> bool {
        &&& self.action_type == ActionType::Forward
        &&& self.value is None
    }
}

impl Default for Action {
    fn default() -> (r: Action)
        ensures
            r.is_default(),
    {
        Action { action_type: ActionType::Forward, value: None }
    }
}

impl Action {
    /// What the members of the JSON object of a value are found to be.
    pub proof fn lemma_members(v: Action)
        ensures
            v.json() is Object,
            member(v.json(), "type"@) == Some(v.action_type.json()),
            member(v.json(), "value"@) == (match v.value {
                Some(x) => Some(x.json()),
                None => None,
            }),
    {
        reveal_strlit("type");
        reveal_strlit("value");
        assert("type"@.len() == 4);
        assert("value"@.len() == 5);
        let head0 = Seq::<(Seq<char>, JsonView)>::empty();
        let part0 = required_member::<ActionType>("type"@, v.action_type);
        let head1 = head0 + part0;
        let part1 = optional_member::<Vec<String>>("value"@, v.value);
        lemma_required_lookup::<ActionType>("type"@, v.action_type, "type"@);
        lemma_lookup_concat(head0, part0, "type"@);
        lemma_optional_lookup::<Vec<String>>("value"@, v.value, "type"@);
        lemma_lookup_concat(head1, part1, "type"@);
        lemma_required_lookup::<ActionType>("type"@, v.action_type, "value"@);
        lemma_lookup_concat(head0, part0, "value"@);
        lemma_optional_lookup::<Vec<String>>("value"@, v.value, "value"@);
        lemma_lookup_concat(head1, part1, "value"@);
    }

    /// What decodes from the JSON written for a value has the fields of that value.
    pub proof fn lemma_round_trip_fields(v: Action, w: Action)
        requires
            Action::decodes(v.json(), w),
        ensures
            w.action_type == v.action_type,
            w.value.deep_view() == v.value.deep_view(),
    {
        Self::lemma_members(v);
        ActionType::lemma_round_trip(v.action_type);
        match (v.value, w.value) {
            (Some(x), Some(y)) => {
                lemma_texts_agree(x, y);
            },
            _ => {},
        }
    }
}

impl Codec for Action {
    proof fn lemma_round_trip(v: Self) {
        Self::lemma_members(v);
        ActionType::lemma_round_trip(v.action_type);
        match v.value {
            Some(x) => {
                Vec::<String>::lemma_round_trip(x);
            },
            None => {},
        }
        assert(Self::rejection(v.json()) is None);
        assert(Self::decodes(v.json(), v));
        assert forall|w: Self| Self::decodes(v.json(), w) implies w.json() == v.json() by {
            assert(required_member::<ActionType>("type"@, w.action_type) =~= required_member::<ActionType>("type"@, v.action_type));
            assert(optional_member::<Vec<String>>("value"@, w.value) =~= optional_member::<Vec<String>>("value"@, v.value));
        }
    }
}

/// How a routing rule picks its messages.
#[derive(Clone, Copy, Debug, PartialEq, Eq, Structural)]
pub enum MatcherType {
    All,
    Literal,
}

impl TextEnum for MatcherType {
    open spec fn text(&self) -> Seq<char> {
        match self {
            MatcherType::All => "all"@,
            MatcherType::Literal => "literal"@,
        }
    }

    open spec fn named(t: Seq<char>) -> Option<Self> {
        if t == "all"@ {
            Some(MatcherType::All)
        } else if t == "literal"@ {
            Some(MatcherType::Literal)
        } else {
            None
        }
    }

    fn as_str(&self) -> (s: &'static str) {
        match self {
            MatcherType::All => "all",
            MatcherType::Literal => "literal",
        }
    }

    fn from_text(t: &str) -> (r: Option<Self>) {
        if str_eq(t, "all") {
            Some(MatcherType::All)
        } else if str_eq(t, "literal") {
            Some(MatcherType::Literal)
        } else {
            None
        }
    }

    proof fn lemma_named_text(v: Self) {
        reveal_strlit("all");
        reveal_strlit("literal");
        assert("all"@.len() == 3);
        assert("literal"@.len() == 7);
    }
}

impl ToJson for MatcherType {
    open spec fn json(&self) -> JsonView {
        JsonView::Text(self.text())
    }

    fn to_json(&self) -> (j: Json) {
        text_to_json(self)
    }
}

impl ApiResult for MatcherType {
    open spec fn rejection(j: JsonView) -> Option<DecodeErrorView> {
        text_rejection::<MatcherType>(j)
    }

    open spec fn decodes(j: JsonView, v: Self) -> bool {
        text_decodes::<MatcherType>(j, v)
    }

    fn from_json(j: &Json) -> (r: Result<Self, DecodeError>) {
        text_from_json::<MatcherType>(j)
    }
}

impl Writable for MatcherType {
    open spec fn sound(&self) -> bool {
        true
    }

    proof fn lemma_writable(v: Self) {
    }
}

impl Codec for MatcherType {
    proof fn lemma_round_trip(v: Self) {
        Self::lemma_named_text(v);
    }
}

impl Default for MatcherType {
    fn default() -> (r: MatcherType)
        ensures
            r == MatcherType::All,
    {
        MatcherType::All
    }
}

/// The field of a message that a routing rule looks at.
#[derive(Clone, Copy, Debug, PartialEq, Eq, Structural)]
pub enum MatcherField {
    To,
}

impl TextEnum for MatcherField {
    open spec fn text(&self) -> Seq<char> {
        match self {
            MatcherField::To => "to"@,
        }
    }

    open spec fn named(t: Seq<char>) -> Option<Self> {
        if t == "to"@ {
            Some(MatcherField::To)
        } else {
            None
        }
    }

    fn as_str(&self) -> (s: &'static str) {
        match self {
            MatcherField::To => "to",
        }
    }

    fn from_text(t: &str) -> (r: Option<Self>) {
        if str_eq(t, "to") {
            Some(MatcherField::To)
        } else {
            None
        }
    }

    proof fn lemma_named_text(v: Self) {
        reveal_strlit("to");
    }
}

impl ToJson for MatcherField {
    open spec fn json(&self) -> JsonView {
        JsonView::Text(self.text())
    }

    fn to_json(&self) -> (j: Json) {
        text_to_json(self)
    }
}

impl ApiResult for MatcherField {
    open spec fn rejection(j: JsonView) -> Option<DecodeErrorView> {
        text_rejection::<MatcherField>(j)
    }

    open spec fn decodes(j: JsonView, v: Self) -> bool {
        text_decodes::<MatcherField>(j, v)
    }

    fn from_json(j: &Json) -> (r: Result<Self, DecodeError>) {
        text_from_json::<MatcherField>(j)
    }
}

impl Writable for MatcherField {
    open spec fn sound(&self) -> bool {
        true
    }

    proof fn lemma_writable(v: Self) {
    }
}

impl Codec for MatcherField {
    proof fn lemma_round_trip(v: Self) {
        Self::lemma_named_text(v);
    }
}

/// A condition of a routing rule.
#[derive(Clone, Debug, PartialEq, Eq)]
pub struct Matcher {
    pub matcher_type: MatcherType,
    pub field: Option<MatcherField>,
    pub value: Option<String>,
}

impl ToJson for Matcher {
    open spec fn json(&self) -> JsonView {
        JsonView::Object(
            Seq::<(Seq<char>, JsonView)>::empty()
                + required_member::<MatcherType>("type"@, self.matcher_type)
                + optional_member::<MatcherField>("field"@, self.field)
                + optional_member::<String>("value"@, self.value),
        )
    }

    fn to_json(&self) -> (j: Json) {
        let mut b = ObjectBuilder::new();
        b.field("type", &self.matcher_type);
        b.optional("field", &self.field);
        b.optional("value", &self.value);
        b.build()
    }
}

impl ApiResult for Matcher {
    open spec fn rejection(j: JsonView) -> Option<DecodeErrorView> {
        let e = object_rejection(j);
        let e = then(e, required_rejection::<MatcherType>(j, "type"@));
        let e = then(e, optional_rejection::<MatcherField>(j, "field"@));
        let e = then(e, optional_rejection::<String>(j, "value"@));
        e
    }

    open spec fn decodes(j: JsonView, v: Self) -> bool {
        &&& required_decodes::<MatcherType>(j, "type"@, v.matcher_type)
        &&& optional_decodes::<MatcherField>(j, "field"@, v.field)
        &&& optional_decodes::<String>(j, "value"@, v.value)
    }

    fn from_json(j: &Json) -> (r: Result<Self, DecodeError>) {
        match require_object(j) {
            Ok(_) => {},
            Err(e) => {
                return Err(e);
            },
        }
        let matcher_type = match required::<MatcherType>(j, "type") {
            Ok(v) => v,
            Err(e) => {
                return Err(e);
            },
        };
        let field = match optional::<MatcherField>(j, "field") {
            Ok(v) => v,
            Err(e) => {
                return Err(e);
            },
        };
        let value = match optional::<String>(j, "value") {
            Ok(v) => v,
            Err(e) => {
                return Err(e);
            },
        };
        Ok(Matcher { matcher_type, field, value })
    }
}

impl Writable for Matcher {
    open spec fn sound(&self) -> bool {
        &&& self.matcher_type.sound()
        &&& self.field matches Some(x) ==> x.sound()
        &&& self.value matches Some(x) ==> x.sound()
    }

    proof fn lemma_writable(v: Self) {
        reveal_strlit("type");
        reveal_strlit("field");
        reveal_strlit("value");
        assert("type"@.len() == 4);
        assert("field"@.len() == 5);
        assert("value"@.len() == 5);
        assert("field"@[0] != "value"@[0]);
        let head0 = Seq::<(Seq<char>, JsonView)>::empty();
        let part0 = required_member::<MatcherType>("type"@, v.matcher_type);
        lemma_required_part::<MatcherType>("type"@, v.matcher_type);
        lemma_extend(head0, part0);
        let head1 = head0 + part0;
        let part1 = optional_member::<MatcherField>("field"@, v.field);
        lemma_optional_part::<MatcherField>("field"@, v.field);
        lemma_required_lookup::<MatcherType>("type"@, v.matcher_type, "field"@);
        lemma_lookup_concat(head0, part0, "field"@);
        lemma_extend(head1, part1);
        let head2 = head1 + part1;
        let part2 = optional_member::<String>("value"@, v.value);
        lemma_optional_part::<String>("value"@, v.value);
        lemma_required_lookup::<MatcherType>("type"@, v.matcher_type, "value"@);
        lemma_lookup_concat(head0, part0, "value"@);
        lemma_optional_lookup::<MatcherField>("field"@, v.field, "value"@);
        lemma_lookup_concat(head1, part1, "value"@);
        lemma_extend(head2, part2);
    }
}

impl Matcher {
    /// Whether every field is absent, empty or at its default.
    pub open spec fn is_default(&self) -> bool {
        &&& self.matcher_type == MatcherType::All
        &&& self.field is None
        &&& self.value is None
    }
}

impl Default for Matcher {
    fn default() -> (r: Matcher)
        ensures
            r.is_default(),
    {
        Matcher { matcher_type: MatcherType::All, field: None, value: None }
    }
}

impl Matcher {
    /// What the members of the JSON object of a value are found to be.
    pub proof fn lemma_members(v: Matcher)
        ensures
            v.json() is Object,
            member(v.json(), "type"@) == Some(v.matcher_type.json()),
            member(v.json(), "field"@) == (match v.field {
                Some(x) => Some(x.json()),
                None => None,
            }),
            member(v.json(), "value"@) == (match v.value {
                Some(x) => Some(x.json()),
                None => None,
            }),
    {
        reveal_strlit("type");
        reveal_strlit("field");
        reveal_strlit("value");
        assert("type"@.len() == 4);
        assert("field"@.len() == 5);
        assert("value"@.len() == 5);
        assert("field"@[0] != "value"@[0]);
        let head0 = Seq::<(Seq<char>, JsonView)>::empty();
        let part0 = required_member::<MatcherType>("type"@, v.matcher_type);
        let head1 = head0 + part0;
        let part1 = optional_member::<MatcherField>("field"@, v.field);
        let head2 = head1 + part1;
        let part2 = optional_member::<String>("value"@, v.value);
        lemma_required_lookup::<MatcherType>("type"@, v.matcher_type, "type"@);
        lemma_lookup_concat(head0, part0, "type"@);
        lemma_optional_lookup::<MatcherField>("field"@, v.field, "type"@);
        lemma_lookup_concat(head1, part1, "type"@);
        lemma_optional_lookup::<String>("value"@, v.value, "type"@);
        lemma_lookup_concat(head2, part2, "type"@);
        lemma_required_lookup::<MatcherType>("type"@, v.matcher_type, "field"@);
        lemma_lookup_concat(head0, part0, "field"@);
        lemma_optional_lookup::<MatcherField>("field"@, v.field, "field"@);
        lemma_lookup_concat(head1, part1, "field"@);
        lemma_optional_lookup::<String>("value"@, v.value, "field"@);
        lemma_lookup_concat(head2, part2, "field"@);
        lemma_required_lookup::<MatcherType>("type"@, v.matcher_type, "value"@);
        lemma_lookup_concat(head0, part0, "value"@);
        lemma_optional_lookup::<MatcherField>("field"@, v.field, "value"@);
        lemma_lookup_concat(head1, part1, "value"@);
        lemma_optional_lookup::<String>("value"@, v.value, "value"@);
        lemma_lookup_concat(head2, part2, "value"@);
    }

    /// What decodes from the JSON written for a value has the fields of that value.
    pub proof fn lemma_round_trip_fields(v: Matcher, w: Matcher)
        requires
            Matcher::decodes(v.json(), w),
        ensures
            w.matcher_type == v.matcher_type,
            w.field == v.field,
            w.value.deep_view() == v.value.deep_view(),
    {
        Self::lemma_members(v);
        MatcherType::lemma_round_trip(v.matcher_type);
        match v.field {
            Some(x) => {
                MatcherField::lemma_round_trip(x);
            },
            None => {},
        }
    }
}

impl Codec for Matcher {
    proof fn lemma_round_trip(v: Self) {
        Self::lemma_members(v);
        MatcherType::lemma_round_trip(v.matcher_type);
        match v.field {
            Some(x) => {
                MatcherField::lemma_round_trip(x);
            },
            None => {},
        }
        match v.value {
            Some(x) => {
                String::lemma_round_trip(x);
            },
            None => {},
        }
        assert(Self::rejection(v.json()) is None);
        assert(Self::decodes(v.json(), v));
        assert forall|w: Self| Self::decodes(v.json(), w) implies w.json() == v.json() by {
            assert(required_member::<MatcherType>("type"@, w.matcher_type) =~= required_member::<MatcherType>("type"@, v.matcher_type));
            assert(optional_member::<MatcherField>("field"@, w.field) =~= optional_member::<MatcherField>("field"@, v.field));
            assert(optional_member::<String>("value"@, w.value) =~= optional_member::<String>("value"@, v.value));
        }
    }
}

/// A routing rule as the service describes it.
#[derive(Clone, Debug, PartialEq, Eq)]
pub struct RoutingRule {
    pub id: Option<String>,
    pub actions: Vec<Action>,
    pub enabled: Option<bool>,
    pub matchers: Vec<Matcher>,
    pub name: Option<String>,
    pub priority: Option<u32>,
    pub tag: Option<String>,
}

impl ApiResult for RoutingRule {
    open spec fn rejection(j: JsonView) -> Option<DecodeErrorView> {
        let e = object_rejection(j);
        let e = then(e, optional_rejection::<String>(j, "id"@));
        let e = then(e, listed_rejection::<Action>(j, "actions"@));
        let e = then(e, optional_rejection::<bool>(j, "enabled"@));
        let e = then(e, listed_rejection::<Matcher>(j, "matchers"@));
        let e = then(e, optional_rejection::<String>(j, "name"@));
        let e = then(e, optional_rejection::<u32>(j, "priority"@));
        let e = then(e, optional_rejection::<String>(j, "tag"@));
        e
    }

    open spec fn decodes(j: JsonView, v: Self) -> bool {
        &&& optional_decodes::<String>(j, "id"@, v.id)
        &&& listed_decodes::<Action>(j, "actions"@, v.actions)
        &&& optional_decodes::<bool>(j, "enabled"@, v.enabled)
        &&& listed_decodes::<Matcher>(j, "matchers"@, v.matchers)
        &&& optional_decodes::<String>(j, "name"@, v.name)
        &&& optional_decodes::<u32>(j, "priority"@, v.priority)
        &&& optional_decodes::<String>(j, "tag"@, v.tag)
    }

    fn from_json(j: &Json) -> (r: Result<Self, DecodeError>) {
        match require_object(j) {
            Ok(_) => {},
            Err(e) => {
                return Err(e);
            },
        }
        let id = match optional::<String>(j, "id") {
            Ok(v) => v,
            Err(e) => {
                return Err(e);
            },
        };
        let actions = match listed::<Action>(j, "actions") {
            Ok(v) => v,
            Err(e) => {
                return Err(e);
            },
        };
        let enabled = match optional::<bool>(j, "enabled") {
            Ok(v) => v,
            Err(e) => {
                return Err(e);
            },
        };
        let matchers = match listed::<Matcher>(j, "matchers") {
            Ok(v) => v,
            Err(e) => {
                return Err(e);
            },
        };
        let name = match optional::<String>(j, "name") {
            Ok(v) => v,
            Err(e) => {
                return Err(e);
            },
        };
        let priority = match optional::<u32>(j, "priority") {
            Ok(v) => v,
            Err(e) => {
                return Err(e);
            },
        };
        let tag = match optional::<String>(j, "tag") {
            Ok(v) => v,
            Err(e) => {
                return Err(e);
            },
        };
        Ok(RoutingRule { id, actions, enabled, matchers, name, priority, tag })
    }
}

/// Create a routing rule.
#[derive(Debug)]
pub struct CreateRoutingRule<'a> {
    pub zone_identifier: &'a str,
    pub params: CreateRoutingRuleParams,
}

impl<'a> EndpointSpec for CreateRoutingRule<'a> {
    type JsonResponse = RoutingRule;

    type ResponseType = ApiSuccess<Self::JsonResponse>;

    open spec fn method_spec(&self) -> Method {
        Method::POST
    }

    open spec fn path_spec(&self) -> Seq<char> {
        "zones/"@ + self.zone_identifier@ + "/email/routing/rules"@
    }

    open spec fn query_spec(&self) -> Seq<(Seq<char>, Seq<char>)> {
        Seq::empty()
    }

    open spec fn body_spec(&self) -> Option<JsonView> {
        Some(self.params.json())
    }

    fn method(&self) -> (m: Method) {
        Method::POST
    }

    fn path(&self) -> (p: String) {
        let mut p = String::from_str("zones/");
        p.append(self.zone_identifier);
        p.append("/email/routing/rules");
        p
    }

    fn query(&self) -> (q: Option<String>) {
        None
    }

    fn body(&self) -> (b: Result<Option<RequestBody>, RequestError>) {
        render_body(&self.params.to_json())
    }
}

impl<'a> CreateRoutingRule<'a> {
    /// Whether every field is absent, empty or at its default.
    pub open spec fn is_default(&self) -> bool {
        &&& self.zone_identifier@ == ""@
        &&& self.params.is_default()
    }
}

impl<'a> Default for CreateRoutingRule<'a> {
    fn default() -> (r: CreateRoutingRule<'a>)
        ensures
            r.is_default(),
    {
        CreateRoutingRule { zone_identifier: "", params: CreateRoutingRuleParams::default() }
    }
}

/// What a new routing rule is made of.
#[derive(Debug, PartialEq, Eq)]
pub struct CreateRoutingRuleParams {
    pub actions: Vec<Action>,
    pub matchers: Vec<Matcher>,
    pub enabled: Option<bool>,
    pub name: Option<String>,
    pub priority: Option<u32>,
}

impl ToJson for CreateRoutingRuleParams {
    open spec fn json(&self) -> JsonView {
        JsonView::Object(
            Seq::<(Seq<char>, JsonView)>::empty()
                + required_member::<Vec<Action>>("actions"@, self.actions)
                + required_member::<Vec<Matcher>>("matchers"@, self.matchers)
                + optional_member::<bool>("enabled"@, self.enabled)
                + optional_member::<String>("name"@, self.name)
                + optional_member::<u32>("priority"@, self.priority),
        )
    }

    fn to_json(&self) -> (j: Json) {
        let mut b = ObjectBuilder::new();
        b.field("actions", &self.actions);
        b.field("matchers", &self.matchers);
        b.optional("enabled", &self.enabled);
        b.optional("name", &self.name);
        b.optional("priority", &self.priority);
        b.build()
    }
}

impl Writable for CreateRoutingRuleParams {
    open spec fn sound(&self) -> bool {
        &&& self.actions.sound()
        &&& self.matchers.sound()
        &&& self.enabled matches Some(x) ==> x.sound()
        &&& self.name matches Some(x) ==> x.sound()
        &&& self.priority matches Some(x) ==> x.sound()
    }

    proof fn lemma_writable(v: Self) {
        reveal_strlit("actions");
        reveal_strlit("matchers");
        reveal_strlit("enabled");
        reveal_strlit("name");
        reveal_strlit("priority");
        assert("actions"@.len() == 7);
        assert("matchers"@.len() == 8);
        assert("enabled"@.len() == 7);
        assert("name"@.len() == 4);
        assert("priority"@.len() == 8);
        assert("actions"@[0] != "enabled"@[0]);
        assert("matchers"@[0] != "priority"@[0]);
        let head0 = Seq::<(Seq<char>, JsonView)>::empty();
        let part0 = required_member::<Vec<Action>>("actions"@, v.actions);
        lemma_required_part::<Vec<Action>>("actions"@, v.actions);
        lemma_extend(head0, part0);
        let head1 = head0 + part0;
        let part1 = required_member::<Vec<Matcher>>("matchers"@, v.matchers);
        lemma_required_part::<Vec<Matcher>>("matchers"@, v.matchers);
        lemma_required_lookup::<Vec<Action>>("actions"@, v.actions, "matchers"@);
        lemma_lookup_concat(head0, part0, "matchers"@);
        lemma_extend(head1, part1);
        let head2 = head1 + part1;
        let part2 = optional_member::<bool>("enabled"@, v.enabled);
        lemma_optional_part::<bool>("enabled"@, v.enabled);
        lemma_required_lookup::<Vec<Action>>("actions"@, v.actions, "enabled"@);
        lemma_lookup_concat(head0, part0, "enabled"@);
        lemma_required_lookup::<Vec<Matcher>>("matchers"@, v.matchers, "enabled"@);
        lemma_lookup_concat(head1, part1, "enabled"@);
        lemma_extend(head2, part2);
        let head3 = head2 + part2;
        let part3 = optional_member::<String>("name"@, v.name);
        lemma_optional_part::<String>("name"@, v.name);
        lemma_required_lookup::<Vec<Action>>("actions"@, v.actions, "name"@);
        lemma_lookup_concat(head0, part0, "name"@);
        lemma_required_lookup::<Vec<Matcher>>("matchers"@, v.matchers, "name"@);
        lemma_lookup_concat(head1, part1, "name"@);
        lemma_optional_lookup::<bool>("enabled"@, v.enabled, "name"@);
        lemma_lookup_concat(head2, part2, "name"@);
        lemma_extend(head3, part3);
        let head4 = head3 + part3;
        let part4 = optional_member::<u32>("priority"@, v.priority);
        lemma_optional_part::<u32>("priority"@, v.priority);
        lemma_required_lookup::<Vec<Action>>("actions"@, v.actions, "priority"@);
        lemma_lookup_concat(head0, part0, "priority"@);
        lemma_required_lookup::<Vec<Matcher>>("matchers"@, v.matchers, "priority"@);
        lemma_lookup_concat(head1, part1, "priority"@);
        lemma_optional_lookup::<bool>("enabled"@, v.enabled, "priority"@);
        lemma_lookup_concat(head2, part2, "priority"@);
        lemma_optional_lookup::<String>("name"@, v.name, "priority"@);
        lemma_lookup_concat(head3, part3, "priority"@);
        lemma_extend(head4, part4);
    }
}

impl CreateRoutingRuleParams {
    /// Whether every field is absent, empty or at its default.
    pub open spec fn is_default(&self) -> bool {
        &&& self.actions@.len() == 0
        &&& self.matchers@.len() == 0
        &&& self.enabled is None
        &&& self.name is None
        &&& self.priority is None
    }
}

impl Default for CreateRoutingRuleParams {
    fn default() -> (r: CreateRoutingRuleParams)
        ensures
            r.is_default(),
    {
        CreateRoutingRuleParams {
            actions: Vec::new(),
            matchers: Vec::new(),
            enabled: None,
            name: None,
            priority: None,
        }
    }
}

/// Delete a routing rule.
#[derive(Debug)]
pub struct DeleteRoutingRule<'a> {
    pub zone_identifier: &'a str,
    pub rule_identifier: &'a str,
}

impl<'a> EndpointSpec for DeleteRoutingRule<'a> {
    type JsonResponse = RoutingRule;

    type ResponseType = ApiSuccess<Self::JsonResponse>;

    open spec fn method_spec(&self) -> Method {
        Method::DELETE
    }

    open spec fn path_spec(&self) -> Seq<char> {
        "zones/"@ + self.zone_identifier@ + "/email/routing/rules/"@ + self.rule_identifier@
    }

    open spec fn query_spec(&self) -> Seq<(Seq<char>, Seq<char>)> {
        Seq::empty()
    }

    open spec fn body_spec(&self) -> Option<JsonView> {
        None
    }

    fn method(&self) -> (m: Method) {
        Method::DELETE
    }

    fn path(&self) -> (p: String) {
        let mut p = String::from_str("zones/");
        p.append(self.zone_identifier);
        p.append("/email/routing/rules/");
        p.append(self.rule_identifier);
        p
    }

    fn query(&self) -> (q: Option<String>) {
        None
    }

    fn body(&self) -> (b: Result<Option<RequestBody>, RequestError>) {
        Ok(None)
    }
}

impl<'a> DeleteRoutingRule<'a> {
    /// Whether every field is absent, empty or at its default.
    pub open spec fn is_default(&self) -> bool {
        &&& self.zone_identifier@ == ""@
        &&& self.rule_identifier@ == ""@
    }
}

impl<'a> Default for DeleteRoutingRule<'a> {
    fn default() -> (r: DeleteRoutingRule<'a>)
        ensures
            r.is_default(),
    {
        DeleteRoutingRule { zone_identifier: "", rule_identifier: "" }
    }
}

/// Get a routing rule.
#[derive(Debug)]
pub struct GetRoutingRule<'a> {
    pub zone_identifier: &'a str,
    pub rule_identifier: &'a str,
}

impl<'a> EndpointSpec for GetRoutingRule<'a> {
    type JsonResponse = RoutingRule;

    type ResponseType = ApiSuccess<Self::JsonResponse>;

    open spec fn method_spec(&self) -> Method {
        Method::GET
    }

    open spec fn path_spec(&self) -> Seq<char> {
        "zones/"@ + self.zone_identifier@ + "/email/routing/rules/"@ + self.rule_identifier@
    }

    open spec fn query_spec(&self) -> Seq<(Seq<char>, Seq<char>)> {
        Seq::empty()
    }

    open spec fn body_spec(&self) -> Option<JsonView> {
        None
    }

    fn method(&self) -> (m: Method) {
        Method::GET
    }

    fn path(&self) -> (p: String) {
        let mut p = String::from_str("zones/");
        p.append(self.zone_identifier);
        p.append("/email/routing/rules/");
        p.append(self.rule_identifier);
        p
    }

    fn query(&self) -> (q: Option<String>) {
        None
    }

    fn body(&self) -> (b: Result<Option<RequestBody>, RequestError>) {
        Ok(None)
    }
}

impl<'a> GetRoutingRule<'a> {
    /// Whether every field is absent, empty or at its default.
    pub open spec fn is_default(&self) -> bool {
        &&& self.zone_identifier@ == ""@
        &&& self.rule_identifier@ == ""@
    }
}

impl<'a> Default for GetRoutingRule<'a> {
    fn default() -> (r: GetRoutingRule<'a>)
        ensures
            r.is_default(),
    {
        GetRoutingRule { zone_identifier: "", rule_identifier: "" }
    }
}

/// List the routing rules of a zone.
#[derive(Debug)]
pub struct ListRoutingRule<'a> {
    pub zone_identifier: &'a str,
    pub params: ListRoutingRuleParams,
}

impl<'a> EndpointSpec for ListRoutingRule<'a> {
    type JsonResponse = Vec<RoutingRule>;

    type ResponseType = ApiSuccess<Self::JsonResponse>;

    open spec fn method_spec(&self) -> Method {
        Method::GET
    }

    open spec fn path_spec(&self) -> Seq<char> {
        "zones/"@ + self.zone_identifier@ + "/email/routing/rules"@
    }

    open spec fn query_spec(&self) -> Seq<(Seq<char>, Seq<char>)> {
        self.params.query_pairs()
    }

    open spec fn body_spec(&self) -> Option<JsonView> {
        None
    }

    fn method(&self) -> (m: Method) {
        Method::GET
    }

    fn path(&self) -> (p: String) {
        let mut p = String::from_str("zones/");
        p.append(self.zone_identifier);
        p.append("/email/routing/rules");
        p
    }

    fn query(&self) -> (q: Option<String>) {
        serialize_query(&self.params)
    }

    fn body(&self) -> (b: Result<Option<RequestBody>, RequestError>) {
        Ok(None)
    }
}

impl<'a> ListRoutingRule<'a> {
    /// Whether every field is absent, empty or at its default.
    pub open spec fn is_default(&self) -> bool {
        &&& self.zone_identifier@ == ""@
        &&& self.params.is_default()
    }
}

impl<'a> Default for ListRoutingRule<'a> {
    fn default() -> (r: ListRoutingRule<'a>)
        ensures
            r.is_default(),
    {
        ListRoutingRule { zone_identifier: "", params: ListRoutingRuleParams::default() }
    }
}

/// Which routing rules are listed.
#[derive(Debug, PartialEq, Eq)]
pub struct ListRoutingRuleParams {
    pub enabled: Option<bool>,
    pub page: Option<u32>,
    pub per_page: Option<u32>,
}

impl QueryPayload for ListRoutingRuleParams {
    open spec fn query_pairs(&self) -> Seq<(Seq<char>, Seq<char>)> {
        Seq::<(Seq<char>, Seq<char>)>::empty()
            + optional_pair::<bool>("enabled"@, self.enabled)
            + optional_pair::<u32>("page"@, self.page)
            + optional_pair::<u32>("per_page"@, self.per_page)
    }

    fn to_query_pairs(&self) -> (p: Vec<(String, String)>) {
        let mut b = QueryBuilder::new();
        b.optional("enabled", &self.enabled);
        b.optional("page", &self.page);
        b.optional("per_page", &self.per_page);
        b.build()
    }
}

impl ListRoutingRuleParams {
    /// Whether every field is absent, empty or at its default.
    pub open spec fn is_default(&self) -> bool {
        &&& self.enabled is None
        &&& self.page is None
        &&& self.per_page is None
    }
}

impl Default for ListRoutingRuleParams {
    fn default() -> (r: ListRoutingRuleParams)
        ensures
            r.is_default(),
    {
        ListRoutingRuleParams { enabled: None, page: None, per_page: None }
    }
}

/// Update a routing rule.
#[derive(Debug)]
pub struct UpdateRoutingRule<'a> {
    pub zone_identifier: &'a str,
    pub rule_identifier: &'a str,
    pub params: UpdateRoutingRuleParams,
}

impl<'a> EndpointSpec for UpdateRoutingRule<'a> {
    type JsonResponse = RoutingRule;

    type ResponseType = ApiSuccess<Self::JsonResponse>;

    open spec fn method_spec(&self) -> Method {
        Method::PUT
    }

    open spec fn path_spec(&self) -> Seq<char> {
        "zones/"@ + self.zone_identifier@ + "/email/routing/rules/"@ + self.rule_identifier@
    }

    open spec fn query_spec(&self) -> Seq<(Seq<char>, Seq<char>)> {
        Seq::empty()
    }

    open spec fn body_spec(&self) -> Option<JsonView> {
        Some(self.params.json())
    }

    fn method(&self) -> (m: Method) {
        Method::PUT
    }

    fn path(&self) -> (p: String) {
        let mut p = String::from_str("zones/");
        p.append(self.zone_identifier);
        p.append("/email/routing/rules/");
        p.append(self.rule_identifier);
        p
    }

    fn query(&self) -> (q: Option<String>) {
        None
    }

    fn body(&self) -> (b: Result<Option<RequestBody>, RequestError>) {
        render_body(&self.params.to_json())
    }
}

impl<'a> UpdateRoutingRule<'a> {
    /// Whether every field is absent, empty or at its default.
    pub open spec fn is_default(&self) -> bool {
        &&& self.zone_identifier@ == ""@
        &&& self.rule_identifier@ == ""@
        &&& self.params.is_default()
    }
}

impl<'a> Default for UpdateRoutingRule<'a> {
    fn default() -> (r: UpdateRoutingRule<'a>)
        ensures
            r.is_default(),
    {
        UpdateRoutingRule {
            zone_identifier: "",
            rule_identifier: "",
            params: UpdateRoutingRuleParams::default(),
        }
    }
}

/// What a routing rule is replaced with.
#[derive(Debug, PartialEq, Eq)]
pub struct UpdateRoutingRuleParams {
    pub actions: Vec<Action>,
    pub matchers: Vec<Matcher>,
    pub enabled: Option<bool>,
    pub name: Option<String>,
    pub priority: Option<u32>,
}

impl ToJson for UpdateRoutingRuleParams {
    open spec fn json(&self) -> JsonView {
        JsonView::Object(
            Seq::<(Seq<char>, JsonView)>::empty()
                + required_member::<Vec<Action>>("actions"@, self.actions)
                + required_member::<Vec<Matcher>>("matchers"@, self.matchers)
                + optional_member::<bool>("enabled"@, self.enabled)
                + optional_member::<String>("name"@, self.name)
                + optional_member::<u32>("priority"@, self.priority),
        )
    }

    fn to_json(&self) -> (j: Json) {
        let mut b = ObjectBuilder::new();
        b.field("actions", &self.actions);
        b.field("matchers", &self.matchers);
        b.optional("enabled", &self.enabled);
        b.optional("name", &self.name);
        b.optional("priority", &self.priority);
        b.build()
    }
}

impl Writable for UpdateRoutingRuleParams {
    open spec fn sound(&self) -> bool {
        &&& self.actions.sound()
        &&& self.matchers.sound()
        &&& self.enabled matches Some(x) ==> x.sound()
        &&& self.name matches Some(x) ==> x.sound()
        &&& self.priority matches Some(x) ==> x.sound()
    }

    proof fn lemma_writable(v: Self) {
        reveal_strlit("actions");
        reveal_strlit("matchers");
        reveal_strlit("enabled");
        reveal_strlit("name");
        reveal_strlit("priority");
        assert("actions"@.len() == 7);
        assert("matchers"@.len() == 8);
        assert("enabled"@.len() == 7);
        assert("name"@.len() == 4);
        assert("priority"@.len() == 8);
        assert("actions"@[0] != "enabled"@[0]);
        assert("matchers"@[0] != "priority"@[0]);
        let head0 = Seq::<(Seq<char>, JsonView)>::empty();
        let part0 = required_member::<Vec<Action>>("actions"@, v.actions);
        lemma_required_part::<Vec<Action>>("actions"@, v.actions);
        lemma_extend(head0, part0);
        let head1 = head0 + part0;
        let part1 = required_member::<Vec<Matcher>>("matchers"@, v.matchers);
        lemma_required_part::<Vec<Matcher>>("matchers"@, v.matchers);
        lemma_required_lookup::<Vec<Action>>("actions"@, v.actions, "matchers"@);
        lemma_lookup_concat(head0, part0, "matchers"@);
        lemma_extend(head1, part1);
        let head2 = head1 + part1;
        let part2 = optional_member::<bool>("enabled"@, v.enabled);
        lemma_optional_part::<bool>("enabled"@, v.enabled);
        lemma_required_lookup::<Vec<Action>>("actions"@, v.actions, "enabled"@);
        lemma_lookup_concat(head0, part0, "enabled"@);
        lemma_required_lookup::<Vec<Matcher>>("matchers"@, v.matchers, "enabled"@);
        lemma_lookup_concat(head1, part1, "enabled"@);
        lemma_extend(head2, part2);
        let head3 = head2 + part2;
        let part3 = optional_member::<String>("name"@, v.name);
        lemma_optional_part::<String>("name"@, v.name);
        lemma_required_lookup::<Vec<Action>>("actions"@, v.actions, "name"@);
        lemma_lookup_concat(head0, part0, "name"@);
        lemma_required_lookup::<Vec<Matcher>>("matchers"@, v.matchers, "name"@);
        lemma_lookup_concat(head1, part1, "name"@);
        lemma_optional_lookup::<bool>("enabled"@, v.enabled, "name"@);
        lemma_lookup_concat(head2, part2, "name"@);
        lemma_extend(head3, part3);
        let head4 = head3 + part3;
        let part4 = optional_member::<u32>("priority"@, v.priority);
        lemma_optional_part::<u32>("priority"@, v.priority);
        lemma_required_lookup::<Vec<Action>>("actions"@, v.actions, "priority"@);
        lemma_lookup_concat(head0, part0, "priority"@);
        lemma_required_lookup::<Vec<Matcher>>("matchers"@, v.matchers, "priority"@);
        lemma_lookup_concat(head1, part1, "priority"@);
        lemma_optional_lookup::<bool>("enabled"@, v.enabled, "priority"@);
        lemma_lookup_concat(head2, part2, "priority"@);
        lemma_optional_lookup::<String>("name"@, v.name, "priority"@);
        lemma_lookup_concat(head3, part3, "priority"@);
        lemma_extend(head4, part4);
    }
}

impl UpdateRoutingRuleParams {
    /// Whether every field is absent, empty or at its default.
    pub open spec fn is_default(&self) -> bool {
        &&& self.actions@.len() == 0
        &&& self.matchers@.len() == 0
        &&& self.enabled is None
        &&& self.name is None
        &&& self.priority is None
    }
}

impl Default for UpdateRoutingRuleParams {
    fn default() -> (r: UpdateRoutingRuleParams)
        ensures
            r.is_default(),
    {
        UpdateRoutingRuleParams {
            actions: Vec::new(),
            matchers: Vec::new(),
            enabled: None,
            name: None,
            priority: None,
        }
    }
}

/// What the catch-all rule does with a message.
#[derive(Clone, Copy, Debug, PartialEq, Eq, Structural)]
pub enum CatchAllActionType {
    All,
    Literal,
}

impl TextEnum for CatchAllActionType {
    open spec fn text(&self) -> Seq<char> {
        match self {
            CatchAllActionType::All => "all"@,
            CatchAllActionType::Literal => "literal"@,
        }
    }

    open spec fn named(t: Seq<char>) -> Option<Self> {
        if t == "all"@ {
            Some(CatchAllActionType::All)
        } else if t == "literal"@ {
            Some(CatchAllActionType::Literal)
        } else {
            None
        }
    }

    fn as_str(&self) -> (s: &'static str) {
        match self {
            CatchAllActionType::All => "all",
            CatchAllActionType::Literal => "literal",
        }
    }

    fn from_text(t: &str) -> (r: Option<Self>) {
        if str_eq(t, "all") {
            Some(CatchAllActionType::All)
        } else if str_eq(t, "literal") {
            Some(CatchAllActionType::Literal)
        } else {
            None
        }
    }

    proof fn lemma_named_text(v: Self) {
        reveal_strlit("all");
        reveal_strlit("literal");
        assert("all"@.len() == 3);
        assert("literal"@.len() == 7);
    }
}

impl ToJson for CatchAllActionType {
    open spec fn json(&self) -> JsonView {
        JsonView::Text(self.text())
    }

    fn to_json(&self) -> (j: Json) {
        text_to_json(self)
    }
}

impl ApiResult for CatchAllActionType {
    open spec fn rejection(j: JsonView) -> Option<DecodeErrorView> {
        text_rejection::<CatchAllActionType>(j)
    }

    open spec fn decodes(j: JsonView, v: Self) -> bool {
        text_decodes::<CatchAllActionType>(j, v)
    }

    fn from_json(j: &Json) -> (r: Result<Self, DecodeError>) {
        text_from_json::<CatchAllActionType>(j)
    }
}

impl Writable for CatchAllActionType {
    open spec fn sound(&self) -> bool {
        true
    }

    proof fn lemma_writable(v: Self) {
    }
}

impl Codec for CatchAllActionType {
    proof fn lemma_round_trip(v: Self) {
        Self::lemma_named_text(v);
    }
}

impl Default for CatchAllActionType {
    fn default() -> (r: CatchAllActionType)
        ensures
            r == CatchAllActionType::All,
    {
        CatchAllActionType::All
    }
}

/// How the catch-all rule picks its messages.
#[derive(Clone, Copy, Debug, PartialEq, Eq, Structural)]
pub enum CatchAllMatcherType {
    To,
}

impl TextEnum for CatchAllMatcherType {
    open spec fn text(&self) -> Seq<char> {
        match self {
            CatchAllMatcherType::To => "to"@,
        }
    }

    open spec fn named(t: Seq<char>) -> Option<Self> {
        if t == "to"@ {
            Some(CatchAllMatcherType::To)
        } else {
            None
        }
    }

    fn as_str(&self) -> (s: &'static str) {
        match self {
            CatchAllMatcherType::To => "to",
        }
    }

    fn from_text(t: &str) -> (r: Option<Self>) {
        if str_eq(t, "to") {
            Some(CatchAllMatcherType::To)
        } else {
            None
        }
    }

    proof fn lemma_named_text(v: Self) {
        reveal_strlit("to");
    }
}

impl ToJson for CatchAllMatcherType {
    open spec fn json(&self) -> JsonView {
        JsonView::Text(self.text())
    }

    fn to_json(&self) -> (j: Json) {
        text_to_json(self)
    }
}

impl ApiResult for CatchAllMatcherType {
    open spec fn rejection(j: JsonView) -> Option<DecodeErrorView> {
        text_rejection::<CatchAllMatcherType>(j)
    }

    open spec fn decodes(j: JsonView, v: Self) -> bool {
        text_decodes::<CatchAllMatcherType>(j, v)
    }

    fn from_json(j: &Json) -> (r: Result<Self, DecodeError>) {
        text_from_json::<CatchAllMatcherType>(j)
    }
}

impl Writable for CatchAllMatcherType {
    open spec fn sound(&self) -> bool {
        true
    }

    proof fn lemma_writable(v: Self) {
    }
}

impl Codec for CatchAllMatcherType {
    proof fn lemma_round_trip(v: Self) {
        Self::lemma_named_text(v);
    }
}

impl Default for CatchAllMatcherType {
    fn default() -> (r: CatchAllMatcherType)
        ensures
            r == CatchAllMatcherType::To,
    {
        CatchAllMatcherType::To
    }
}

/// An action of the catch-all rule.
#[derive(Clone, Debug, PartialEq, Eq)]
pub struct CatchAllAction {
    pub action_type: CatchAllActionType,
    pub value: Option<Vec<String>>,
}

impl ToJson for CatchAllAction {
    open spec fn json(&self) -> JsonView {
        JsonView::Object(
            Seq::<(Seq<char>, JsonView)>::empty()
                + required_member::<CatchAllActionType>("type"@, self.action_type)
                + optional_member::<Vec<String>>("value"@, self.value),
        )
    }

    fn to_json(&self) -> (j: Json) {
        let mut b = ObjectBuilder::new();
        b.field("type", &self.action_type);
        b.optional("value", &self.value);
        b.build()
    }
}

impl ApiResult for CatchAllAction {
    open spec fn rejection(j: JsonView) -> Option<DecodeErrorView> {
        let e = object_rejection(j);
        let e = then(e, required_rejection::<CatchAllActionType>(j, "type"@));
        let e = then(e, optional_rejection::<Vec<String>>(j, "value"@));
        e
    }

    open spec fn decodes(j: JsonView, v: Self) -> bool {
        &&& required_decodes::<CatchAllActionType>(j, "type"@, v.action_type)
        &&& optional_decodes::<Vec<String>>(j, "value"@, v.value)
    }

    fn from_json(j: &Json) -> (r: Result<Self, DecodeError>) {
        match require_object(j) {
            Ok(_) => {},
            Err(e) => {
                return Err(e);
            },
        }
        let action_type = match required::<CatchAllActionType>(j, "type") {
            Ok(v) => v,
            Err(e) => {
                return Err(e);
            },
        };
        let value = match optional::<Vec<String>>(j, "value") {
            Ok(v) => v,
            Err(e) => {
                return Err(e);
            },
        };
        Ok(CatchAllAction { action_type, value })
    }
}

impl Writable for CatchAllAction {
    open spec fn sound(&self) -> bool {
        &&& self.action_type.sound()
        &&& self.value matches Some(x) ==> x.sound()
    }

    proof fn lemma_writable(v: Self) {
        reveal_strlit("type");
        reveal_strlit("value");
        assert("type"@.len() == 4);
        assert("value"@.len() == 5);
        let head0 = Seq::<(Seq<char>, JsonView)>::empty();
        let part0 = required_member::<CatchAllActionType>("type"@, v.action_type);
        lemma_required_part::<CatchAllActionType>("type"@, v.action_type);
        lemma_extend(head0, part0);
        let head1 = head0 + part0;
        let part1 = optional_member::<Vec<String>>("value"@, v.value);
        lemma_optional_part::<Vec<String>>("value"@, v.value);
        lemma_required_lookup::<CatchAllActionType>("type"@, v.action_type, "value"@);
        lemma_lookup_concat(head0, part0, "value"@);
        lemma_extend(head1, part1);
    }
}

impl CatchAllAction {
    /// Whether every field is absent, empty or at its default.
    pub open spec fn is_default(&self) -> bool {
        &&& self.action_type == CatchAllActionType::All
        &&& self.value is None
    }
}

impl Default for CatchAllAction {
    fn default() -> (r: CatchAllAction)
        ensures
            r.is_default(),
    {
        CatchAllAction { action_type: CatchAllActionType::All, value: None }
    }
}

impl CatchAllAction {
    /// What the members of the JSON object of a value are found to be.
    pub proof fn lemma_members(v: CatchAllAction)
        ensures
            v.json() is Object,
            member(v.json(), "type"@) == Some(v.action_type.json()),
            member(v.json(), "value"@) == (match v.value {
                Some(x) => Some(x.json()),
                None => None,
            }),
    {
        reveal_strlit("type");
        reveal_strlit("value");
        assert("type"@.len() == 4);
        assert("value"@.len() == 5);
        let head0 = Seq::<(Seq<char>, JsonView)>::empty();
        let part0 = required_member::<CatchAllActionType>("type"@, v.action_type);
        let head1 = head0 + part0;
        let part1 = optional_member::<Vec<String>>("value"@, v.value);
        lemma_required_lookup::<CatchAllActionType>("type"@, v.action_type, "type"@);
        lemma_lookup_concat(head0, part0, "type"@);
        lemma_optional_lookup::<Vec<String>>("value"@, v.value, "type"@);
        lemma_lookup_concat(head1, part1, "type"@);
        lemma_required_lookup::<CatchAllActionType>("type"@, v.action_type, "value"@);
        lemma_lookup_concat(head0, part0, "value"@);
        lemma_optional_lookup::<Vec<String>>("value"@, v.value, "value"@);
        lemma_lookup_concat(head1, part1, "value"@);
    }

    /// What decodes from the JSON written for a value has the fields of that value.
    pub proof fn lemma_round_trip_fields(v: CatchAllAction, w: CatchAllAction)
        requires
            CatchAllAction::decodes(v.json(), w),
        ensures
            w.action_type == v.action_type,
            w.value.deep_view() == v.value.deep_view(),
    {
        Self::lemma_members(v);
        CatchAllActionType::lemma_round_trip(v.action_type);
        match (v.value, w.value) {
            (Some(x), Some(y)) => {
                lemma_texts_agree(x, y);
            },
            _ => {},
        }
    }
}

impl Codec for CatchAllAction {
    proof fn lemma_round_trip(v: Self) {
        Self::lemma_members(v);
        CatchAllActionType::lemma_round_trip(v.action_type);
        match v.value {
            Some(x) => {
                Vec::<String>::lemma_round_trip(x);
            },
            None => {},
        }
        assert(Self::rejection(v.json()) is None);
        assert(Self::decodes(v.json(), v));
        assert forall|w: Self| Self::decodes(v.json(), w) implies w.json() == v.json() by {
            assert(required_member::<CatchAllActionType>("type"@, w.action_type) =~= required_member::<CatchAllActionType>("type"@, v.action_type));
            assert(optional_member::<Vec<String>>("value"@, w.value) =~= optional_member::<Vec<String>>("value"@, v.value));
        }
    }
}

/// The condition of the catch-all rule.
#[derive(Clone, Debug, PartialEq, Eq)]
pub struct CatchAllMatcher {
    pub matcher_type: CatchAllMatcherType,
}

impl ToJson for CatchAllMatcher {
    open spec fn json(&self) -> JsonView {
        JsonView::Object(
            Seq::<(Seq<char>, JsonView)>::empty()
                + required_member::<CatchAllMatcherType>("type"@, self.matcher_type),
        )
    }

    fn to_json(&self) -> (j: Json) {
        let mut b = ObjectBuilder::new();
        b.field("type", &self.matcher_type);
        b.build()
    }
}

impl ApiResult for CatchAllMatcher {
    open spec fn rejection(j: JsonView) -> Option<DecodeErrorView> {
        let e = object_rejection(j);
        let e = then(e, required_rejection::<CatchAllMatcherType>(j, "type"@));
        e
    }

    open spec fn decodes(j: JsonView, v: Self) -> bool {
        &&& required_decodes::<CatchAllMatcherType>(j, "type"@, v.matcher_type)
    }

    fn from_json(j: &Json) -> (r: Result<Self, DecodeError>) {
        match require_object(j) {
            Ok(_) => {},
            Err(e) => {
                return Err(e);
            },
        }
        let matcher_type = match required::<CatchAllMatcherType>(j, "type") {
            Ok(v) => v,
            Err(e) => {
                return Err(e);
            },
        };
        Ok(CatchAllMatcher { matcher_type })
    }
}

impl Writable for CatchAllMatcher {
    open spec fn sound(&self) -> bool {
        &&& self.matcher_type.sound()
    }

    proof fn lemma_writable(v: Self) {
        reveal_strlit("type");
        let head0 = Seq::<(Seq<char>, JsonView)>::empty();
        let part0 = required_member::<CatchAllMatcherType>("type"@, v.matcher_type);
        lemma_required_part::<CatchAllMatcherType>("type"@, v.matcher_type);
        lemma_extend(head0, part0);
    }
}

impl CatchAllMatcher {
    /// Whether every field is absent, empty or at its default.
    pub open spec fn is_default(&self) -> bool {
        &&& self.matcher_type == CatchAllMatcherType::To
    }
}

impl Default for CatchAllMatcher {
    fn default() -> (r: CatchAllMatcher)
        ensures
            r.is_default(),
    {
        CatchAllMatcher { matcher_type: CatchAllMatcherType::To }
    }
}

impl CatchAllMatcher {
    /// What the members of the JSON object of a value are found to be.
    pub proof fn lemma_members(v: CatchAllMatcher)
        ensures
            v.json() is Object,
            member(v.json(), "type"@) == Some(v.matcher_type.json()),
    {
        reveal_strlit("type");
        let head0 = Seq::<(Seq<char>, JsonView)>::empty();
        let part0 = required_member::<CatchAllMatcherType>("type"@, v.matcher_type);
        lemma_required_lookup::<CatchAllMatcherType>("type"@, v.matcher_type, "type"@);
        lemma_lookup_concat(head0, part0, "type"@);
    }

    /// What decodes from the JSON written for a value has the fields of that value.
    pub proof fn lemma_round_trip_fields(v: CatchAllMatcher, w: CatchAllMatcher)
        requires
            CatchAllMatcher::decodes(v.json(), w),
        ensures
            w.matcher_type == v.matcher_type,
    {
        Self::lemma_members(v);
        CatchAllMatcherType::lemma_round_trip(v.matcher_type);
    }
}

impl Codec for CatchAllMatcher {
    proof fn lemma_round_trip(v: Self) {
        Self::lemma_members(v);
        CatchAllMatcherType::lemma_round_trip(v.matcher_type);
        assert(Self::rejection(v.json()) is None);
        assert(Self::decodes(v.json(), v));
        assert forall|w: Self| Self::decodes(v.json(), w) implies w.json() == v.json() by {
            assert(required_member::<CatchAllMatcherType>("type"@, w.matcher_type) =~= required_member::<CatchAllMatcherType>("type"@, v.matcher_type));
        }
    }
}

/// The catch-all rule as the service describes it.
#[derive(Clone, Debug, PartialEq, Eq)]
pub struct CatchAllRoutingRule {
    pub id: Option<String>,
    pub actions: Vec<CatchAllAction>,
    pub enabled: Option<bool>,
    pub matchers: Vec<CatchAllMatcher>,
    pub name: Option<String>,
    pub tag: Option<String>,
}

impl ApiResult for CatchAllRoutingRule {
    open spec fn rejection(j: JsonView) -> Option<DecodeErrorView> {
        let e = object_rejection(j);
        let e = then(e, optional_rejection::<String>(j, "id"@));
        let e = then(e, listed_rejection::<CatchAllAction>(j, "actions"@));
        let e = then(e, optional_rejection::<bool>(j, "enabled"@));
        let e = then(e, listed_rejection::<CatchAllMatcher>(j, "matchers"@));
        let e = then(e, optional_rejection::<String>(j, "name"@));
        let e = then(e, optional_rejection::<String>(j, "tag"@));
        e
    }

    open spec fn decodes(j: JsonView, v: Self) -> bool {
        &&& optional_decodes::<String>(j, "id"@, v.id)
        &&& listed_decodes::<CatchAllAction>(j, "actions"@, v.actions)
        &&& optional_decodes::<bool>(j, "enabled"@, v.enabled)
        &&& listed_decodes::<CatchAllMatcher>(j, "matchers"@, v.matchers)
        &&& optional_decodes::<String>(j, "name"@, v.name)
        &&& optional_decodes::<String>(j, "tag"@, v.tag)
    }

    fn from_json(j: &Json) -> (r: Result<Self, DecodeError>) {
        match require_object(j) {
            Ok(_) => {},
            Err(e) => {
                return Err(e);
            },
        }
        let id = match optional::<String>(j, "id") {
            Ok(v) => v,
            Err(e) => {
                return Err(e);
            },
        };
        let actions = match listed::<CatchAllAction>(j, "actions") {
            Ok(v) => v,
            Err(e) => {
                return Err(e);
            },
        };
        let enabled = match optional::<bool>(j, "enabled") {
            Ok(v) => v,
            Err(e) => {
                return Err(e);
            },
        };
        let matchers = match listed::<CatchAllMatcher>(j, "matchers") {
            Ok(v) => v,
            Err(e) => {
                return Err(e);
            },
        };
        let name = match optional::<String>(j, "name") {
            Ok(v) => v,
            Err(e) => {
                return Err(e);
            },
        };
        let tag = match optional::<String>(j, "tag") {
            Ok(v) => v,
            Err(e) => {
                return Err(e);
            },
        };
        Ok(CatchAllRoutingRule { id, actions, enabled, matchers, name, tag })
    }
}

/// Get the catch-all rule of a zone.
#[derive(Debug)]
pub struct GetCatchAllRule<'a> {
    pub zone_identifier: &'a str,
}

impl<'a> EndpointSpec for GetCatchAllRule<'a> {
    type JsonResponse = CatchAllRoutingRule;

    type ResponseType = ApiSuccess<Self::JsonResponse>;

    open spec fn method_spec(&self) -> Method {
        Method::GET
    }

    open spec fn path_spec(&self) -> Seq<char> {
        "zones/"@ + self.zone_identifier@ + "/email/routing/rules/catch_all"@
    }

    open spec fn query_spec(&self) -> Seq<(Seq<char>, Seq<char>)> {
        Seq::empty()
    }

    open spec fn body_spec(&self) -> Option<JsonView> {
        None
    }

    fn method(&self) -> (m: Method) {
        Method::GET
    }

    fn path(&self) -> (p: String) {
        let mut p = String::from_str("zones/");
        p.append(self.zone_identifier);
        p.append("/email/routing/rules/catch_all");
        p
    }

    fn query(&self) -> (q: Option<String>) {
        None
    }

    fn body(&self) -> (b: Result<Option<RequestBody>, RequestError>) {
        Ok(None)
    }
}

impl<'a> GetCatchAllRule<'a> {
    /// Whether every field is absent, empty or at its default.
    pub open spec fn is_default(&self) -> bool {
        &&& self.zone_identifier@ == ""@
    }
}

impl<'a> Default for GetCatchAllRule<'a> {
    fn default() -> (r: GetCatchAllRule<'a>)
        ensures
            r.is_default(),
    {
        GetCatchAllRule { zone_identifier: "" }
    }
}

/// Update the catch-all rule of a zone.
#[derive(Debug)]
pub struct UpdateCatchAllRule<'a> {
    pub zone_identifier: &'a str,
    pub params: UpdateCatchAllRuleParams,
}

impl<'a> EndpointSpec for UpdateCatchAllRule<'a> {
    type JsonResponse = CatchAllRoutingRule;

    type ResponseType = ApiSuccess<Self::JsonResponse>;

    open spec fn method_spec(&self) -> Method {
        Method::PUT
    }

    open spec fn path_spec(&self) -> Seq<char> {
        "zones/"@ + self.zone_identifier@ + "/email/routing/rules/catch_all"@
    }

    open spec fn query_spec(&self) -> Seq<(Seq<char>, Seq<char>)> {
        Seq::empty()
    }

    open spec fn body_spec(&self) -> Option<JsonView> {
        Some(self.params.json())
    }

    fn method(&self) -> (m: Method) {
        Method::PUT
    }

    fn path(&self) -> (p: String) {
        let mut p = String::from_str("zones/");
        p.append(self.zone_identifier);
        p.append("/email/routing/rules/catch_all");
        p
    }

    fn query(&self) -> (q: Option<String>) {
        None
    }

    fn body(&self) -> (b: Result<Option<RequestBody>, RequestError>) {
        render_body(&self.params.to_json())
    }
}

impl<'a> UpdateCatchAllRule<'a> {
    /// Whether every field is absent, empty or at its default.
    pub open spec fn is_default(&self) -> bool {
        &&& self.zone_identifier@ == ""@
        &&& self.params.is_default()
    }
}

impl<'a> Default for UpdateCatchAllRule<'a> {
    fn default() -> (r: UpdateCatchAllRule<'a>)
        ensures
            r.is_default(),
    {
        UpdateCatchAllRule { zone_identifier: "", params: UpdateCatchAllRuleParams::default() }
    }
}

/// What the catch-all rule is replaced with.
#[derive(Clone, Debug, PartialEq, Eq)]
pub struct UpdateCatchAllRuleParams {
    pub actions: Vec<CatchAllAction>,
    pub matchers: Vec<CatchAllMatcher>,
    pub enabled: Option<bool>,
    pub name: Option<String>,
}

impl ToJson for UpdateCatchAllRuleParams {
    open spec fn json(&self) -> JsonView {
        JsonView::Object(
            Seq::<(Seq<char>, JsonView)>::empty()
                + required_member::<Vec<CatchAllAction>>("actions"@, self.actions)
                + required_member::<Vec<CatchAllMatcher>>("matchers"@, self.matchers)
                + optional_member::<bool>("enabled"@, self.enabled)
                + optional_member::<String>("name"@, self.name),
        )
    }

    fn to_json(&self) -> (j: Json) {
        let mut b = ObjectBuilder::new();
        b.field("actions", &self.actions);
        b.field("matchers", &self.matchers);
        b.optional("enabled", &self.enabled);
        b.optional("name", &self.name);
        b.build()
    }
}

impl Writable for UpdateCatchAllRuleParams {
    open spec fn sound(&self) -> bool {
        &&& self.actions.sound()
        &&& self.matchers.sound()
        &&& self.enabled matches Some(x) ==> x.sound()
        &&& self.name matches Some(x) ==> x.sound()
    }

    proof fn lemma_writable(v: Self) {
        reveal_strlit("actions");
        reveal_strlit("matchers");
        reveal_strlit("enabled");
        reveal_strlit("name");
        assert("actions"@.len() == 7);
        assert("matchers"@.len() == 8);
        assert("enabled"@.len() == 7);
        assert("name"@.len() == 4);
        assert("actions"@[0] != "enabled"@[0]);
        let head0 = Seq::<(Seq<char>, JsonView)>::empty();
        let part0 = required_member::<Vec<CatchAllAction>>("actions"@, v.actions);
        lemma_required_part::<Vec<CatchAllAction>>("actions"@, v.actions);
        lemma_extend(head0, part0);
        let head1 = head0 + part0;
        let part1 = required_member::<Vec<CatchAllMatcher>>("matchers"@, v.matchers);
        lemma_required_part::<Vec<CatchAllMatcher>>("matchers"@, v.matchers);
        lemma_required_lookup::<Vec<CatchAllAction>>("actions"@, v.actions, "matchers"@);
        lemma_lookup_concat(head0, part0, "matchers"@);
        lemma_extend(head1, part1);
        let head2 = head1 + part1;
        let part2 = optional_member::<bool>("enabled"@, v.enabled);
        lemma_optional_part::<bool>("enabled"@, v.enabled);
        lemma_required_lookup::<Vec<CatchAllAction>>("actions"@, v.actions, "enabled"@);
        lemma_lookup_concat(head0, part0, "enabled"@);
        lemma_required_lookup::<Vec<CatchAllMatcher>>("matchers"@, v.matchers, "enabled"@);
        lemma_lookup_concat(head1, part1, "enabled"@);
        lemma_extend(head2, part2);
        let head3 = head2 + part2;
        let part3 = optional_member::<String>("name"@, v.name);
        lemma_optional_part::<String>("name"@, v.name);
        lemma_required_lookup::<Vec<CatchAllAction>>("actions"@, v.actions, "name"@);
        lemma_lookup_concat(head0, part0, "name"@);
        lemma_required_lookup::<Vec<CatchAllMatcher>>("matchers"@, v.matchers, "name"@);
        lemma_lookup_concat(head1, part1, "name"@);
        lemma_optional_lookup::<bool>("enabled"@, v.enabled, "name"@);
        lemma_lookup_concat(head2, part2, "name"@);
        lemma_extend(head3, part3);
    }
}

impl UpdateCatchAllRuleParams {
    /// Whether every field is absent, empty or at its default.
    pub open spec fn is_default(&self) -> bool {
        &&& self.actions@.len() == 0
        &&& self.matchers@.len() == 0
        &&& self.enabled is None
        &&& self.name is None
    }
}

impl Default for UpdateCatchAllRuleParams {
    fn default() -> (r: UpdateCatchAllRuleParams)
        ensures
            r.is_default(),
    {
        UpdateCatchAllRuleParams {
            actions: Vec::new(),
            matchers: Vec::new(),
            enabled: None,
            name: None,
        }
    }
}

} // verus!
