use vstd::prelude::*;
use vstd::string::*;
use crate::framework::decode::{
    object_rejection, optional, optional_decodes, optional_rejection, require_object, then,
    ApiResult, DecodeError, DecodeErrorView, Kind,
};
use crate::json::{member, Json, JsonView, Number};
use crate::syntax::{parse_json, parsed};

verus! {

/// The code of a reported error: a number or a text.
#[derive(Debug, PartialEq, Eq)]
pub enum ErrorCode {
    Number(Number),
    Text(String),
}

impl ApiResult for ErrorCode {
    open spec fn rejection(j: JsonView) -> Option<DecodeErrorView> {
        if j is Number || j is Text {
            None
        } else {
            Some(DecodeErrorView::InvalidType(Kind::Number))
        }
    }

    open spec fn decodes(j: JsonView, v: Self) -> bool {
        match v {
            ErrorCode::Number(n) => j == JsonView::Number(n@),
            ErrorCode::Text(t) => j == JsonView::Text(t@),
        }
    }

    fn from_json(j: &Json) -> (r: Result<Self, DecodeError>) {
        match j {
            Json::Number(Number::PosInt(n)) => Ok(ErrorCode::Number(Number::PosInt(*n))),
            Json::Number(Number::NegInt(n)) => Ok(ErrorCode::Number(Number::NegInt(*n))),
            Json::Number(Number::Real(t)) => Ok(ErrorCode::Number(Number::Real(t.clone()))),
            Json::Text(t) => Ok(ErrorCode::Text(t.clone())),
            _ => Err(DecodeError::InvalidType(Kind::Number)),
        }
    }
}

/// One entry of an envelope's `errors` or `messages`.
#[derive(Debug, PartialEq, Eq)]
pub struct ApiError {
    pub code: Option<ErrorCode>,
    pub message: Option<String>,
}

impl ApiResult for ApiError {
    open spec fn rejection(j: JsonView) -> Option<DecodeErrorView> {
        let e = object_rejection(j);
        let e = then(e, optional_rejection::<ErrorCode>(j, "code"@));
        let e = then(e, optional_rejection::<String>(j, "message"@));
        e
    }

    open spec fn decodes(j: JsonView, v: Self) -> bool {
        &&& optional_decodes::<ErrorCode>(j, "code"@, v.code)
        &&& optional_decodes::<String>(j, "message"@, v.message)
    }

    fn from_json(j: &Json) -> (r: Result<Self, DecodeError>) {
        match require_object(j) {
            Ok(_) => {},
            Err(e) => {
                return Err(e);
            },
        }
        let code = match optional::<ErrorCode>(j, "code") {
            Ok(v) => v,
            Err(e) => {
                return Err(e);
            },
        };
        let message = match optional::<String>(j, "message") {
            Ok(v) => v,
            Err(e) => {
                return Err(e);
            },
        };
        Ok(ApiError { code, message })
    }
}

/// The pagination that an envelope's `result_info` describes.
#[derive(Debug, PartialEq, Eq)]
pub struct ResultInfo {
    pub page: Option<u64>,
    pub per_page: Option<u64>,
    pub total_pages: Option<u64>,
    pub count: Option<u64>,
    pub total_count: Option<u64>,
}

impl ApiResult for ResultInfo {
    open spec fn rejection(j: JsonView) -> Option<DecodeErrorView> {
        let e = object_rejection(j);
        let e = then(e, optional_rejection::<u64>(j, "page"@));
        let e = then(e, optional_rejection::<u64>(j, "per_page"@));
        let e = then(e, optional_rejection::<u64>(j, "total_pages"@));
        let e = then(e, optional_rejection::<u64>(j, "count"@));
        let e = then(e, optional_rejection::<u64>(j, "total_count"@));
        e
    }

    open spec fn decodes(j: JsonView, v: Self) -> bool {
        &&& optional_decodes::<u64>(j, "page"@, v.page)
        &&& optional_decodes::<u64>(j, "per_page"@, v.per_page)
        &&& optional_decodes::<u64>(j, "total_pages"@, v.total_pages)
        &&& optional_decodes::<u64>(j, "count"@, v.count)
        &&& optional_decodes::<u64>(j, "total_count"@, v.total_count)
    }

    fn from_json(j: &Json) -> (r: Result<Self, DecodeError>) {
        match require_object(j) {
            Ok(_) => {},
            Err(e) => {
                return Err(e);
            },
        }
        let page = match optional::<u64>(j, "page") {
            Ok(v) => v,
            Err(e) => {
                return Err(e);
            },
        };
        let per_page = match optional::<u64>(j, "per_page") {
            Ok(v) => v,
            Err(e) => {
                return Err(e);
            },
        };
        let total_pages = match optional::<u64>(j, "total_pages") {
            Ok(v) => v,
            Err(e) => {
                return Err(e);
            },
        };
        let count = match optional::<u64>(j, "count") {
            Ok(v) => v,
            Err(e) => {
                return Err(e);
            },
        };
        let total_count = match optional::<u64>(j, "total_count") {
            Ok(v) => v,
            Err(e) => {
                return Err(e);
            },
        };
        Ok(ResultInfo { page, per_page, total_pages, count, total_count })
    }
}

/// What a successful call hands back: the payload, and what the envelope says
/// beside it.
#[derive(Debug, PartialEq, Eq)]
pub struct ApiSuccess<T> {
    pub result: T,
    pub result_info: Option<Json>,
    pub messages: Vec<ApiError>,
    pub errors: Vec<ApiError>,
}

impl<T> ApiSuccess<T> {
    /// The pagination that `result_info` describes; none where the envelope has no
    /// `result_info` or where it is no pagination.
    pub fn pagination(&self) -> (r: Option<ResultInfo>)
        ensures
            match self.result_info {
                None => r is None,
                Some(info) => match r {
                    Some(p) => ResultInfo::rejection(info@) is None && ResultInfo::decodes(
                        info@,
                        p,
                    ),
                    None => ResultInfo::rejection(info@) is Some,
                },
            },
    {
        match &self.result_info {
            None => None,
            Some(info) => match ResultInfo::from_json(info) {
                Ok(p) => Some(p),
                Err(_) => None,
            },
        }
    }
}

/// What the server reports of a call that it refused: every error, in the order of
/// the envelope, and the messages beside them.
#[derive(Debug, PartialEq, Eq)]
pub struct ApiErrors {
    pub errors: Vec<ApiError>,
    pub messages: Vec<ApiError>,
}

/// Why a response is no envelope.
#[derive(Debug, PartialEq, Eq)]
pub enum EnvelopeError {
    /// The bytes are no JSON text; holds the parser's message.
    Syntax(String),
    /// The JSON value is no object.
    NotAnObject,
    /// The object has no boolean member `success`.
    MissingSuccess,
    /// The member `messages` is no list of entries.
    Messages(DecodeError),
    /// The member `errors` is no list of entries.
    Errors(DecodeError),
    /// The call is reported as failed, and no error is listed.
    NoErrors,
}

pub enum EnvelopeErrorView {
    Syntax(Seq<char>),
    NotAnObject,
    MissingSuccess,
    Messages(DecodeErrorView),
    Errors(DecodeErrorView),
    NoErrors,
}

impl View for EnvelopeError {
    type V = EnvelopeErrorView;

    open spec fn view(&self) -> EnvelopeErrorView {
        match self {
            EnvelopeError::Syntax(m) => EnvelopeErrorView::Syntax(m@),
            EnvelopeError::NotAnObject => EnvelopeErrorView::NotAnObject,
            EnvelopeError::MissingSuccess => EnvelopeErrorView::MissingSuccess,
            EnvelopeError::Messages(e) => EnvelopeErrorView::Messages(e@),
            EnvelopeError::Errors(e) => EnvelopeErrorView::Errors(e@),
            EnvelopeError::NoErrors => EnvelopeErrorView::NoErrors,
        }
    }
}

/// Why a call gave no payload.
#[derive(Debug, PartialEq, Eq)]
pub enum ApiFailure {
    /// The exchange itself failed; holds what the transport said.
    Transport(String),
    /// The response is no envelope.
    Invalid(EnvelopeError),
    /// The envelope reports success, and its `result` is not of the expected type.
    Payload(DecodeError),
    /// The envelope reports failure.
    Error(ApiErrors),
}

/// The four ways in which a response is read.
#[derive(Clone, Copy, Debug, PartialEq, Eq, Structural)]
pub enum Outcome {
    Success,
    ApplicationFailure,
    MalformedEnvelope,
    MalformedPayload,
}

/// The envelope's `success`, where it is a boolean.
pub open spec fn success_flag(j: JsonView) -> Option<bool> {
    match member(j, "success"@) {
        Some(JsonView::Bool(b)) => Some(b),
        _ => None,
    }
}

/// The envelope's `result`; null where it has none.
pub open spec fn payload(j: JsonView) -> JsonView {
    match member(j, "result"@) {
        Some(x) => x,
        None => JsonView::Null,
    }
}

/// Why the member `key` is no list of entries; a missing or null member is the empty
/// list.
pub open spec fn notes_rejection(j: JsonView, key: Seq<char>) -> Option<DecodeErrorView> {
    optional_rejection::<Vec<ApiError>>(j, key)
}

/// Whether `v` holds the entries of the member `key`, in their order.
pub open spec fn notes_are(j: JsonView, key: Seq<char>, v: Vec<ApiError>) -> bool {
    match member(j, key) {
        None => v@.len() == 0,
        Some(JsonView::Null) => v@.len() == 0,
        Some(x) => Vec::<ApiError>::decodes(x, v),
    }
}

/// The number of entries of the member `key`.
pub open spec fn notes_len(j: JsonView, key: Seq<char>) -> nat {
    match member(j, key) {
        Some(JsonView::List(items)) => items.len(),
        _ => 0,
    }
}

/// Why `j` is no envelope; none where it is one.
pub open spec fn envelope_rejection(j: JsonView) -> Option<EnvelopeErrorView> {
    if !(j is Object) {
        Some(EnvelopeErrorView::NotAnObject)
    } else if success_flag(j) is None {
        Some(EnvelopeErrorView::MissingSuccess)
    } else if notes_rejection(j, "messages"@) is Some {
        Some(EnvelopeErrorView::Messages(notes_rejection(j, "messages"@).unwrap()))
    } else if notes_rejection(j, "errors"@) is Some {
        Some(EnvelopeErrorView::Errors(notes_rejection(j, "errors"@).unwrap()))
    } else if success_flag(j) == Some(false) && notes_len(j, "errors"@) == 0 {
        Some(EnvelopeErrorView::NoErrors)
    } else {
        None
    }
}

/// How the outcome of parsing a response is read when the payload is a `T`.
pub open spec fn outcome<T: ApiResult>(parsing: Result<JsonView, Seq<char>>) -> Outcome {
    match parsing {
        Err(_) => Outcome::MalformedEnvelope,
        Ok(j) => if envelope_rejection(j) is Some {
            Outcome::MalformedEnvelope
        } else if success_flag(j) == Some(false) {
            Outcome::ApplicationFailure
        } else if T::rejection(payload(j)) is Some {
            Outcome::MalformedPayload
        } else {
            Outcome::Success
        },
    }
}

/// Whether `s` is what the envelope `j` hands back on success.
pub open spec fn success_is<T: ApiResult>(j: JsonView, s: ApiSuccess<T>) -> bool {
    &&& T::decodes(payload(j), s.result)
    &&& notes_are(j, "messages"@, s.messages)
    &&& notes_are(j, "errors"@, s.errors)
    &&& match member(j, "result_info"@) {
        None => s.result_info is None,
        Some(JsonView::Null) => s.result_info is None,
        Some(x) => s.result_info matches Some(info) && info@ == x,
    }
}

/// Whether `f` is the failure that the outcome of parsing a response stands for.
pub open spec fn failure_is<T: ApiResult>(
    parsing: Result<JsonView, Seq<char>>,
    f: ApiFailure,
) -> bool {
    match parsing {
        Err(message) => f matches ApiFailure::Invalid(EnvelopeError::Syntax(m)) && m@ == message,
        Ok(j) => match envelope_rejection(j) {
            Some(e) => f matches ApiFailure::Invalid(x) && x@ == e,
            None => if success_flag(j) == Some(false) {
                f matches ApiFailure::Error(reported) && notes_are(j, "errors"@, reported.errors)
                    && notes_are(j, "messages"@, reported.messages) && reported.errors@.len() > 0
            } else {
                f matches ApiFailure::Payload(e) && T::rejection(payload(j)) == Some(e@)
            },
        },
    }
}

fn notes(j: &Json, key: &str) -> (r: Result<Vec<ApiError>, DecodeError>)
    ensures
        match r {
            Ok(v) => notes_rejection(j@, key@) is None && notes_are(j@, key@, v) && v@.len()
                == notes_len(j@, key@),
            Err(e) => notes_rejection(j@, key@) == Some(e@),
        },
{
    match optional::<Vec<ApiError>>(j, key) {
        Ok(Some(v)) => Ok(v),
        Ok(None) => Ok(Vec::new()),
        Err(e) => Err(e),
    }
}

/// Reads the outcome of parsing a response as an envelope whose payload is a `T`.
pub fn read_envelope<T: ApiResult>(parsing: Result<Json, String>) -> (r: Result<
    ApiSuccess<T>,
    ApiFailure,
>)
    ensures
        match (parsing, r) {
            (Ok(j), Ok(s)) => outcome::<T>(Ok(j@)) == Outcome::Success && success_is::<T>(j@, s),
            (Ok(j), Err(f)) => outcome::<T>(Ok(j@)) != Outcome::Success && failure_is::<T>(
                Ok(j@),
                f,
            ),
            (Err(m), Ok(s)) => false,
            (Err(m), Err(f)) => failure_is::<T>(Err(m@), f),
        },
{
    let j = match parsing {
        Ok(j) => j,
        Err(m) => {
            return Err(ApiFailure::Invalid(EnvelopeError::Syntax(m)));
        },
    };
    match require_object(&j) {
        Ok(_) => {},
        Err(_) => {
            return Err(ApiFailure::Invalid(EnvelopeError::NotAnObject));
        },
    }
    let success = match j.get("success") {
        Some(Json::Bool(b)) => *b,
        _ => {
            return Err(ApiFailure::Invalid(EnvelopeError::MissingSuccess));
        },
    };
    let messages = match notes(&j, "messages") {
        Ok(v) => v,
        Err(e) => {
            return Err(ApiFailure::Invalid(EnvelopeError::Messages(e)));
        },
    };
    let errors = match notes(&j, "errors") {
        Ok(v) => v,
        Err(e) => {
            return Err(ApiFailure::Invalid(EnvelopeError::Errors(e)));
        },
    };
    if !success {
        if errors.len() == 0 {
            return Err(ApiFailure::Invalid(EnvelopeError::NoErrors));
        }
        return Err(ApiFailure::Error(ApiErrors { errors, messages }));
    }
    let result = match j.get("result") {
        Some(x) => T::from_json(x),
        None => T::from_json(&Json::Null),
    };
    let result = match result {
        Ok(v) => v,
        Err(e) => {
            return Err(ApiFailure::Payload(e));
        },
    };
    let result_info = match j.get("result_info") {
        None => None,
        Some(Json::Null) => None,
        Some(x) => Some(x.duplicate()),
    };
    Ok(ApiSuccess { result, result_info, messages, errors })
}

/// Decodes the bytes of a response whose payload is a `T`.
pub fn decode_response<T: ApiResult>(bytes: &[u8]) -> (r: Result<ApiSuccess<T>, ApiFailure>)
    ensures
        match (parsed(bytes@), r) {
            (Ok(j), Ok(s)) => outcome::<T>(Ok(j)) == Outcome::Success && success_is::<T>(j, s),
            (Ok(j), Err(f)) => outcome::<T>(Ok(j)) != Outcome::Success && failure_is::<T>(Ok(j), f),
            (Err(m), Ok(s)) => false,
            (Err(m), Err(f)) => failure_is::<T>(Err(m), f),
        },
{
    read_envelope::<T>(parse_json(bytes))
}

/// Reads what the transport hands back: its own failure, or the bytes of a response
/// whose payload is a `T`. The status code takes no part.
pub fn read_exchange<T: ApiResult>(exchange: Result<Vec<u8>, String>) -> (r: Result<
    ApiSuccess<T>,
    ApiFailure,
>)
    ensures
        match exchange {
            Err(detail) => r matches Err(ApiFailure::Transport(d)) && d@ == detail@,
            Ok(bytes) => match (parsed(bytes@), r) {
                (Ok(j), Ok(s)) => outcome::<T>(Ok(j)) == Outcome::Success && success_is::<T>(j, s),
                (Ok(j), Err(f)) => outcome::<T>(Ok(j)) != Outcome::Success && failure_is::<T>(
                    Ok(j),
                    f,
                ),
                (Err(m), Ok(s)) => false,
                (Err(m), Err(f)) => failure_is::<T>(Err(m), f),
            },
        },
{
    match exchange {
        Err(detail) => Err(ApiFailure::Transport(detail)),
        Ok(bytes) => decode_response::<T>(bytes.as_slice()),
    }
}

/// Envelopes that differ in nothing but `result_info` are read alike: whether a call
/// counts as a success or as a failure does not depend on that member.
pub proof fn lemma_result_info_is_informational<T: ApiResult>(a: JsonView, b: JsonView)
    requires
        forall|key: Seq<char>| key != "result_info"@ ==> member(a, key) == member(b, key),
    ensures
        outcome::<T>(Ok(a)) == outcome::<T>(Ok(b)),
{
    reveal_strlit("result_info");
    reveal_strlit("success");
    reveal_strlit("result");
    reveal_strlit("errors");
    reveal_strlit("messages");
    assert("result_info"@.len() == 11);
    assert("success"@.len() == 7);
    assert("result"@.len() == 6);
    assert("errors"@.len() == 6);
    assert("messages"@.len() == 8);
    assert(member(a, "success"@) == member(b, "success"@));
    assert(member(a, "result"@) == member(b, "result"@));
    assert(member(a, "errors"@) == member(b, "errors"@));
    assert(member(a, "messages"@) == member(b, "messages"@));
}

} // verus!
