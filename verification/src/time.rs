use vstd::prelude::*;
use crate::framework::decode::{ApiResult, DecodeError, DecodeErrorView, Kind};
use crate::json::{Json, JsonView};

verus! {

/// An instant: the seconds since 1970-01-01T00:00:00Z, leap seconds not counted, and
/// the nanoseconds since the last full second.
#[derive(Clone, Copy, Debug, PartialEq, Eq, Structural)]
pub struct Timestamp {
    pub seconds: i64,
    pub nanoseconds: u32,
}

/// The instant that chrono reads from a text as a `DateTime<Utc>`, as the results of
/// its `timestamp` and `timestamp_subsec_nanos`; none where chrono refuses the text.
pub uninterp spec fn timestamp_of(text: Seq<char>) -> Option<(i64, u32)>;

/// Parses a text with chrono's `FromStr` for `DateTime<Utc>`, which takes RFC 3339
/// with a space or a `T` between date and time, and hands out the instant's
/// `timestamp` and `timestamp_subsec_nanos`. The contract only gives the outcome its
/// name, `timestamp_of`.
#[verifier::external_body]
fn parse_timestamp(text: &str) -> (r: Option<Timestamp>)
    ensures
        timestamp_of(text@) == (match r {
            Some(t) => Some((t.seconds, t.nanoseconds)),
            None => None,
        }),
{
    match text.parse::<chrono::DateTime<chrono::Utc>>() {
        Ok(d) => Some(
            Timestamp { seconds: d.timestamp(), nanoseconds: d.timestamp_subsec_nanos() },
        ),
        Err(_) => None,
    }
}

/// The outcome of decoding a text member once the text has been parsed.
pub fn timestamp_or_error(parsed: Option<Timestamp>) -> (r: Result<Timestamp, DecodeError>)
    ensures
        match parsed {
            Some(t) => r == Ok::<Timestamp, DecodeError>(t),
            None => r matches Err(e) && e@ == DecodeErrorView::InvalidType(Kind::Timestamp),
        },
{
    match parsed {
        Some(t) => Ok(t),
        None => Err(DecodeError::InvalidType(Kind::Timestamp)),
    }
}

impl ApiResult for Timestamp {
    open spec fn rejection(j: JsonView) -> Option<DecodeErrorView> {
        match j {
            JsonView::Text(t) if timestamp_of(t) is Some => None,
            _ => Some(DecodeErrorView::InvalidType(Kind::Timestamp)),
        }
    }

    open spec fn decodes(j: JsonView, v: Self) -> bool {
        match j {
            JsonView::Text(t) => timestamp_of(t) == Some((v.seconds, v.nanoseconds)),
            _ => false,
        }
    }

    fn from_json(j: &Json) -> (r: Result<Self, DecodeError>) {
        match j {
            Json::Text(t) => timestamp_or_error(parse_timestamp(t.as_str())),
            _ => Err(DecodeError::InvalidType(Kind::Timestamp)),
        }
    }
}

} // verus!
