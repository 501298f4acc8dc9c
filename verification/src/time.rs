//! Points in time, as payloads write them.

use crate::wire::{DecodeError, Value, ValueView, Wire};
use vstd::prelude::*;
use vstd::std_specs::cmp::PartialEqSpecImpl;

verus! {

/// The instant that chrono reads out of a date and time written as text: the
/// whole seconds since the start of 1970 in UTC and the nanoseconds after
/// them. `None` where chrono does not accept the text.
pub uninterp spec fn rfc3339_instant(text: Seq<char>) -> Option<(i64, u32)>;

/// Parses a date and time with chrono's `FromStr` for `DateTime<Utc>`, which
/// accepts a relaxed form of RFC 3339 and brings the offset written in the
/// text to UTC. The instant is handed out as `DateTime::timestamp` and
/// `DateTime::timestamp_subsec_nanos` give it. Not proved: that the result
/// depends on the text alone. Nothing else is claimed of it.
#[verifier::external_body]
fn parse_instant(text: &str) -> (r: Option<(i64, u32)>)
    ensures
        r == rfc3339_instant(text@),
{
    match text.parse::<chrono::DateTime<chrono::Utc>>() {
        Ok(t) => Some((t.timestamp(), t.timestamp_subsec_nanos())),
        Err(_) => None,
    }
}

/// A point in time: the text that a payload gave for it, and the instant
/// that the text stands for.
#[derive(Debug)]
pub struct Timestamp {
    text: String,
    seconds: i64,
    nanos: u32,
}

/// The mathematical content of a [`Timestamp`].
pub struct TimestampView {
    pub text: Seq<char>,
    pub seconds: i64,
    pub nanos: u32,
}

impl DeepView for Timestamp {
    type V = TimestampView;

    closed spec fn deep_view(&self) -> TimestampView {
        TimestampView { text: self.text@, seconds: self.seconds, nanos: self.nanos }
    }
}

impl Timestamp {
    #[verifier::type_invariant]
    spec fn well_formed(self) -> bool {
        rfc3339_instant(self.text@) == Some((self.seconds, self.nanos))
    }

    /// Whether `text` is a date and time that can be read.
    pub open spec fn readable(text: Seq<char>) -> bool {
        rfc3339_instant(text) is Some
    }

    /// The point in time that `text` stands for.
    pub open spec fn read(text: Seq<char>) -> TimestampView {
        TimestampView {
            text,
            seconds: rfc3339_instant(text)->Some_0.0,
            nanos: rfc3339_instant(text)->Some_0.1,
        }
    }

    /// The point in time that `text` stands for, given what reading the
    /// text came to: none where the reading gave no instant.
    pub fn from_reading(text: String, reading: Option<(i64, u32)>) -> (r: Option<Timestamp>)
        requires
            reading == rfc3339_instant(text@),
        ensures
            r is Some <==> reading is Some,
            r matches Some(t) ==> t.deep_view() == (TimestampView {
                text: text@,
                seconds: reading->Some_0.0,
                nanos: reading->Some_0.1,
            }),
    {
        match reading {
            Some((seconds, nanos)) => Some(Timestamp { text, seconds, nanos }),
            None => None,
        }
    }

    /// Reads a date and time; `None` where the text is not one.
    pub fn parse(text: &str) -> (r: Option<Timestamp>)
        ensures
            r is Some <==> Self::readable(text@),
            r matches Some(t) ==> t.deep_view() == Self::read(text@),
    {
        let reading = parse_instant(text);
        Timestamp::from_reading(text.to_owned(), reading)
    }

    /// The text that the point in time was read from.
    pub fn as_str(&self) -> (s: &str)
        ensures
            s@ == self.deep_view().text,
            Self::readable(s@),
            self.deep_view() == Self::read(s@),
    {
        proof {
            use_type_invariant(self);
        }
        self.text.as_str()
    }

    /// Whole seconds since the start of 1970 in UTC.
    pub fn seconds(&self) -> (s: i64)
        ensures
            s == self.deep_view().seconds,
    {
        self.seconds
    }

    /// Nanoseconds since the last whole second.
    pub fn nanos(&self) -> (n: u32)
        ensures
            n == self.deep_view().nanos,
    {
        self.nanos
    }
}

impl Clone for Timestamp {
    fn clone(&self) -> (r: Timestamp)
        ensures
            r.deep_view() == self.deep_view(),
    {
        proof {
            use_type_invariant(self);
        }
        Timestamp { text: self.text.clone(), seconds: self.seconds, nanos: self.nanos }
    }
}

impl PartialEq for Timestamp {
    /// Two points in time are equal when they are the same instant, however
    /// each was written.
    fn eq(&self, other: &Timestamp) -> (r: bool) {
        self.seconds == other.seconds && self.nanos == other.nanos
    }
}

impl Eq for Timestamp {

}

impl PartialEqSpecImpl for Timestamp {
    open spec fn obeys_eq_spec() -> bool {
        true
    }

    open spec fn eq_spec(&self, other: &Timestamp) -> bool {
        self.deep_view().seconds == other.deep_view().seconds && self.deep_view().nanos
            == other.deep_view().nanos
    }
}

impl Wire for Timestamp {
    open spec fn valid(m: TimestampView) -> bool {
        Timestamp::readable(m.text) && m == Timestamp::read(m.text)
    }

    open spec fn encoded(m: TimestampView) -> ValueView {
        ValueView::Text(m.text)
    }

    open spec fn decoded(v: ValueView) -> Result<TimestampView, DecodeError> {
        match v {
            ValueView::Text(text) => if Timestamp::readable(text) {
                Ok(Timestamp::read(text))
            } else {
                Err(DecodeError::InvalidTimestamp)
            },
            _ => Err(DecodeError::ExpectedText),
        }
    }

    fn encode(&self) -> (v: Value) {
        proof {
            use_type_invariant(self);
        }
        Value::Text(self.text.clone())
    }

    fn decode(v: &Value) -> (r: Result<Timestamp, DecodeError>) {
        match v {
            Value::Text(text) => match Timestamp::parse(text.as_str()) {
                Some(t) => Ok(t),
                None => Err(DecodeError::InvalidTimestamp),
            },
            _ => Err(DecodeError::ExpectedText),
        }
    }

    proof fn round_trip(m: TimestampView) {
    }
}

} // verus!
