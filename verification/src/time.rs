//! Points in time and lengths of time, as plain numbers.

use crate::json::FromJson;
use crate::json::Json;
use crate::json::JsonValue;
use chrono::DateTime;
use chrono::SecondsFormat;
use chrono::Utc;
use crate::text::number_key;
use crate::text::number_key_of;
use crate::text::unsigned_key_of;
use vstd::prelude::*;
use vstd::string::StringExecFns;

verus! {

/// Whether a date and time in UTC exists that lies `secs` seconds and `nanos`
/// nanoseconds after the start of 1970.
pub uninterp spec fn timestamp_exists(secs: i64, nanos: u32) -> bool;

/// How the date and time at `secs` seconds and `nanos` nanoseconds after the
/// start of 1970 is shown, such as `2015-05-15 00:00:00 UTC`.
pub uninterp spec fn timestamp_display(secs: i64, nanos: u32) -> Seq<char>;

/// How the date and time at `secs` seconds and `nanos` nanoseconds after the
/// start of 1970 is written in RFC 3339, such as `2015-05-15T00:00:00Z`.
pub uninterp spec fn timestamp_rfc3339(secs: i64, nanos: u32) -> Seq<char>;

/// The seconds and nanoseconds after the start of 1970 of the date and time
/// that `text` spells, if it spells one.
pub uninterp spec fn timestamp_reading(text: Seq<char>) -> Option<(i64, u32)>;

/// `DateTime::from_timestamp` gives a date and time for the seconds and
/// nanoseconds for which one exists.
#[verifier::external_body]
fn exists_at(secs: i64, nanos: u32) -> (r: bool)
    ensures
        r == timestamp_exists(secs, nanos),
{
    DateTime::from_timestamp(secs, nanos).is_some()
}

/// `DateTime<Utc>`'s `to_string` shows the date and time made by
/// `DateTime::from_timestamp`.
#[verifier::external_body]
fn shown_at(secs: i64, nanos: u32) -> (r: String)
    requires
        timestamp_exists(secs, nanos),
    ensures
        r@ == timestamp_display(secs, nanos),
{
    DateTime::from_timestamp(secs, nanos).map(|at| at.to_string()).unwrap_or_default()
}

/// `DateTime::to_rfc3339_opts`, with as many fraction digits as are needed
/// and `Z` for the offset, writes the date and time made by
/// `DateTime::from_timestamp`.
#[verifier::external_body]
fn written_at(secs: i64, nanos: u32) -> (r: String)
    requires
        timestamp_exists(secs, nanos),
    ensures
        r@ == timestamp_rfc3339(secs, nanos),
{
    DateTime::from_timestamp(secs, nanos).map(
        |at| at.to_rfc3339_opts(SecondsFormat::AutoSi, true),
    ).unwrap_or_default()
}

/// `DateTime<Utc>`'s `from_str` reads a date and time with an offset, of
/// which `timestamp` and `timestamp_subsec_nanos` give the seconds and
/// nanoseconds; `DateTime::from_timestamp` makes the same date and time of
/// them again.
#[verifier::external_body]
fn read_at(text: &str) -> (r: Option<(i64, u32)>)
    ensures
        r == timestamp_reading(text@),
        r matches Some((secs, nanos)) ==> timestamp_exists(secs, nanos),
{
    text.parse::<DateTime<Utc>>().ok().map(|at| (at.timestamp(), at.timestamp_subsec_nanos()))
}

/// A date and time in UTC.
#[derive(Debug, Clone, Copy, PartialEq, Eq, Structural, PartialOrd, Ord, Hash)]
pub struct Timestamp {
    secs: i64,
    nanos: u32,
}

impl Timestamp {
    #[verifier::type_invariant]
    spec fn is_real(self) -> bool {
        timestamp_exists(self.secs, self.nanos)
    }

    /// The whole seconds since the start of 1970.
    pub closed spec fn spec_secs(self) -> i64 {
        self.secs
    }

    /// The nanoseconds since the last whole second.
    pub closed spec fn spec_nanos(self) -> u32 {
        self.nanos
    }

    /// The date and time at `secs` seconds and `nanos` nanoseconds after the
    /// start of 1970, if there is one.
    pub fn new(secs: i64, nanos: u32) -> (r: Option<Timestamp>)
        ensures
            r is Some <==> timestamp_exists(secs, nanos),
            r matches Some(at) ==> at.spec_secs() == secs && at.spec_nanos() == nanos,
    {
        if exists_at(secs, nanos) {
            Some(Timestamp { secs, nanos })
        } else {
            None
        }
    }

    /// The date and time that `text` spells in RFC 3339, if it spells one.
    pub fn parse(text: &str) -> (r: Option<Timestamp>)
        ensures
            match r {
                Some(at) => timestamp_reading(text@) == Some((at.spec_secs(), at.spec_nanos())),
                None => timestamp_reading(text@) is None,
            },
    {
        match read_at(text) {
            Some((secs, nanos)) => Some(Timestamp { secs, nanos }),
            None => None,
        }
    }

    /// The whole seconds since the start of 1970.
    pub fn secs(&self) -> (r: i64)
        ensures
            r == self.spec_secs(),
    {
        self.secs
    }

    /// The nanoseconds since the last whole second.
    pub fn nanos(&self) -> (r: u32)
        ensures
            r == self.spec_nanos(),
    {
        self.nanos
    }

    /// How the date and time is written into a key: the seconds and then
    /// the nanoseconds.
    pub open spec fn spec_key(self) -> Seq<char> {
        number_key(self.spec_secs() as int) + number_key(self.spec_nanos() as int)
    }

    /// Writes the date and time behind `key` as it stands in a key.
    pub fn feed(&self, key: &mut String)
        ensures
            final(key)@ == old(key)@ + self.spec_key(),
    {
        let mut part = number_key_of(self.secs);
        part.append(unsigned_key_of(self.nanos as u64).as_str());
        key.append(part.as_str());
    }

    /// The date and time as it is shown.
    pub fn to_string(&self) -> (r: String)
        ensures
            r@ == timestamp_display(self.spec_secs(), self.spec_nanos()),
    {
        proof {
            use_type_invariant(self);
        }
        shown_at(self.secs, self.nanos)
    }

    /// The date and time as it is sent to the API, in RFC 3339.
    pub fn to_rfc3339(&self) -> (r: String)
        ensures
            r@ == timestamp_rfc3339(self.spec_secs(), self.spec_nanos()),
    {
        proof {
            use_type_invariant(self);
        }
        written_at(self.secs, self.nanos)
    }
}

/// Whether both hold the same time, or both none.
pub fn same_optional_time(a: &Option<Timestamp>, b: &Option<Timestamp>) -> (r: bool)
    ensures
        r == (*a == *b),
{
    match (a, b) {
        (Some(a), Some(b)) => *a == *b,
        (None, None) => true,
        _ => false,
    }
}

/// How a time that may be missing is written into a key: `-` for none, and
/// `+` with the time behind for one.
pub open spec fn optional_time_key(at: Option<Timestamp>) -> Seq<char> {
    match at {
        Some(at) => "+"@ + at.spec_key(),
        None => "-"@,
    }
}

/// Writes `at` behind `key` as a time that may be missing stands in a key.
pub fn hash_optional_time(at: &Option<Timestamp>, key: &mut String)
    ensures
        final(key)@ == old(key)@ + optional_time_key(*at),
{
    match at {
        Some(at) => {
            let mut part = String::new();
            part.append("+");
            assert(part@ =~= "+"@);
            at.feed(&mut part);
            key.append(part.as_str());
        },
        None => {
            key.append("-");
        },
    }
}

impl FromJson for Timestamp {
    /// A string that spells a date and time.
    open spec fn accepts(doc: Json) -> bool {
        doc matches Json::Text(text) && timestamp_reading(text) is Some
    }

    open spec fn decodes_to(doc: Json, value: Self) -> bool {
        doc matches Json::Text(text) && timestamp_reading(text) == Some(
            (value.spec_secs(), value.spec_nanos()),
        )
    }

    open spec fn spec_expected() -> Seq<char> {
        "Timestamp"@
    }

    fn expected() -> (name: &'static str) {
        "Timestamp"
    }

    fn from_json(doc: &JsonValue) -> (r: Option<Self>) {
        match doc.as_str() {
            Some(text) => Timestamp::parse(text),
            None => None,
        }
    }
}

/// A length of time, in whole seconds.
#[derive(Debug, Clone, Copy, PartialEq, Eq, Structural, PartialOrd, Ord, Hash)]
pub struct Duration {
    /// The whole seconds; below zero for a length that runs backwards.
    pub seconds: i64,
}

impl FromJson for Duration {
    /// A whole number of seconds.
    open spec fn accepts(doc: Json) -> bool {
        doc.as_i64() is Some
    }

    open spec fn decodes_to(doc: Json, value: Self) -> bool {
        doc.as_i64() == Some(value.seconds)
    }

    open spec fn spec_expected() -> Seq<char> {
        "Duration"@
    }

    fn expected() -> (name: &'static str) {
        "Duration"
    }

    fn from_json(doc: &JsonValue) -> (r: Option<Self>) {
        match doc.as_i64() {
            Some(seconds) => Some(Duration { seconds }),
            None => None,
        }
    }
}

} // verus!
