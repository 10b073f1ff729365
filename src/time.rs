use vstd::prelude::*;
use crate::json::Json;

verus! {

/// The instant that chrono reads from a text carrying a UTC offset, as Unix
/// seconds and nanoseconds.
pub uninterp spec fn offset_instant_of(s: Seq<char>) -> Option<(int, int)>;

/// The instant that chrono reads from a text without an offset, taking its
/// wall-clock time as UTC.
pub uninterp spec fn naive_utc_instant_of(s: Seq<char>) -> Option<(int, int)>;

/// The RFC 3339 text, in UTC with `Z`, that chrono writes for an instant.
pub uninterp spec fn rfc3339_text_of(t: (int, int)) -> Option<Seq<char>>;

/// The instant read from a timestamp text that may lack its offset: read
/// with the offset when it has one, else read as UTC wall-clock time.
pub open spec fn lenient_instant_of(s: Seq<char>) -> Option<(int, int)> {
    if offset_instant_of(s) is Some {
        offset_instant_of(s)
    } else {
        naive_utc_instant_of(s)
    }
}

/// A UTC instant: whole seconds since the Unix epoch and the nanoseconds
/// past them (a leap second carries them past one billion).
#[derive(Clone, Copy, Debug, PartialEq, Eq)]
pub struct Timestamp {
    secs: i64,
    nanos: u32,
}

impl View for Timestamp {
    type V = (int, int);

    closed spec fn view(&self) -> (int, int) {
        (self.secs as int, self.nanos as int)
    }
}

/// The instants held by an optional timestamp.
pub open spec fn opt_instant(t: Option<Timestamp>) -> Option<(int, int)> {
    match t {
        Some(t) => Some(t@),
        None => None,
    }
}

/// Relies on chrono's `FromStr for DateTime<Utc>` (a relaxed RFC 3339 reading
/// that needs an offset), read back with `timestamp` and
/// `timestamp_subsec_nanos`, which chrono documents to round-trip with
/// `DateTime::from_timestamp`.
#[verifier::external_body]
fn parse_with_offset(s: &str) -> (r: Option<Timestamp>)
    ensures
        opt_instant(r) == offset_instant_of(s@),
        r matches Some(t) ==> rfc3339_text_of(t@) is Some,
{
    match s.parse::<chrono::DateTime<chrono::Utc>>() {
        Ok(d) => Some(Timestamp { secs: d.timestamp(), nanos: d.timestamp_subsec_nanos() }),
        Err(_) => None,
    }
}

/// Relies on chrono's `FromStr for NaiveDateTime`, with `and_utc` taking the
/// wall-clock time as UTC, read back as in `parse_with_offset`.
#[verifier::external_body]
fn parse_without_offset(s: &str) -> (r: Option<Timestamp>)
    ensures
        opt_instant(r) == naive_utc_instant_of(s@),
        r matches Some(t) ==> rfc3339_text_of(t@) is Some,
{
    match s.parse::<chrono::NaiveDateTime>() {
        Ok(n) => {
            let d = n.and_utc();
            Some(Timestamp { secs: d.timestamp(), nanos: d.timestamp_subsec_nanos() })
        },
        Err(_) => None,
    }
}

/// Relies on chrono's `DateTime::from_timestamp` and
/// `to_rfc3339_opts(SecondsFormat::AutoSi, true)`, the form chrono's serde
/// support writes.
#[verifier::external_body]
fn format_instant(secs: i64, nanos: u32) -> (r: Option<String>)
    ensures
        match r {
            Some(s) => rfc3339_text_of((secs as int, nanos as int)) == Some(s@),
            None => rfc3339_text_of((secs as int, nanos as int)) is None,
        },
{
    match chrono::DateTime::from_timestamp(secs, nanos) {
        Some(d) => Some(d.to_rfc3339_opts(chrono::SecondsFormat::AutoSi, true)),
        None => None,
    }
}

impl Timestamp {
    #[verifier::type_invariant]
    spec fn representable(self) -> bool {
        rfc3339_text_of(self@) is Some
    }

    /// The instant `secs` seconds and `nanos` nanoseconds after the Unix
    /// epoch, when chrono can represent it.
    pub fn from_unix(secs: i64, nanos: u32) -> (r: Option<Timestamp>)
        ensures
            r is Some <==> rfc3339_text_of((secs as int, nanos as int)) is Some,
            r matches Some(t) ==> t@ == (secs as int, nanos as int),
    {
        match format_instant(secs, nanos) {
            Some(_) => Some(Timestamp { secs, nanos }),
            None => None,
        }
    }

    pub fn unix_seconds(&self) -> (r: i64)
        ensures
            r as int == self@.0,
    {
        self.secs
    }

    pub fn subsec_nanos(&self) -> (r: u32)
        ensures
            r as int == self@.1,
    {
        self.nanos
    }

    /// Reads a timestamp that must carry its offset.
    pub fn parse(s: &str) -> (r: Option<Timestamp>)
        ensures
            opt_instant(r) == offset_instant_of(s@),
    {
        parse_with_offset(s)
    }

    /// Reads a timestamp whose offset may be missing; without one, the
    /// wall-clock time is taken as UTC.
    pub fn parse_lenient(s: &str) -> (r: Option<Timestamp>)
        ensures
            opt_instant(r) == lenient_instant_of(s@),
    {
        let with_offset = parse_with_offset(s);
        if with_offset.is_some() {
            with_offset
        } else {
            parse_without_offset(s)
        }
    }

    /// The RFC 3339 text of this instant, in UTC.
    pub fn to_rfc3339(&self) -> (r: String)
        ensures
            rfc3339_text_of(self@) == Some(r@),
    {
        proof {
            use_type_invariant(self);
        }
        match format_instant(self.secs, self.nanos) {
            Some(s) => s,
            None => {
                assert(false);
                String::new()
            },
        }
    }

    /// The JSON string of this instant.
    pub fn to_json(&self) -> (r: Json)
        ensures
            is_instant(r, self@),
    {
        Json::Str(self.to_rfc3339())
    }
}

/// `j` is the JSON string of the instant `t`.
pub open spec fn is_instant(j: Json, t: (int, int)) -> bool {
    j matches Json::Str(s) && rfc3339_text_of(t) == Some(s@)
}

/// `j` is `null` when `t` is absent, else the JSON string of `t`.
pub open spec fn is_opt_instant(j: Json, t: Option<(int, int)>) -> bool {
    match t {
        None => j is Null,
        Some(t) => is_instant(j, t),
    }
}

/// A timestamp text without an offset is read as the same wall-clock time in
/// UTC; one with an offset is read with it.
pub proof fn lemma_offset_free_text_is_utc(s: Seq<char>)
    ensures
        offset_instant_of(s) is None ==> lenient_instant_of(s) == naive_utc_instant_of(s),
        offset_instant_of(s) is Some ==> lenient_instant_of(s) == offset_instant_of(s),
{
}

} // verus!
