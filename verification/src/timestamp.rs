//! Instants of creation, as the remote store's `backup_time` column spells
//! them (RFC 3339) and as the engine compares them (seconds and nanoseconds
//! since the Unix epoch).

use vstd::prelude::*;

verus! {

/// An instant in UTC: whole non-leap seconds since 1970-01-01T00:00:00Z and
/// the nanoseconds past that second.
#[derive(Clone, Copy, Debug, PartialEq, Eq, Structural)]
pub struct Timestamp {
    pub secs: i64,
    pub nanos: u32,
}

/// The instant that an RFC 3339 text denotes, as `chrono` reads it: seconds
/// and subsecond nanoseconds, or `None` where `chrono` rejects the text.
pub uninterp spec fn rfc3339_instant(text: Seq<char>) -> Option<(i64, u32)>;

/// The RFC 3339 text that `chrono` writes for an instant, or `None` where the
/// instant lies outside the dates `chrono` can represent.
pub uninterp spec fn rfc3339_text(secs: i64, nanos: u32) -> Option<Seq<char>>;

impl Timestamp {
    /// `self` is strictly earlier than `other`.
    pub open spec fn before(self, other: Timestamp) -> bool {
        self.secs < other.secs || (self.secs == other.secs && self.nanos < other.nanos)
    }

    /// Whether `self` is strictly earlier than `other`.
    pub fn is_before(&self, other: &Timestamp) -> (r: bool)
        ensures
            r == self.before(*other),
    {
        self.secs < other.secs || (self.secs == other.secs && self.nanos < other.nanos)
    }

    /// Reads an RFC 3339 text such as `2023-08-12T10:11:12.5+00:00`.
    ///
    /// Trusted: calls `chrono`'s `FromStr` for `DateTime<Utc>` and takes the
    /// result apart with `timestamp` and `timestamp_subsec_nanos`. The
    /// contract only names what `chrono` returns.
    #[verifier::external_body]
    pub(crate) fn parse_rfc3339(text: &str) -> (r: Option<Timestamp>)
        ensures
            r == (match rfc3339_instant(text@) {
                Some(p) => Some(Timestamp { secs: p.0, nanos: p.1 }),
                None => None,
            }),
    {
        match text.parse::<chrono::DateTime<chrono::Utc>>() {
            Ok(d) => Some(Timestamp { secs: d.timestamp(), nanos: d.timestamp_subsec_nanos() }),
            Err(_) => None,
        }
    }

    /// Writes the instant as RFC 3339 text.
    ///
    /// Trusted: calls `chrono`'s `DateTime::from_timestamp` and
    /// `DateTime::to_rfc3339`. The contract only names what `chrono` returns.
    #[verifier::external_body]
    pub(crate) fn format_rfc3339(&self) -> (r: Option<String>)
        ensures
            r.is_some() == rfc3339_text(self.secs, self.nanos).is_some(),
            r.is_some() ==> r.unwrap()@ == rfc3339_text(self.secs, self.nanos).unwrap(),
    {
        match chrono::DateTime::from_timestamp(self.secs, self.nanos) {
            Some(d) => Some(d.to_rfc3339()),
            None => None,
        }
    }

    /// The current instant.
    ///
    /// Trusted: calls `chrono`'s `Utc::now`. Nothing is claimed of the result.
    #[verifier::external_body]
    pub(crate) fn now() -> Timestamp {
        let d = chrono::Utc::now();
        Timestamp { secs: d.timestamp(), nanos: d.timestamp_subsec_nanos() }
    }
}

} // verus!
