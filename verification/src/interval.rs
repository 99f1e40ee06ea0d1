//! Lengths of time as whole seconds plus a sub-second part in nanoseconds, and
//! the reading of human-friendly duration texts such as `360s` or `1h 30m`.

use serde::de::value::StrDeserializer;
use serde::de::IntoDeserializer;
use std::time::Duration;
use vstd::prelude::*;

verus! {

#[verifier::external_type_specification]
#[verifier::external_body]
pub struct ExDeserializeError(serde::de::value::Error);

/// What the humanized duration reader makes of a text: the span it stands
/// for, or nothing where the reader refuses the text.
pub uninterp spec fn humanized_interval(text: Seq<char>) -> Option<Interval>;

/// Reads a human-friendly duration through `serde_humanize_rs::deserialize`.
///
/// Trusted: the reader's answer depends on the text alone, so it is
/// `humanized_interval(text@)`, and a span that it returns comes out of a
/// `std::time::Duration`, whose sub-second part is below one second.
#[verifier::external_body]
pub(crate) fn read_humanized(text: &str) -> (res: Result<Interval, serde::de::value::Error>)
    ensures
        match res {
            Ok(span) => humanized_interval(text@) == Some(span) && span.well_formed(),
            Err(_) => humanized_interval(text@) is None,
        },
{
    let source: StrDeserializer<serde::de::value::Error> = text.into_deserializer();
    let span: Duration = serde_humanize_rs::deserialize(source)?;
    Ok(Interval { secs: span.as_secs(), nanos: span.subsec_nanos() })
}

/// Nanoseconds in one second.
pub const NANOS_PER_SEC: u32 = 1_000_000_000;

/// A span of time: `secs` whole seconds and `nanos` further nanoseconds.
#[derive(Clone, Copy, Debug, PartialEq, Eq, Structural)]
pub struct Interval {
    pub secs: u64,
    pub nanos: u32,
}

impl Interval {
    /// The sub-second part stays below one second.
    pub open spec fn well_formed(self) -> bool {
        self.nanos < NANOS_PER_SEC
    }

    /// A span holds no time at all when both parts are zero.
    pub open spec fn spec_is_zero(self) -> bool {
        self.secs == 0 && self.nanos == 0
    }

    /// A span of `secs` whole seconds.
    pub fn from_secs(secs: u64) -> (res: Interval)
        ensures
            res == (Interval { secs, nanos: 0 }),
            res.well_formed(),
    {
        Interval { secs, nanos: 0 }
    }

    /// Reads a human-friendly duration such as `360s`, `5m` or `1h 30m`.
    ///
    /// The result is the span that the reader finds in `text`, and `None`
    /// exactly where the reader refuses it.
    pub fn parse(text: &str) -> (res: Option<Interval>)
        ensures
            res == humanized_interval(text@),
            res matches Some(span) ==> span.well_formed(),
    {
        match read_humanized(text) {
            Ok(span) => Some(span),
            Err(_) => None,
        }
    }

    /// Whether the span holds no time at all.
    #[verifier::when_used_as_spec(spec_is_zero)]
    pub fn is_zero(self) -> (res: bool)
        ensures
            res == self.spec_is_zero(),
    {
        self.secs == 0 && self.nanos == 0
    }
}

} // verus!
