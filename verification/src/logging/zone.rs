use vstd::prelude::*;

use chrono::Offset as _;
use chrono::TimeZone as _;

verus! {

/// An IANA time zone compiled into chrono-tz.
#[verifier::external_type_specification]
#[verifier::external_body]
pub struct ExTz(chrono_tz::Tz);

/// What a zone maps one UTC instant to, as offsets east of UTC in whole seconds.
#[derive(Clone, Copy, Debug, PartialEq, Eq, Structural)]
pub enum LocalOffsets {
    /// The instant lies outside the range of dates that chrono represents.
    Unmapped,
    /// The instant has exactly one local offset.
    Single(i32),
    /// The instant has two local offsets, the earlier first.
    Ambiguous(i32, i32),
}

/// Whether chrono-tz's compiled IANA database holds a zone of exactly this name.
pub uninterp spec fn iana_zone_known(name: Seq<char>) -> bool;

/// Earliest whole second since the Unix epoch that chrono represents
/// (`DateTime::<Utc>::MIN_UTC`, the start of year -262143).
pub const CHRONO_MIN_TIMESTAMP: i64 = -8_334_601_228_800;

/// Latest whole second since the Unix epoch that chrono represents
/// (`DateTime::<Utc>::MAX_UTC`, the end of year 262142).
pub const CHRONO_MAX_TIMESTAMP: i64 = 8_210_266_876_799;

/// Whether `chrono::DateTime::from_timestamp` accepts this many whole seconds
/// since the Unix epoch (with a sub-second part below one second), i.e. whether
/// the instant lies within chrono's date range.
pub open spec fn chrono_timestamp_in_range(timestamp: i64) -> bool {
    CHRONO_MIN_TIMESTAMP <= timestamp <= CHRONO_MAX_TIMESTAMP
}

/// What chrono-tz maps the UTC instant `timestamp` (whole seconds since the Unix
/// epoch) to in the zone called `name`.
pub uninterp spec fn zone_local_offsets(name: Seq<char>, timestamp: i64) -> LocalOffsets;

/// A time zone resolved from the IANA database, together with the name it was
/// resolved from. Only the functions of this module build one.
pub struct Zone {
    zone: chrono_tz::Tz,
    name: String,
}

impl View for Zone {
    type V = Seq<char>;

    /// The IANA name of the zone.
    closed spec fn view(&self) -> Seq<char> {
        self.name@
    }
}

impl Zone {
    /// Returns the IANA name of the zone.
    pub fn name(&self) -> (s: &str)
        ensures
            s@ == self@,
    {
        self.name.as_str()
    }
}

/// Looks a zone up with `<chrono_tz::Tz as FromStr>::from_str`, which succeeds
/// exactly when the compiled database holds a zone of that exact name; the zone
/// found keeps the name it was looked up by.
#[verifier::external_body]
pub(crate) fn parse_zone(name: &str) -> (r: Option<Zone>)
    ensures
        r is Some <==> iana_zone_known(name@),
        r matches Some(zone) ==> zone@ == name@,
{
    match name.parse::<chrono_tz::Tz>() {
        Ok(zone) => Some(Zone { zone, name: name.to_string() }),
        Err(_) => None,
    }
}

/// Returns `chrono_tz::UTC`, the zone that the database lists under the name "UTC".
#[verifier::external_body]
pub(crate) fn utc_zone() -> (r: Zone)
    ensures
        r@ == "UTC"@,
        iana_zone_known(r@),
{
    Zone { zone: chrono_tz::UTC, name: "UTC".to_string() }
}

/// Maps one UTC instant into the zone with `chrono::TimeZone::timestamp_opt`
/// (zero nanoseconds) and reads each resulting offset with
/// `chrono::Offset::fix` and `FixedOffset::local_minus_utc`. `timestamp_opt`
/// builds the instant with `DateTime::from_timestamp` and maps it to a single
/// local time whenever that succeeds, and to none otherwise. Every offset is a
/// chrono `FixedOffset`, which lies strictly within one day; the UTC zone's
/// offset is always zero.
#[verifier::external_body]
pub(crate) fn zone_offsets_at(zone: &Zone, timestamp: i64) -> (r: LocalOffsets)
    ensures
        r == zone_local_offsets(zone@, timestamp),
        !(r is Ambiguous),
        r is Single <==> chrono_timestamp_in_range(timestamp),
        r matches LocalOffsets::Single(seconds) ==> -86_400 < seconds < 86_400,
        zone@ == "UTC"@ ==> (r is Unmapped || r == LocalOffsets::Single(0)),
{
    match zone.zone.timestamp_opt(timestamp, 0) {
        chrono::MappedLocalTime::Single(local) => LocalOffsets::Single(
            local.offset().fix().local_minus_utc(),
        ),
        chrono::MappedLocalTime::Ambiguous(earliest, latest) => LocalOffsets::Ambiguous(
            earliest.offset().fix().local_minus_utc(),
            latest.offset().fix().local_minus_utc(),
        ),
        chrono::MappedLocalTime::None => LocalOffsets::Unmapped,
    }
}

} // verus!
