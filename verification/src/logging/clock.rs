use vstd::prelude::*;

use crate::logging::zone::{
    chrono_timestamp_in_range, iana_zone_known, parse_zone, utc_zone, zone_local_offsets,
    zone_offsets_at, LocalOffsets, Zone,
};
use crate::os_clock::{duration_as_secs, duration_subsec_nanos, elapsed_since_unix_epoch, system_time_now};

verus! {

/// Environment variable that names the application's time zone.
pub const APP_TIMEZONE_VAR: &'static str = "DASHBOARD_TIMEZONE";

/// Environment variable that names the system's time zone.
pub const SYSTEM_TIMEZONE_VAR: &'static str = "TZ";

/// Time zone used when neither environment variable names one.
pub const DEFAULT_TIMEZONE: &'static str = "Asia/Shanghai";

/// Largest magnitude, in whole seconds, of an offset that the `time` crate accepts (25:59:59).
pub const MAX_OFFSET_SECONDS: i32 = 93599;

/// Nanoseconds in one second.
pub const NANOS_PER_SECOND: i128 = 1_000_000_000;

/// Nanoseconds in one millisecond.
pub const NANOS_PER_MILLI: i128 = 1_000_000;

/// Earliest whole second since the Unix epoch that the `time` crate represents
/// without its `large-dates` feature (the start of year -9999).
pub const TIME_MIN_TIMESTAMP: i128 = -377_705_116_800;

/// Latest whole second since the Unix epoch that the `time` crate represents
/// without its `large-dates` feature (the end of year 9999).
pub const TIME_MAX_TIMESTAMP: i128 = 253_402_300_799;

/// Whether `OffsetDateTime::from_unix_timestamp_nanos` of the `time` crate accepts
/// this many nanoseconds since the Unix epoch: whether the whole second it falls
/// in lies within the crate's date range.
pub open spec fn time_accepts_unix_nanos(nanos: i128) -> bool {
    TIME_MIN_TIMESTAMP * NANOS_PER_SECOND <= nanos < (TIME_MAX_TIMESTAMP + 1) * NANOS_PER_SECOND
}

/// A point in time together with the local offset it is shown in.
#[derive(Clone, Copy, Debug, PartialEq, Eq, Structural)]
pub struct LocalDateTime {
    /// Nanoseconds since the Unix epoch, independent of the offset.
    pub unix_timestamp_nanos: i128,
    /// Offset east of UTC in whole seconds.
    pub offset_seconds: i32,
}

/// One reading of the UTC wall clock.
#[derive(Clone, Copy, Debug, PartialEq, Eq, Structural)]
pub struct UtcReading {
    /// Whole seconds since the Unix epoch.
    pub timestamp: i64,
    /// Nanoseconds past `timestamp`.
    pub subsec_nanos: u32,
}

/// Builds the UTC instant `secs` seconds and `nanos` nanoseconds after the Unix
/// epoch with `chrono::DateTime::from_timestamp` and reads it back with
/// `DateTime::timestamp` and `DateTime::timestamp_subsec_nanos`. With fewer than
/// one billion nanoseconds, `from_timestamp` succeeds exactly when the seconds lie
/// within chrono's date range, and the instant reads back as given.
#[verifier::external_body]
fn utc_reading_at(secs: i64, nanos: u32) -> (r: Option<UtcReading>)
    requires
        nanos < 1_000_000_000,
    ensures
        r is Some <==> chrono_timestamp_in_range(secs),
        r matches Some(reading) ==> reading.timestamp == secs && reading.subsec_nanos == nanos,
{
    chrono::DateTime::from_timestamp(secs, nanos).map(|instant| UtcReading {
        timestamp: instant.timestamp(),
        subsec_nanos: instant.timestamp_subsec_nanos(),
    })
}

/// Whether a clock reading is one chrono can represent: within its date range
/// and with less than a second past the whole seconds.
pub open spec fn representable_reading(reading: UtcReading) -> bool {
    &&& reading.subsec_nanos < 1_000_000_000
    &&& chrono_timestamp_in_range(reading.timestamp)
}

/// Reads the UTC wall clock as chrono does: the operating system's time since
/// the Unix epoch, as whole seconds (cast to 64 bits) and the nanoseconds past
/// them, built into a chrono instant. `None` when the clock lies before the epoch
/// or beyond chrono's date range.
pub fn read_utc_clock() -> (r: Option<UtcReading>)
    ensures
        r matches Some(reading) ==> representable_reading(reading),
{
    let now = system_time_now();
    match elapsed_since_unix_epoch(&now) {
        Some(elapsed) => {
            let secs = duration_as_secs(&elapsed) as i64;
            let nanos = duration_subsec_nanos(&elapsed);
            utc_reading_at(secs, nanos)
        },
        None => None,
    }
}

/// Whether `time::UtcOffset::from_whole_seconds` accepts the offset: it accepts
/// exactly the offsets within ±25:59:59.
#[verifier::external_body]
fn utc_offset_accepts(seconds: i32) -> (r: bool)
    ensures
        r == (-MAX_OFFSET_SECONDS <= seconds <= MAX_OFFSET_SECONDS),
{
    time::UtcOffset::from_whole_seconds(seconds).is_ok()
}

/// Whether `time::OffsetDateTime::from_unix_timestamp_nanos` accepts the
/// timestamp. Without the `large-dates` feature of `time`, which nothing in this
/// build enables, it accepts exactly the instants whose whole second lies
/// within years -9999 to 9999.
#[verifier::external_body]
fn unix_nanos_accepted(nanos: i128) -> (r: bool)
    ensures
        r == time_accepts_unix_nanos(nanos),
{
    time::OffsetDateTime::from_unix_timestamp_nanos(nanos).is_ok()
}

/// Whether a string is empty once surrounding whitespace is trimmed, i.e. every
/// character of it has the Unicode `White_Space` property.
pub open spec fn is_blank(s: Seq<char>) -> bool {
    forall|i: int| 0 <= i < s.len() ==> is_white_space(#[trigger] s[i])
}

/// The characters with the Unicode `White_Space` property.
pub open spec fn is_white_space(c: char) -> bool {
    let v = c as u32;
    ||| 0x09 <= v <= 0x0d
    ||| v == 0x20
    ||| v == 0x85
    ||| v == 0xa0
    ||| v == 0x1680
    ||| 0x2000 <= v <= 0x200a
    ||| v == 0x2028
    ||| v == 0x2029
    ||| v == 0x202f
    ||| v == 0x205f
    ||| v == 0x3000
}

/// Tests one character for the Unicode `White_Space` property.
pub fn white_space(c: char) -> (r: bool)
    ensures
        r == is_white_space(c),
{
    let v = c as u32;
    (0x09 <= v && v <= 0x0d) || v == 0x20 || v == 0x85 || v == 0xa0 || v == 0x1680 || (0x2000
        <= v && v <= 0x200a) || v == 0x2028 || v == 0x2029 || v == 0x202f || v == 0x205f || v
        == 0x3000
}

/// Tests whether a string holds nothing but whitespace.
pub fn blank(s: &str) -> (r: bool)
    ensures
        r == is_blank(s@),
{
    broadcast use vstd::string::group_string_axioms;
    let mut all_white = true;
    for c in it: s.chars()
        invariant
            it.seq() == s@,
            all_white == (forall|j: int| 0 <= j < it.index() ==> is_white_space(#[trigger] s@[j])),
    {
        if !white_space(c) {
            all_white = false;
        }
    }
    all_white
}

/// The value of a time zone variable, when it is set and not blank.
pub open spec fn usable_zone_name(value: Option<Seq<char>>) -> Option<Seq<char>> {
    match value {
        Some(name) => if is_blank(name) { None } else { Some(name) },
        None => None,
    }
}

/// The configured zone name: the application's variable if usable, else the
/// system's variable if usable, else the default zone.
pub open spec fn chosen_zone_name(app_value: Option<Seq<char>>, system_value: Option<Seq<char>>) -> Seq<char> {
    match usable_zone_name(app_value) {
        Some(name) => name,
        None => match usable_zone_name(system_value) {
            Some(name) => name,
            None => DEFAULT_TIMEZONE@,
        },
    }
}

/// The view of an optional string.
pub open spec fn opt_view(value: Option<String>) -> Option<Seq<char>> {
    match value {
        Some(s) => Some(s@),
        None => None,
    }
}

/// Chooses the configured IANA time zone name from the values of the application
/// and system time zone variables (`None` where a variable is unset).
pub fn configured_timezone_name(app_value: Option<String>, system_value: Option<String>) -> (name: String)
    ensures
        name@ == chosen_zone_name(opt_view(app_value), opt_view(system_value)),
{
    if let Some(value) = app_value {
        if !blank(value.as_str()) {
            return value;
        }
    }
    if let Some(value) = system_value {
        if !blank(value.as_str()) {
            return value;
        }
    }
    DEFAULT_TIMEZONE.to_string()
}

/// The zone that a configured name resolves to: the named zone when the
/// database knows it, and UTC otherwise.
pub open spec fn resolved_zone_name(name: Seq<char>) -> Seq<char> {
    if iana_zone_known(name) {
        name
    } else {
        "UTC"@
    }
}

/// Resolves the configured IANA time zone, falling back to UTC when the name is
/// not a zone of the database, so that an unparseable configuration still
/// yields a usable clock.
pub fn configured_timezone(name: &str) -> (zone: Zone)
    ensures
        zone@ == resolved_zone_name(name@),
{
    match parse_zone(name) {
        Some(zone) => zone,
        None => utc_zone(),
    }
}

/// The offset that a zone mapping yields: its single offset, or zero when the
/// instant maps to no local time or to more than one.
pub open spec fn single_offset(offsets: LocalOffsets) -> i32 {
    match offsets {
        LocalOffsets::Single(seconds) => seconds,
        _ => 0,
    }
}

/// The offset that a number of seconds denotes: itself when the `time` crate
/// accepts it, and UTC otherwise.
pub open spec fn offset_seconds_or_utc(seconds: i32) -> i32 {
    if -MAX_OFFSET_SECONDS <= seconds <= MAX_OFFSET_SECONDS {
        seconds
    } else {
        0
    }
}

/// The local offset, in whole seconds, of the zone called `name` at the UTC
/// instant `timestamp`.
pub open spec fn local_offset_at(name: Seq<char>, timestamp: i64) -> i32 {
    offset_seconds_or_utc(single_offset(zone_local_offsets(name, timestamp)))
}

/// Converts offset seconds into an accepted offset while keeping invalid data
/// contained: an offset outside ±25:59:59 becomes UTC.
pub fn offset_from_seconds(offset_seconds: i32) -> (seconds: i32)
    ensures
        seconds == offset_seconds_or_utc(offset_seconds),
        -MAX_OFFSET_SECONDS <= seconds <= MAX_OFFSET_SECONDS,
{
    if utc_offset_accepts(offset_seconds) {
        offset_seconds
    } else {
        0
    }
}

/// Resolves the offset for a specific instant, so that daylight-saving
/// transitions are handled by the zone data; an instant that maps to no single
/// local time uses offset zero.
pub fn offset_for_unix_timestamp(zone: &Zone, timestamp: i64) -> (seconds: i32)
    ensures
        seconds == local_offset_at(zone@, timestamp),
        -MAX_OFFSET_SECONDS <= seconds <= MAX_OFFSET_SECONDS,
        chrono_timestamp_in_range(timestamp) ==> zone_local_offsets(zone@, timestamp) is Single,
        zone_local_offsets(zone@, timestamp) matches LocalOffsets::Single(offset) ==> seconds == offset,
        !(zone_local_offsets(zone@, timestamp) is Single) ==> seconds == 0,
        zone@ == "UTC"@ ==> seconds == 0,
{
    let offset_seconds = match zone_offsets_at(zone, timestamp) {
        LocalOffsets::Single(seconds) => seconds,
        _ => 0,
    };
    offset_from_seconds(offset_seconds)
}

/// Nanoseconds since the Unix epoch of a whole-second timestamp and the
/// nanoseconds past it.
pub open spec fn unix_nanos_of(timestamp: i64, subsec_nanos: u32) -> int {
    timestamp * NANOS_PER_SECOND + subsec_nanos
}

/// Combines whole seconds and sub-second nanoseconds into nanoseconds since the
/// Unix epoch; the 128-bit result cannot overflow.
pub fn unix_timestamp_nanos(timestamp: i64, subsec_nanos: u32) -> (nanos: i128)
    ensures
        nanos == unix_nanos_of(timestamp, subsec_nanos),
{
    let seconds = timestamp as i128;
    assert(-0x8000_0000_0000_0000 * 1_000_000_000 <= seconds * 1_000_000_000
        <= 0x7fff_ffff_ffff_ffff * 1_000_000_000) by (nonlinear_arith)
        requires
            -0x8000_0000_0000_0000 <= seconds <= 0x7fff_ffff_ffff_ffff,
    ;
    seconds * NANOS_PER_SECOND + subsec_nanos as i128
}

/// The instant of a clock reading in nanoseconds since the Unix epoch, when the
/// `time` crate can represent it.
pub fn reading_unix_nanos(reading: UtcReading) -> (nanos: Option<i128>)
    ensures
        nanos is Some <==> time_accepts_unix_nanos(unix_nanos_of(reading.timestamp, reading.subsec_nanos) as i128),
        nanos matches Some(n) ==> n == unix_nanos_of(reading.timestamp, reading.subsec_nanos),
{
    let nanos = unix_timestamp_nanos(reading.timestamp, reading.subsec_nanos);
    if unix_nanos_accepted(nanos) {
        Some(nanos)
    } else {
        None
    }
}

/// Whether `local` shows the clock reading `reading` in the zone called `name`:
/// the reading is one that both chrono and the `time` crate represent, the zone
/// maps its whole second to a single offset, and `local` is the reading's
/// instant carrying that offset.
pub open spec fn shows_reading(name: Seq<char>, reading: UtcReading, local: LocalDateTime) -> bool {
    &&& representable_reading(reading)
    &&& time_accepts_unix_nanos(unix_nanos_of(reading.timestamp, reading.subsec_nanos) as i128)
    &&& zone_local_offsets(name, reading.timestamp) is Single
    &&& local.offset_seconds == local_offset_at(name, reading.timestamp)
    &&& local.unix_timestamp_nanos == unix_nanos_of(reading.timestamp, reading.subsec_nanos)
}

/// Whether `local` shows some clock reading in the zone called `name`.
pub open spec fn shows_some_reading(name: Seq<char>, local: LocalDateTime) -> bool {
    exists|reading: UtcReading| #[trigger] shows_reading(name, reading, local)
}

/// The local time that a clock reading shows in the zone called `name`: the
/// reading's instant carrying the zone's offset at its whole second, when the
/// `time` crate represents that instant.
pub open spec fn local_at_reading(name: Seq<char>, reading: UtcReading) -> Option<LocalDateTime> {
    let nanos = unix_nanos_of(reading.timestamp, reading.subsec_nanos);
    if time_accepts_unix_nanos(nanos as i128) {
        Some(
            LocalDateTime {
                unix_timestamp_nanos: nanos as i128,
                offset_seconds: local_offset_at(name, reading.timestamp),
            },
        )
    } else {
        None
    }
}

/// Shows one clock reading in the zone: the reading's instant with the zone's
/// offset at that instant. `None` when the instant lies beyond the `time`
/// crate's range.
pub fn local_date_time_at(zone: &Zone, reading: UtcReading) -> (local: Option<LocalDateTime>)
    ensures
        local == local_at_reading(zone@, reading),
        chrono_timestamp_in_range(reading.timestamp) ==> zone_local_offsets(zone@, reading.timestamp) is Single,
        -MAX_OFFSET_SECONDS <= local_offset_at(zone@, reading.timestamp) <= MAX_OFFSET_SECONDS,
        zone@ == "UTC"@ ==> local_offset_at(zone@, reading.timestamp) == 0,
{
    let offset_seconds = offset_for_unix_timestamp(zone, reading.timestamp);
    match reading_unix_nanos(reading) {
        Some(nanos) => Some(LocalDateTime { unix_timestamp_nanos: nanos, offset_seconds }),
        None => None,
    }
}

/// The whole second, counted from the Unix epoch and rounded down, that an
/// instant in nanoseconds falls in.
pub open spec fn whole_second_of(nanos: int) -> int {
    nanos / (NANOS_PER_SECOND as int)
}

/// A clock reading's instant falls in the reading's own whole second.
pub proof fn lemma_reading_whole_second(reading: UtcReading)
    requires
        reading.subsec_nanos < 1_000_000_000,
    ensures
        whole_second_of(unix_nanos_of(reading.timestamp, reading.subsec_nanos)) == reading.timestamp,
{
    vstd::arithmetic::div_mod::lemma_fundamental_div_mod_converse(
        unix_nanos_of(reading.timestamp, reading.subsec_nanos),
        NANOS_PER_SECOND as int,
        reading.timestamp as int,
        reading.subsec_nanos as int,
    );
}

/// Returns the current local time in the zone, computed from chrono's clock and
/// the zone data rather than the platform's localtime interfaces: one clock
/// reading, shown in the zone's offset at that reading. `None` when the clock
/// cannot be read as a chrono instant or lies beyond the `time` crate's range.
/// The offset returned is always the zone's offset at the instant returned.
pub fn now_local(zone: &Zone) -> (local: Option<LocalDateTime>)
    ensures
        local matches Some(l) ==> shows_some_reading(zone@, l),
        local matches Some(l) ==> l.offset_seconds == local_offset_at(
            zone@,
            whole_second_of(l.unix_timestamp_nanos as int) as i64,
        ),
        local matches Some(l) ==> -MAX_OFFSET_SECONDS <= l.offset_seconds <= MAX_OFFSET_SECONDS,
        local matches Some(l) ==> time_accepts_unix_nanos(l.unix_timestamp_nanos),
        local matches Some(l) ==> (zone@ == "UTC"@ ==> l.offset_seconds == 0),
{
    let reading = match read_utc_clock() {
        Some(reading) => reading,
        None => return None,
    };
    let local = local_date_time_at(zone, reading);
    proof {
        if let Some(l) = local {
            lemma_reading_whole_second(reading);
            assert(shows_reading(zone@, reading, l));
        }
    }
    local
}

/// The zone never moves the instant: one clock reading shown in any two zones
/// is the same instant, only the offsets may differ.
pub proof fn lemma_zone_never_moves_instant(
    first_zone: Seq<char>,
    second_zone: Seq<char>,
    reading: UtcReading,
    first: LocalDateTime,
    second: LocalDateTime,
)
    requires
        shows_reading(first_zone, reading, first),
        shows_reading(second_zone, reading, second),
    ensures
        first.unix_timestamp_nanos == second.unix_timestamp_nanos,
{
}

/// Rust's integer division, which rounds toward zero.
pub open spec fn div_toward_zero(n: int, d: int) -> int
    recommends
        d > 0,
{
    if n >= 0 {
        n / d
    } else {
        -((-n) / d)
    }
}

/// Whether `millis` is `nanos` counted in whole milliseconds rounded toward
/// zero: the instant lies in the millisecond that starts at `millis` and runs
/// away from the epoch.
pub open spec fn brackets_nanos(nanos: int, millis: int) -> bool {
    if nanos >= 0 {
        millis * NANOS_PER_MILLI <= nanos < millis * NANOS_PER_MILLI + NANOS_PER_MILLI
    } else {
        millis * NANOS_PER_MILLI - NANOS_PER_MILLI < nanos <= millis * NANOS_PER_MILLI
    }
}

/// Rounding nanoseconds toward zero to whole milliseconds keeps the instant
/// inside the millisecond it names, and keeps its sign.
pub proof fn lemma_millis_bracket_nanos(nanos: int)
    ensures
        brackets_nanos(nanos, div_toward_zero(nanos, NANOS_PER_MILLI as int)),
        nanos >= 0 ==> div_toward_zero(nanos, NANOS_PER_MILLI as int) >= 0,
        nanos <= 0 ==> div_toward_zero(nanos, NANOS_PER_MILLI as int) <= 0,
{
    let d = NANOS_PER_MILLI as int;
    if nanos >= 0 {
        vstd::arithmetic::div_mod::lemma_fundamental_div_mod(nanos, d);
        vstd::arithmetic::div_mod::lemma_mod_bound(nanos, d);
        vstd::arithmetic::div_mod::lemma_div_pos_is_pos(nanos, d);
    } else {
        vstd::arithmetic::div_mod::lemma_fundamental_div_mod(-nanos, d);
        vstd::arithmetic::div_mod::lemma_mod_bound(-nanos, d);
        vstd::arithmetic::div_mod::lemma_div_pos_is_pos(-nanos, d);
    }
}

/// Converts nanoseconds since the Unix epoch into whole milliseconds, rounding
/// toward zero. The division runs on the full 128-bit value and only its
/// quotient is narrowed to 64 bits, so any instant within ±292 million years
/// keeps its full magnitude.
pub fn millis_from_unix_nanos(nanos: i128) -> (millis: i64)
    ensures
        millis == div_toward_zero(nanos as int, NANOS_PER_MILLI as int) as i64,
        -0x8000_0000_0000_0000 * NANOS_PER_MILLI < nanos < 0x8000_0000_0000_0000 * NANOS_PER_MILLI
            ==> millis == div_toward_zero(nanos as int, NANOS_PER_MILLI as int),
        -0x8000_0000_0000_0000 * NANOS_PER_MILLI < nanos < 0x8000_0000_0000_0000 * NANOS_PER_MILLI
            ==> brackets_nanos(nanos as int, millis as int),
{
    let quotient: i128 = nanos / NANOS_PER_MILLI;
    assert(quotient == div_toward_zero(nanos as int, NANOS_PER_MILLI as int));
    proof {
        lemma_millis_bracket_nanos(nanos as int);
    }
    quotient as i64
}

/// The Unix milliseconds of a clock reading, rounded toward zero; no zone enters it.
pub open spec fn reading_millis(reading: UtcReading) -> int {
    div_toward_zero(unix_nanos_of(reading.timestamp, reading.subsec_nanos), NANOS_PER_MILLI as int)
}

/// Whether `millis` are the Unix milliseconds of the clock reading `reading`, a
/// reading that both chrono and the `time` crate represent.
pub open spec fn millis_of_reading(reading: UtcReading, millis: i64) -> bool {
    &&& representable_reading(reading)
    &&& time_accepts_unix_nanos(unix_nanos_of(reading.timestamp, reading.subsec_nanos) as i128)
    &&& millis == reading_millis(reading)
}

/// Whether `millis` are the Unix milliseconds of some clock reading.
pub open spec fn millis_of_some_reading(millis: i64) -> bool {
    exists|reading: UtcReading| #[trigger] millis_of_reading(reading, millis)
}

/// The Unix milliseconds of a clock reading when the `time` crate represents
/// its instant; which zone it is read in plays no part.
pub open spec fn millis_at_reading(reading: UtcReading) -> Option<i64> {
    if time_accepts_unix_nanos(unix_nanos_of(reading.timestamp, reading.subsec_nanos) as i128) {
        Some(reading_millis(reading) as i64)
    } else {
        None
    }
}

/// Reads one clock reading in the zone as Unix milliseconds: the milliseconds of
/// the local time the reading shows there. `None` when the instant lies beyond
/// the `time` crate's range.
pub fn unix_millis_at(zone: &Zone, reading: UtcReading) -> (millis: Option<i64>)
    ensures
        millis == millis_at_reading(reading),
{
    match local_date_time_at(zone, reading) {
        Some(local) => {
            let millis = millis_from_unix_nanos(local.unix_timestamp_nanos);
            proof {
                assert(local.unix_timestamp_nanos == unix_nanos_of(reading.timestamp, reading.subsec_nanos));
            }
            Some(millis)
        },
        None => None,
    }
}

/// What the milliseconds of a reading are, in terms of the local time the same
/// reading shows in any zone: present exactly when that local time is, equal in
/// every zone, and naming the millisecond its instant lies in.
pub proof fn lemma_millis_match_local_time(name: Seq<char>, other: Seq<char>, reading: UtcReading)
    requires
        reading.subsec_nanos < 1_000_000_000,
    ensures
        millis_at_reading(reading) is Some <==> local_at_reading(name, reading) is Some,
        local_at_reading(name, reading) is Some <==> local_at_reading(other, reading) is Some,
        local_at_reading(name, reading) matches Some(l) ==> local_at_reading(other, reading)
            matches Some(o) && o.unix_timestamp_nanos == l.unix_timestamp_nanos,
        local_at_reading(name, reading) matches Some(l) ==> millis_at_reading(reading) matches Some(m)
            && brackets_nanos(l.unix_timestamp_nanos as int, m as int),
{
    let nanos = unix_nanos_of(reading.timestamp, reading.subsec_nanos);
    lemma_millis_bracket_nanos(nanos);
    if time_accepts_unix_nanos(nanos as i128) {
        let m = reading_millis(reading);
        assert(-0x8000_0000_0000_0000 <= m < 0x8000_0000_0000_0000) by {
            if nanos >= 0 {
                assert(m * NANOS_PER_MILLI <= nanos);
            } else {
                assert(nanos <= m * NANOS_PER_MILLI);
            }
        }
    }
}

/// Returns the current Unix timestamp in milliseconds, read in the zone; the zone
/// never changes the value. `None` when the clock cannot be read as a chrono
/// instant or lies beyond the `time` crate's range.
pub fn now_millis(zone: &Zone) -> (millis: Option<i64>)
    ensures
        millis matches Some(m) ==> millis_of_some_reading(m),
        millis matches Some(m) ==> exists|reading: UtcReading|
            representable_reading(reading) && #[trigger] millis_at_reading(reading) == Some(m),
{
    let reading = match read_utc_clock() {
        Some(reading) => reading,
        None => return None,
    };
    let millis = unix_millis_at(zone, reading);
    proof {
        if let Some(m) = millis {
            assert(millis_of_reading(reading, m));
        }
    }
    millis
}

/// Later clock readings never give fewer Unix milliseconds.
pub proof fn lemma_reading_millis_monotone(earlier: UtcReading, later: UtcReading)
    requires
        unix_nanos_of(earlier.timestamp, earlier.subsec_nanos) <= unix_nanos_of(later.timestamp, later.subsec_nanos),
    ensures
        reading_millis(earlier) <= reading_millis(later),
{
    lemma_div_toward_zero_monotone(
        unix_nanos_of(earlier.timestamp, earlier.subsec_nanos),
        unix_nanos_of(later.timestamp, later.subsec_nanos),
        NANOS_PER_MILLI as int,
    );
}

/// Division rounding toward zero by a positive divisor keeps order.
pub proof fn lemma_div_toward_zero_monotone(a: int, b: int, d: int)
    requires
        a <= b,
        d > 0,
    ensures
        div_toward_zero(a, d) <= div_toward_zero(b, d),
{
    if a >= 0 {
        vstd::arithmetic::div_mod::lemma_div_is_ordered(a, b, d);
    } else if b < 0 {
        vstd::arithmetic::div_mod::lemma_div_is_ordered(-b, -a, d);
    } else {
        vstd::arithmetic::div_mod::lemma_div_pos_is_pos(-a, d);
        vstd::arithmetic::div_mod::lemma_div_pos_is_pos(b, d);
    }
}

/// Whether `seconds` is the zone's offset at a representable instant that the
/// zone maps to a single local time.
pub open spec fn offset_at_some_instant(name: Seq<char>, seconds: i32) -> bool {
    exists|timestamp: i64|
        chrono_timestamp_in_range(timestamp) && zone_local_offsets(name, timestamp) is Single
            && seconds == #[trigger] local_offset_at(name, timestamp)
}

/// Returns the zone's current offset from UTC in whole seconds: its offset at
/// the current clock reading. `None` when the clock cannot be read as a chrono
/// instant.
pub fn local_offset(zone: &Zone) -> (seconds: Option<i32>)
    ensures
        seconds matches Some(s) ==> offset_at_some_instant(zone@, s),
        seconds matches Some(s) ==> -MAX_OFFSET_SECONDS <= s <= MAX_OFFSET_SECONDS,
        seconds matches Some(s) ==> (zone@ == "UTC"@ ==> s == 0),
{
    match read_utc_clock() {
        Some(reading) => {
            let seconds = offset_for_unix_timestamp(zone, reading.timestamp);
            assert(seconds == local_offset_at(zone@, reading.timestamp));
            Some(seconds)
        },
        None => None,
    }
}

/// Scales an offset in whole seconds to milliseconds.
pub fn offset_millis(seconds: i32) -> (millis: i64)
    ensures
        millis == seconds * 1000,
{
    seconds as i64 * 1000
}

/// The zone's offset from UTC in milliseconds at the UTC instant `timestamp`.
pub fn offset_millis_at(zone: &Zone, timestamp: i64) -> (millis: i64)
    ensures
        millis == 1000 * local_offset_at(zone@, timestamp),
        -MAX_OFFSET_SECONDS * 1000 <= millis <= MAX_OFFSET_SECONDS * 1000,
        chrono_timestamp_in_range(timestamp) ==> zone_local_offsets(zone@, timestamp) is Single,
        zone@ == "UTC"@ ==> millis == 0,
{
    offset_millis(offset_for_unix_timestamp(zone, timestamp))
}

/// The offset in milliseconds and the offset in seconds at one instant are the
/// same offset: the milliseconds are a whole number of seconds, and dividing
/// them by a thousand gives back the seconds, which are the offset that the
/// local time of any reading at that instant carries.
pub proof fn lemma_offset_millis_are_offset_seconds(name: Seq<char>, reading: UtcReading, millis: i64)
    requires
        millis == 1000 * local_offset_at(name, reading.timestamp),
    ensures
        millis % 1000 == 0,
        millis / 1000 == local_offset_at(name, reading.timestamp),
        local_at_reading(name, reading) matches Some(l) ==> millis == 1000 * l.offset_seconds,
{
    vstd::arithmetic::div_mod::lemma_mod_multiples_basic(local_offset_at(name, reading.timestamp) as int, 1000);
    vstd::arithmetic::div_mod::lemma_div_multiples_vanish(local_offset_at(name, reading.timestamp) as int, 1000);
}

/// Returns the zone's current offset from UTC in milliseconds, for SQL
/// wall-clock reconstruction. `None` when the clock cannot be read as a chrono
/// instant.
pub fn local_offset_millis(zone: &Zone) -> (millis: Option<i64>)
    ensures
        millis matches Some(m) ==> exists|seconds: i32| #[trigger] offset_at_some_instant(zone@, seconds) && m == seconds * 1000,
        millis matches Some(m) ==> -MAX_OFFSET_SECONDS * 1000 <= m <= MAX_OFFSET_SECONDS * 1000,
        millis matches Some(m) ==> (zone@ == "UTC"@ ==> m == 0),
{
    match read_utc_clock() {
        Some(reading) => {
            let millis = offset_millis_at(zone, reading.timestamp);
            proof {
                let seconds = local_offset_at(zone@, reading.timestamp);
                assert(offset_at_some_instant(zone@, seconds));
            }
            Some(millis)
        },
        None => None,
    }
}

} // verus!
