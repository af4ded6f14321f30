use vstd::prelude::*;

verus! {

/// Whether chrono's RFC 3339 parser accepts the text.
pub uninterp spec fn is_rfc3339(s: Seq<char>) -> bool;

/// Relies on chrono's `DateTime::parse_from_rfc3339`: whether the text is an
/// RFC 3339 date-time that it accepts.
#[verifier::external_body]
fn accepts_rfc3339(s: &str) -> (r: bool)
    ensures
        r == is_rfc3339(s@),
{
    chrono::DateTime::parse_from_rfc3339(s).is_ok()
}

/// The RFC 3339 text that chrono's `to_rfc3339` writes for an instant, given
/// as seconds and nanoseconds since the Unix epoch.
pub uninterp spec fn rfc3339_text(secs: int, nanos: int) -> Seq<char>;

/// The last second of year 9999: up to it chrono writes a four-digit year,
/// which its RFC 3339 parser reads back.
pub const LATEST_SECS: i64 = 253_402_300_799;

/// Nanoseconds in a second.
pub const NANOS_PER_SEC: u32 = 1_000_000_000;

/// The system clock's time.
#[verifier::external_type_specification]
#[verifier::external_body]
pub struct ExSystemTime(std::time::SystemTime);

/// A reading of the system clock against the Unix epoch: whole seconds and
/// the nanoseconds beyond them, after the epoch or, for a clock set earlier,
/// before it.
#[derive(Debug, Clone, Copy, PartialEq, Eq, Structural)]
pub enum ClockReading {
    AfterEpoch(u64, u32),
    BeforeEpoch(u64, u32),
}

/// Relies on std's `SystemTime::now`: the system clock's current time.
/// Nothing is promised of the value.
#[verifier::external_body]
fn system_time_now() -> (r: std::time::SystemTime) {
    std::time::SystemTime::now()
}

/// Relies on std's `SystemTime::duration_since` from `UNIX_EPOCH`, which
/// returns the time since the epoch, or an error that carries the time
/// before it when the clock reads earlier. It does not panic.
#[verifier::external_body]
fn since_unix_epoch(t: &std::time::SystemTime) -> (r: ClockReading) {
    match t.duration_since(std::time::UNIX_EPOCH) {
        Ok(d) => ClockReading::AfterEpoch(d.as_secs(), d.subsec_nanos()),
        Err(e) => ClockReading::BeforeEpoch(e.duration().as_secs(), e.duration().subsec_nanos()),
    }
}

/// The instant, in seconds and nanoseconds since the epoch, that a clock
/// reading is held at: a reading before 1970 is the epoch itself, one past
/// year 9999 is the last nanosecond of that year, and nanoseconds are kept
/// below a second.
pub open spec fn clamped_instant(c: ClockReading) -> (int, int) {
    match c {
        ClockReading::BeforeEpoch(_, _) => (0, 0),
        ClockReading::AfterEpoch(secs, nanos) => if secs > LATEST_SECS {
            (LATEST_SECS as int, NANOS_PER_SEC - 1)
        } else if nanos >= NANOS_PER_SEC {
            (secs as int, NANOS_PER_SEC - 1)
        } else {
            (secs as int, nanos as int)
        },
    }
}

/// Relies on chrono's `DateTime::from_timestamp`, rendered by
/// `DateTime::to_rfc3339`. From 1970 through year 9999 with fewer than a
/// second of nanoseconds, `from_timestamp` succeeds and `to_rfc3339` writes
/// `YYYY-MM-DDTHH:MM:SS[.fraction]+00:00`, which `parse_from_rfc3339` accepts.
#[verifier::external_body]
fn instant_rfc3339(secs: i64, nanos: u32) -> (r: String)
    requires
        0 <= secs <= LATEST_SECS,
        nanos < NANOS_PER_SEC,
    ensures
        r@ == rfc3339_text(secs as int, nanos as int),
        is_rfc3339(r@),
{
    chrono::DateTime::from_timestamp(secs, nanos).unwrap().to_rfc3339()
}

/// An instant, held as the RFC 3339 text under which it is stored.
#[derive(Debug, Clone, PartialEq, Eq)]
pub struct Timestamp {
    pub text: String,
}

impl View for Timestamp {
    type V = Seq<char>;

    open spec fn view(&self) -> Seq<char> {
        self.text@
    }
}

impl DeepView for Timestamp {
    type V = Seq<char>;

    open spec fn deep_view(&self) -> Seq<char> {
        self.text@
    }
}

impl Timestamp {
    /// A timestamp is well formed when its text parses as RFC 3339.
    pub open spec fn wf(self) -> bool {
        is_rfc3339(self@)
    }

    /// The instant `secs` seconds and `nanos` nanoseconds after the Unix epoch.
    pub fn from_instant(secs: i64, nanos: u32) -> (r: Timestamp)
        requires
            0 <= secs <= LATEST_SECS,
            nanos < NANOS_PER_SEC,
        ensures
            r@ == rfc3339_text(secs as int, nanos as int),
            r.wf(),
    {
        Timestamp { text: instant_rfc3339(secs, nanos) }
    }

    /// The timestamp of a clock reading, held within 1970 through year 9999.
    pub fn from_clock_reading(reading: ClockReading) -> (r: Timestamp)
        ensures
            r@ == rfc3339_text(clamped_instant(reading).0, clamped_instant(reading).1),
            r.wf(),
    {
        match reading {
            ClockReading::BeforeEpoch(_, _) => Timestamp::from_instant(0, 0),
            ClockReading::AfterEpoch(secs, nanos) => {
                if secs > LATEST_SECS as u64 {
                    Timestamp::from_instant(LATEST_SECS, NANOS_PER_SEC - 1)
                } else if nanos >= NANOS_PER_SEC {
                    Timestamp::from_instant(secs as i64, NANOS_PER_SEC - 1)
                } else {
                    Timestamp::from_instant(secs as i64, nanos)
                }
            },
        }
    }

    /// The current time: the timestamp of the system clock's reading.
    pub fn now() -> (r: Timestamp)
        ensures
            r.wf(),
            exists|c: ClockReading|
                r@ == rfc3339_text(clamped_instant(c).0, clamped_instant(c).1),
    {
        let t = system_time_now();
        let reading = since_unix_epoch(&t);
        Timestamp::from_clock_reading(reading)
    }

    /// Reads an RFC 3339 text; `None` when it does not parse.
    pub fn parse(s: &str) -> (r: Option<Timestamp>)
        ensures
            r.is_some() == is_rfc3339(s@),
            r matches Some(t) ==> t@ == s@ && t.wf(),
    {
        if accepts_rfc3339(s) {
            Some(Timestamp { text: s.to_owned() })
        } else {
            None
        }
    }

    /// The stored text.
    pub fn as_str(&self) -> (r: &str)
        ensures
            r@ == self@,
    {
        self.text.as_str()
    }

    /// A copy of the timestamp.
    pub fn duplicate(&self) -> (r: Timestamp)
        ensures
            r@ == self@,
    {
        Timestamp { text: self.text.clone() }
    }
}

} // verus!
