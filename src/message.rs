//! Notification messages and the dead-letter record built from one.
use vstd::prelude::*;

verus! {

/// One request to send a notification, as read from the wire.
#[derive(Clone, Debug)]
pub struct NotificationMessage {
    /// Opaque correlation id.
    pub trace_id: String,
    pub user_id: String,
    pub template_code: String,
    /// Address or device token for the push gateway.
    pub recipient: String,
    /// Unique per logical send request.
    pub idempotency_key: String,
    /// Template parameters: each name with its value as JSON text.
    pub params: Vec<(String, String)>,
}

/// A message that could not be processed, with why and when.
#[derive(Clone, Debug)]
pub struct DlqMessage {
    pub original_message: NotificationMessage,
    pub failure_reason: String,
    /// RFC 3339 UTC timestamp with milliseconds.
    pub failed_at: String,
}

/// The earliest instant, in milliseconds since the epoch, whose year has four
/// digits: 0000-01-01T00:00:00.000Z.
pub const EARLIEST_FOUR_DIGIT_YEAR_MS: i64 = -62167219200000;

/// The latest instant, in milliseconds since the epoch, whose year has four
/// digits: 9999-12-31T23:59:59.999Z.
pub const LATEST_FOUR_DIGIT_YEAR_MS: i64 = 253402300799999;

/// The RFC 3339 text, in UTC with milliseconds and a `Z` suffix, of the
/// instant `ms` milliseconds after the epoch.
pub uninterp spec fn rfc3339_millis_of(ms: int) -> Seq<char>;

pub open spec fn is_ascii_digit(c: char) -> bool {
    '0' <= c && c <= '9'
}

/// `s` has the shape `YYYY-MM-DDTHH:MM:SS.mmmZ`.
pub open spec fn is_rfc3339_millis_utc(s: Seq<char>) -> bool {
    &&& s.len() == 24
    &&& s[4] == '-' && s[7] == '-' && s[10] == 'T'
    &&& s[13] == ':' && s[16] == ':' && s[19] == '.' && s[23] == 'Z'
    &&& forall|i: int|
        0 <= i < 23 && i != 4 && i != 7 && i != 10 && i != 13 && i != 16 && i != 19
            ==> #[trigger] is_ascii_digit(s[i])
}

/// Relies on chrono's `DateTime::<Utc>::from_timestamp_millis` and
/// `to_rfc3339_opts(SecondsFormat::Millis, true)`: every instant from the
/// start of year 0 to the end of year 9999 is in chrono's range, and is written with a
/// four-digit year, two digits for each other field, three for the
/// milliseconds, and `Z` for UTC.
#[verifier::external_body]
fn format_rfc3339_millis(ms: i64) -> (r: Option<String>)
    ensures
        r.is_some() ==> r.unwrap()@ == rfc3339_millis_of(ms as int),
        EARLIEST_FOUR_DIGIT_YEAR_MS <= ms <= LATEST_FOUR_DIGIT_YEAR_MS ==> r.is_some() && is_rfc3339_millis_utc(
            r.unwrap()@,
        ),
{
    chrono::DateTime::from_timestamp_millis(ms).map(
        |d| d.to_rfc3339_opts(chrono::SecondsFormat::Millis, true),
    )
}

/// Relies on `std::time::SystemTime::now` for the clock and on chrono's
/// `From<SystemTime> for DateTime<Utc>` and `timestamp_millis`: the time in
/// milliseconds since the epoch, negative for a clock before it. Nothing is
/// known of its value.
#[verifier::external_body]
fn now_millis() -> (r: i64) {
    chrono::DateTime::<chrono::Utc>::from(std::time::SystemTime::now()).timestamp_millis()
}

impl DlqMessage {
    /// The dead-letter record of `original`, failed for `reason` at `ms`
    /// milliseconds after the epoch. The message and the reason are kept as
    /// they are. Instants outside years 0 to 9999 get no record.
    pub fn new(original: NotificationMessage, reason: String, ms: i64) -> (r: Option<DlqMessage>)
        ensures
            r.is_some() == (EARLIEST_FOUR_DIGIT_YEAR_MS <= ms <= LATEST_FOUR_DIGIT_YEAR_MS),
            r.is_some() ==> {
                &&& r.unwrap().original_message == original
                &&& r.unwrap().failure_reason == reason
                &&& r.unwrap().failed_at@ == rfc3339_millis_of(ms as int)
                &&& is_rfc3339_millis_utc(r.unwrap().failed_at@)
            },
    {
        if ms < EARLIEST_FOUR_DIGIT_YEAR_MS || ms > LATEST_FOUR_DIGIT_YEAR_MS {
            return None;
        }
        match format_rfc3339_millis(ms) {
            Some(failed_at) => Some(DlqMessage { original_message: original, failure_reason: reason, failed_at }),
            None => None,
        }
    }

    /// The dead-letter record of `original`, failed for `reason` now; none
    /// if the clock reads outside years 0 to 9999.
    pub fn now(original: NotificationMessage, reason: String) -> (r: Option<DlqMessage>)
        ensures
            r.is_some() ==> {
                &&& r.unwrap().original_message == original
                &&& r.unwrap().failure_reason == reason
                &&& exists|ms: i64| r.unwrap().failed_at@ == rfc3339_millis_of(ms as int)
                &&& is_rfc3339_millis_utc(r.unwrap().failed_at@)
            },
    {
        let ms = now_millis();
        DlqMessage::new(original, reason, ms)
    }
}

} // verus!
