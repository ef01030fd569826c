use rand::TryRngCore;
use vstd::prelude::*;

verus! {

/// The hyphenated lower-case text of the version-4 UUID that
/// `uuid::Builder::from_random_bytes` builds from `bytes`.
pub uninterp spec fn uuid_v4_text(bytes: Seq<u8>) -> Seq<char>;

/// The RFC 3339 text that chrono's `DateTime::<Utc>::to_rfc3339` writes for
/// the instant `secs` seconds and `nanos` nanoseconds after the Unix epoch.
pub uninterp spec fn utc_rfc3339_text(secs: i64, nanos: u32) -> Seq<char>;

/// The shape of a hyphenated version-4 UUID: 36 characters, hyphens at
/// positions 8, 13, 18 and 23, the version digit `4` at position 14 and a
/// variant digit `8`, `9`, `a` or `b` at position 19.
pub open spec fn is_v4_uuid_text(text: Seq<char>) -> bool {
    &&& text.len() == 36
    &&& text[8] == '-'
    &&& text[13] == '-'
    &&& text[18] == '-'
    &&& text[23] == '-'
    &&& text[14] == '4'
    &&& (text[19] == '8' || text[19] == '9' || text[19] == 'a' || text[19] == 'b')
}

/// Whether `text` ends with the UTC offset `+00:00`.
pub open spec fn ends_with_utc_offset(text: Seq<char>) -> bool {
    text.len() >= 6 && text.subrange(text.len() - 6, text.len() as int) == "+00:00"@
}

/// The shape of an RFC 3339 time stamp with a four-digit year: `-` at
/// positions 4 and 7, `T` at 10, `:` at 13 and 16, and at least 25 characters
/// (seconds, an optional fraction and the offset).
pub open spec fn has_rfc3339_layout(text: Seq<char>) -> bool {
    &&& text.len() >= 25
    &&& text[4] == '-'
    &&& text[7] == '-'
    &&& text[10] == 'T'
    &&& text[13] == ':'
    &&& text[16] == ':'
}

/// The first second of the year 10000, after which years take more than four
/// digits.
pub open spec fn year_10000_secs() -> int {
    253402300800
}

/// Sixteen bytes from the operating system's random source, drawn by
/// `rand::rngs::OsRng` through `TryRngCore::try_fill_bytes`; `None` where that
/// source reports an error. Which bytes come out is left unsaid: they are
/// random.
#[verifier::external_body]
fn os_random_bytes() -> (bytes: Option<[u8; 16]>) {
    let mut bytes = [0u8; 16];
    match rand::rngs::OsRng.try_fill_bytes(&mut bytes) {
        Ok(()) => Some(bytes),
        Err(_) => None,
    }
}

/// The text of `uuid::Builder::from_random_bytes(bytes).into_uuid()`, written
/// by its `Display` impl. The uuid source shows that the builder sets the
/// version nibble of byte 6 to 4 and the variant bits of byte 8 to `10`, and
/// that the text is hyphenated lower-case hex; the claim is that shape, and
/// that the text is a function of the bytes.
#[verifier::external_body]
fn uuid_text_from_bytes(bytes: [u8; 16]) -> (text: String)
    ensures
        text@ == uuid_v4_text(bytes@),
        is_v4_uuid_text(text@),
{
    uuid::Builder::from_random_bytes(bytes).into_uuid().to_string()
}

/// The time elapsed since the Unix epoch, from `std::time::SystemTime::now`
/// and `duration_since(UNIX_EPOCH)`, as whole seconds and the nanoseconds past
/// them; `None` where the clock reads before 1970. The claim is what std
/// documents of `Duration::subsec_nanos`: it is below one billion. The instant
/// itself is left unsaid: it depends on the clock.
#[verifier::external_body]
fn time_since_epoch() -> (elapsed: Option<(u64, u32)>)
    ensures
        elapsed matches Some(parts) ==> parts.1 < 1_000_000_000,
{
    match std::time::SystemTime::now().duration_since(std::time::UNIX_EPOCH) {
        Ok(duration) => Some((duration.as_secs(), duration.subsec_nanos())),
        Err(_) => None,
    }
}

/// The RFC 3339 text of `chrono::DateTime::from_timestamp(secs, nanos)`,
/// written by `DateTime::to_rfc3339`; `None` where `from_timestamp` refuses
/// the instant. The claim is what chrono's source and documentation show: the
/// text is a function of the instant and ends with `+00:00`; years 0 to 9999
/// are written with four digits in the layout `YYYY-MM-DDTHH:MM:SS`; and an
/// instant between 1970 and the year 10000 with nanoseconds below one billion
/// is accepted.
#[verifier::external_body]
fn rfc3339_from_timestamp(secs: i64, nanos: u32) -> (text: Option<String>)
    ensures
        text matches Some(t) ==> t@ == utc_rfc3339_text(secs, nanos) && ends_with_utc_offset(t@),
        text matches Some(t) ==> (0 <= secs < year_10000_secs() ==> has_rfc3339_layout(t@)),
        0 <= secs < year_10000_secs() && nanos < 1_000_000_000 ==> text is Some,
{
    match chrono::DateTime::from_timestamp(secs, nanos) {
        Some(instant) => Some(instant.to_rfc3339()),
        None => None,
    }
}

/// A fresh random identifier: a version-4 UUID made from sixteen bytes of
/// the operating system's random source, or `None` where that source fails.
pub fn random_id() -> (id: Option<String>)
    ensures
        id matches Some(text) ==> is_v4_uuid_text(text@) && exists|bytes: Seq<u8>|
            bytes.len() == 16 && text@ == uuid_v4_text(bytes),
{
    match os_random_bytes() {
        Some(bytes) => {
            let text = uuid_text_from_bytes(bytes);
            assert(bytes@.len() == 16);
            Some(text)
        },
        None => None,
    }
}

/// The RFC 3339 text, in UTC, of the instant `secs` seconds and `nanos`
/// nanoseconds after the Unix epoch; `None` where the instant cannot be
/// represented (more seconds than an `i64` holds, or beyond chrono's range,
/// or nanoseconds that are not valid). Every instant before the year 10000
/// with nanoseconds below one billion is represented.
pub fn timestamp_at(secs: u64, nanos: u32) -> (text: Option<String>)
    ensures
        secs > i64::MAX ==> text is None,
        text matches Some(t) ==> {
            &&& t@ == utc_rfc3339_text(secs as i64, nanos)
            &&& ends_with_utc_offset(t@)
            &&& secs < year_10000_secs() ==> has_rfc3339_layout(t@)
        },
        secs < year_10000_secs() && nanos < 1_000_000_000 ==> text is Some,
{
    if secs > i64::MAX as u64 {
        None
    } else {
        rfc3339_from_timestamp(secs as i64, nanos)
    }
}

/// The current time as RFC 3339 text in UTC, or `None` where the clock reads
/// before 1970 or beyond what can be represented.
pub fn timestamp_now() -> (text: Option<String>)
    ensures
        text matches Some(t) ==> ends_with_utc_offset(t@) && exists|secs: i64, nanos: u32|
            0 <= secs && nanos < 1_000_000_000 && t@ == #[trigger] utc_rfc3339_text(secs, nanos)
                && (secs < year_10000_secs() ==> has_rfc3339_layout(t@)),
{
    match time_since_epoch() {
        Some(parts) => {
            let (secs, nanos) = parts;
            let text = timestamp_at(secs, nanos);
            if text.is_some() {
                assert(secs <= i64::MAX);
            }
            text
        },
        None => None,
    }
}

} // verus!
