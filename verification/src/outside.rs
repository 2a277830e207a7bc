//! Calls into outside crates (and std functions vstd does not specify), each with the
//! contract the called code is trusted to meet.
use vstd::prelude::*;
use crate::model::UtcTimestamp;

verus! {

/// The RFC 4122 name-based (SHA-1, version 5) UUID of `name`'s UTF-8 bytes in the
/// namespace `namespace`, as computed by the `uuid` crate.
pub uninterp spec fn uuid_v5(namespace: u128, name: Seq<char>) -> u128;

/// The lower-case hex digit of `n` (below 16).
pub open spec fn hex_lower(n: u128) -> char {
    if n < 10 {
        (n + 48) as char
    } else {
        (n + 87) as char
    }
}

/// The `k`-th hex digit of a UUID's 32, most significant first.
pub open spec fn uuid_nibble(id: u128, k: int) -> u128 {
    (id >> ((124 - 4 * k) as u128)) & 0xfu128
}

/// Which of the 32 hex digits stands at position `i` of the hyphenated text.
pub open spec fn uuid_digit_at(i: int) -> int {
    if i < 8 {
        i
    } else if i < 13 {
        i - 1
    } else if i < 18 {
        i - 2
    } else if i < 23 {
        i - 3
    } else {
        i - 4
    }
}

/// The lower-case hyphenated text of a UUID, as the `uuid` crate's `Display` writes it:
/// its 32 hex digits, most significant first, in groups of 8, 4, 4, 4 and 12 joined by
/// `-`.
#[verifier::opaque]
pub open spec fn uuid_text(id: u128) -> Seq<char> {
    Seq::new(
        36,
        |i: int|
            if i == 8 || i == 13 || i == 18 || i == 23 {
                '-'
            } else {
                hex_lower(uuid_nibble(id, uuid_digit_at(i)))
            },
    )
}

/// Calls `uuid::Uuid::new_v5` on the UUID of `namespace` and the UTF-8 bytes of `name`.
/// Trusted: the result depends on the two arguments alone, and is named `uuid_v5`.
#[verifier::external_body]
pub fn new_v5(namespace: u128, name: &str) -> (r: u128)
    ensures
        r == uuid_v5(namespace, name@),
{
    uuid::Uuid::new_v5(&uuid::Uuid::from_u128(namespace), name.as_bytes()).as_u128()
}

/// Calls `uuid::Uuid::new_v4`. The random source decides the id; what every outcome
/// has is what `new_v4` sets on the random bits: the version nibble 4 and the RFC
/// variant bits `10`.
#[verifier::external_body]
pub fn new_v4() -> (r: u128)
    ensures
        (r >> 76u128) & 0xfu128 == 4u128,
        (r >> 62u128) & 3u128 == 2u128,
{
    uuid::Uuid::new_v4().as_u128()
}

/// Calls `Display` of `uuid::Uuid` (through `to_string`). Trusted: the text is the id's
/// lower-case hyphenated hex text.
#[verifier::external_body]
pub fn uuid_to_text(id: u128) -> (r: String)
    ensures
        r@ == uuid_text(id),
{
    uuid::Uuid::from_u128(id).to_string()
}

/// What `char::to_uppercase` yields for `c`: its Unicode upper-case mapping, one or
/// more characters.
pub uninterp spec fn char_uppercase(c: char) -> Seq<char>;

/// Calls `char::to_uppercase` and collects what it yields. Trusted: the characters
/// depend on `c` alone, and are named `char_uppercase`.
#[verifier::external_body]
pub fn char_to_uppercase(c: char) -> (r: String)
    ensures
        r@ == char_uppercase(c),
{
    c.to_uppercase().collect::<String>()
}

/// Calls `chrono::Utc::now` and reads the instant's seconds and nanoseconds. The clock
/// decides the result, so nothing is claimed of it.
#[verifier::external_body]
pub fn utc_now() -> (r: UtcTimestamp) {
    let now = chrono::Utc::now();
    UtcTimestamp { secs: now.timestamp(), nanos: now.timestamp_subsec_nanos() }
}

/// Whether chrono's date range holds the instant `secs` seconds after the Unix epoch:
/// from the first second of January 1 of its first year (-262143) to the last second of
/// December 31 of its last year (262142).
pub open spec fn chrono_timestamp_in_range(secs: i64) -> bool {
    -8_334_601_228_800 <= secs <= 8_210_266_876_799
}

/// Calls `chrono::DateTime::<Utc>::from_timestamp(secs, 0)`. Trusted: it gives the
/// instant `secs` whole seconds after the epoch exactly when chrono's date range holds
/// it, and nothing otherwise.
#[verifier::external_body]
pub fn timestamp_from_secs(secs: i64) -> (r: Option<UtcTimestamp>)
    ensures
        match r {
            Some(t) => t.secs == secs && t.nanos == 0 && chrono_timestamp_in_range(secs),
            None => !chrono_timestamp_in_range(secs),
        },
{
    match chrono::DateTime::<chrono::Utc>::from_timestamp(secs, 0) {
        Some(d) => Some(UtcTimestamp { secs: d.timestamp(), nanos: d.timestamp_subsec_nanos() }),
        None => None,
    }
}

} // verus!
