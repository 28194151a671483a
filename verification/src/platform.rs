//! The clock and identifier sources the client reads: wall-clock time,
//! monotonic instants, and freshly generated version-7 UUIDs.

use vstd::prelude::*;
use std::time::{Duration, Instant, SystemTime};

verus! {

#[verifier::external_type_specification]
#[verifier::external_body]
pub struct ExSystemTime(SystemTime);

#[verifier::external_type_specification]
#[verifier::external_body]
pub struct ExInstant(Instant);

/// `std::time::SystemTime::now`: the current wall-clock time. Nothing is
/// promised about the value.
#[verifier::external_body]
pub(crate) fn system_now() -> SystemTime {
    SystemTime::now()
}

/// `SystemTime::duration_since(UNIX_EPOCH)`: the time elapsed since the Unix
/// epoch, or `None` when the clock reads earlier than the epoch.
#[verifier::external_body]
pub(crate) fn since_unix_epoch(t: SystemTime) -> Option<Duration> {
    t.duration_since(std::time::UNIX_EPOCH).ok()
}

/// `Duration::as_secs`: the whole seconds of a duration.
#[verifier::external_body]
pub(crate) fn duration_whole_secs(d: Duration) -> u64 {
    d.as_secs()
}

/// The Unix time in whole seconds for what the clock gave: the seconds
/// elapsed since the epoch, or 0 when the clock read before it (`None`).
pub fn epoch_seconds(elapsed: Option<u64>) -> (s: u64)
    ensures
        s == match elapsed {
            Some(n) => n,
            None => 0,
        },
{
    match elapsed {
        Some(n) => n,
        None => 0,
    }
}

/// Seconds since the Unix epoch, 0 when the clock reads before it. The
/// value comes from the clock; see `epoch_seconds` for what is made of it.
pub fn unix_time_secs() -> u64 {
    let elapsed = match since_unix_epoch(system_now()) {
        Some(d) => Some(duration_whole_secs(d)),
        None => None,
    };
    epoch_seconds(elapsed)
}

/// `std::time::Instant::now`: the current monotonic instant. Nothing is
/// promised about the value.
#[verifier::external_body]
pub(crate) fn instant_now() -> Instant {
    Instant::now()
}

/// The version field (bits 76..80) of a UUID held as a big-endian `u128`.
pub open spec fn uuid_version(id: u128) -> u128 {
    (id >> 76u128) & 0xfu128
}

/// `Duration::as_millis`: the whole milliseconds of a duration.
#[verifier::external_body]
pub(crate) fn duration_whole_millis(d: Duration) -> u128 {
    d.as_millis()
}

/// `getrandom::fill` on ten bytes: the bytes it filled, or `None` when the
/// system's random source reported an error. Nothing is promised about the
/// bytes themselves.
#[verifier::external_body]
pub(crate) fn random_ten_bytes() -> Option<[u8; 10]> {
    let mut bytes = [0u8; 10];
    match getrandom::fill(&mut bytes) {
        Ok(()) => Some(bytes),
        Err(_) => None,
    }
}

/// The 128 bits of a version-7 UUID, most significant first: 48 bits of
/// Unix milliseconds, the version 7, four bits of `r0` and all of `r1`, the
/// RFC 4122 variant with six bits of `r2`, then 56 bits of `tail`.
pub open spec fn v7_layout(millis: u64, r0: u8, r1: u8, r2: u8, tail: u64) -> u128 {
    ((millis as u128 & 0xFFFF_FFFF_FFFFu128) << 80u128) | (0x7u128 << 76u128) | (((r0 & 0x0Fu8) as u128)
        << 72u128) | ((r1 as u128) << 64u128) | ((((r2 & 0x3Fu8) | 0x80u8) as u128) << 56u128) | (
    tail as u128 & 0xFF_FFFF_FFFF_FFFFu128)
}

/// Bytes 3 to 9 of `r`, read as a big-endian number.
pub open spec fn tail_bytes(r: Seq<u8>) -> u64 {
    ((r[3] as u64) << 48u64) | ((r[4] as u64) << 40u64) | ((r[5] as u64) << 32u64) | ((r[6] as u64)
        << 24u64) | ((r[7] as u64) << 16u64) | ((r[8] as u64) << 8u64) | (r[9] as u64)
}

/// The version-7 UUID for `millis` and the ten counter-and-random bytes `r`.
pub open spec fn v7_bits(millis: u64, r: Seq<u8>) -> u128 {
    v7_layout(millis, r[0], r[1], r[2], tail_bytes(r))
}

/// `uuid::Builder::from_unix_timestamp_millis`, then `into_uuid` and
/// `Uuid::as_u128`: the version-7 UUID laid out from the milliseconds and
/// the ten bytes as `v7_bits` says (uuid's `encode_unix_timestamp_millis`,
/// read back big-endian).
#[verifier::external_body]
pub(crate) fn uuid_v7_from(millis: u64, random: [u8; 10]) -> (id: u128)
    ensures
        id == v7_bits(millis, random@),
{
    uuid::Builder::from_unix_timestamp_millis(millis, &random).into_uuid().as_u128()
}

/// The UUID for what the clock and the random source gave: `None` when the
/// clock read before the Unix epoch (`elapsed_ms` is `None`), read more
/// milliseconds than 64 bits hold, or the random source failed (`random`
/// is `None`); otherwise the version-7 UUID of those milliseconds and bytes.
pub fn uuid_v7_at(elapsed_ms: Option<u128>, random: Option<[u8; 10]>) -> (id: Option<u128>)
    ensures
        id == match (elapsed_ms, random) {
            (Some(ms), Some(r)) => if ms <= u64::MAX {
                Some(v7_bits(ms as u64, r@))
            } else {
                None
            },
            _ => None,
        },
        id matches Some(v) ==> uuid_version(v) == 7,
{
    match (elapsed_ms, random) {
        (Some(ms), Some(r)) => {
            if ms <= u64::MAX as u128 {
                let id = uuid_v7_from(ms as u64, r);
                proof {
                    lemma_v7_layout_version(ms as u64, r@[0], r@[1], r@[2], tail_bytes(r@));
                }
                Some(id)
            } else {
                None
            }
        },
        _ => None,
    }
}

/// A fresh time-ordered UUID for the current time, built from the clock and
/// the system's random source; `None` when either fails (see `uuid_v7_at`).
pub fn fresh_uuid_v7() -> (id: Option<u128>)
    ensures
        id matches Some(v) ==> uuid_version(v) == 7,
{
    let elapsed = match since_unix_epoch(system_now()) {
        Some(d) => Some(duration_whole_millis(d)),
        None => None,
    };
    if elapsed.is_none() {
        return None;
    }
    uuid_v7_at(elapsed, random_ten_bytes())
}

/// The version field of the layout is 7 whatever the bytes.
pub proof fn lemma_v7_layout_version(millis: u64, r0: u8, r1: u8, r2: u8, tail: u64)
    ensures
        uuid_version(v7_layout(millis, r0, r1, r2, tail)) == 7,
{
    assert((((((millis as u128 & 0xFFFF_FFFF_FFFFu128) << 80u128) | (0x7u128 << 76u128) | (((r0
        & 0x0Fu8) as u128) << 72u128) | ((r1 as u128) << 64u128) | ((((r2 & 0x3Fu8) | 0x80u8) as u128)
        << 56u128) | (tail as u128 & 0xFF_FFFF_FFFF_FFFFu128)) >> 76u128) & 0xfu128) == 7)
        by (bit_vector);
}

/// A version-7 UUID is never the nil UUID.
pub proof fn lemma_v7_not_nil(id: u128)
    requires
        uuid_version(id) == 7,
    ensures
        id != 0,
{
    assert(((id >> 76u128) & 0xfu128) == 7 ==> id != 0) by (bit_vector);
}

} // verus!
