//! Time-based one-time passwords: the counter is the number of whole time
//! steps since `time_offset`, fed to the HOTP derivation.
use crate::hotp::{generate_otp as hotp_generate_otp, hotp_value, pow10, HashType};
use byteorder::{BigEndian, ByteOrder};
use std::time::{SystemTime, UNIX_EPOCH};
use vstd::arithmetic::div_mod::lemma_fundamental_div_mod_converse;
use vstd::prelude::*;

verus! {

/// Why no TOTP code could be derived.
#[derive(Clone, Copy, Debug, PartialEq, Eq, Structural)]
pub enum TotpError {
    /// The time step is zero.
    ZeroTimeStep,
    /// More than 19 digits were asked for: `10^digits` would not fit in a `u64`.
    TooManyDigits,
    /// The offset lies after the current time.
    OffsetAfterNow,
    /// The system clock reads before the Unix epoch.
    ClockBeforeEpoch,
}

/// `n` as eight bytes, most significant first.
pub open spec fn be_bytes_u64(n: u64) -> Seq<u8> {
    seq![
        (n / 0x100_0000_0000_0000) as u8,
        (n / 0x1_0000_0000_0000 % 0x100) as u8,
        (n / 0x100_0000_0000 % 0x100) as u8,
        (n / 0x1_0000_0000 % 0x100) as u8,
        (n / 0x100_0000 % 0x100) as u8,
        (n / 0x1_0000 % 0x100) as u8,
        (n / 0x100 % 0x100) as u8,
        (n % 0x100) as u8,
    ]
}

/// The number of whole time steps from `time_offset` to `now`.
pub open spec fn time_window(now: u64, time_step: u64, time_offset: u64) -> u64 {
    ((now - time_offset) / (time_step as int)) as u64
}

/// The TOTP code at `now`: the HOTP code of the time window's counter.
pub open spec fn totp_value(
    secret: Seq<u8>,
    now: u64,
    time_step: u64,
    time_offset: u64,
    digits: nat,
    alg: HashType,
) -> nat {
    hotp_value(secret, be_bytes_u64(time_window(now, time_step, time_offset)), digits, alg)
}

/// Relies on byteorder's BigEndian::write_u64, which writes `n` into the
/// first eight bytes of the buffer, most significant byte first.
#[verifier::external_body]
fn be_bytes(n: u64) -> (r: [u8; 8])
    ensures
        r@ == be_bytes_u64(n),
{
    let mut buf = [0u8; 8];
    BigEndian::write_u64(&mut buf, n);
    buf
}

/// Relies on std's SystemTime::now and duration_since(UNIX_EPOCH): the whole
/// seconds since the Unix epoch, None when the clock reads before it.
#[verifier::external_body]
fn unix_time_secs() -> (r: Option<u64>) {
    SystemTime::now().duration_since(UNIX_EPOCH).ok().map(|d| d.as_secs())
}

/// The eight-byte counter of the time window that holds `now`; a zero step
/// and an offset after `now` are refused.
pub fn generate_counter(now: u64, time_step: u64, time_offset: u64) -> (r: Result<
    [u8; 8],
    TotpError,
>)
    ensures
        time_step == 0 ==> r == Err::<[u8; 8], TotpError>(TotpError::ZeroTimeStep),
        time_step != 0 && now < time_offset ==> r == Err::<[u8; 8], TotpError>(
            TotpError::OffsetAfterNow,
        ),
        time_step != 0 && now >= time_offset ==> r is Ok && r->Ok_0@ == be_bytes_u64(
            time_window(now, time_step, time_offset),
        ),
{
    if time_step == 0 {
        return Err(TotpError::ZeroTimeStep);
    }
    if now < time_offset {
        return Err(TotpError::OffsetAfterNow);
    }
    let counter: u64 = (now - time_offset) / time_step;
    Ok(be_bytes(counter))
}

/// The TOTP code at the given time `now` (seconds since the Unix epoch).
/// A zero step, more than 19 digits (whose modulus would not fit in a `u64`)
/// and an offset after `now` are refused, in that order.
pub fn generate_otp_at(
    secret: &[u8],
    now: u64,
    time_step: u64,
    time_offset: u64,
    digits: u32,
    digest: HashType,
) -> (r: Result<u64, TotpError>)
    ensures
        time_step == 0 ==> r == Err::<u64, TotpError>(TotpError::ZeroTimeStep),
        time_step != 0 && digits > 19 ==> r == Err::<u64, TotpError>(TotpError::TooManyDigits),
        time_step != 0 && digits <= 19 && now < time_offset ==> r == Err::<u64, TotpError>(
            TotpError::OffsetAfterNow,
        ),
        time_step != 0 && digits <= 19 && now >= time_offset ==> r is Ok && r->Ok_0
            == totp_value(secret@, now, time_step, time_offset, digits as nat, digest),
        r is Ok ==> r->Ok_0 < pow10(digits as nat),
{
    if time_step == 0 {
        return Err(TotpError::ZeroTimeStep);
    }
    if digits > 19 {
        return Err(TotpError::TooManyDigits);
    }
    match generate_counter(now, time_step, time_offset) {
        Ok(counter) => Ok(hotp_generate_otp(secret, &counter, digits, digest)),
        Err(e) => Err(e),
    }
}

/// The TOTP code at the current time of the system clock. A zero step and
/// more than 19 digits are refused before the clock is read.
pub fn generate_otp(
    secret: &[u8],
    time_step: u64,
    time_offset: u64,
    digits: u32,
    digest: HashType,
) -> (r: Result<u64, TotpError>)
    ensures
        r == Err::<u64, TotpError>(TotpError::ZeroTimeStep) <==> time_step == 0,
        r == Err::<u64, TotpError>(TotpError::TooManyDigits) <==> (time_step != 0 && digits
            > 19),
        r == Err::<u64, TotpError>(TotpError::OffsetAfterNow) ==> time_step != 0 && digits <= 19,
        r == Err::<u64, TotpError>(TotpError::ClockBeforeEpoch) ==> time_step != 0 && digits
            <= 19,
        r is Ok ==> r->Ok_0 < pow10(digits as nat),
        r is Ok ==> exists|now: u64|
            now >= time_offset && r->Ok_0 == #[trigger] totp_value(
                secret@,
                now,
                time_step,
                time_offset,
                digits as nat,
                digest,
            ),
{
    if time_step == 0 {
        return Err(TotpError::ZeroTimeStep);
    }
    if digits > 19 {
        return Err(TotpError::TooManyDigits);
    }
    match unix_time_secs() {
        Some(now) => generate_otp_at(secret, now, time_step, time_offset, digits, digest),
        None => Err(TotpError::ClockBeforeEpoch),
    }
}

/// Two times in the same time window, the `k`-th step after `time_offset`,
/// give the same TOTP code.
pub proof fn lemma_same_window_same_code(
    secret: Seq<u8>,
    now1: u64,
    now2: u64,
    time_step: u64,
    time_offset: u64,
    k: nat,
    digits: nat,
    alg: HashType,
)
    requires
        time_step > 0,
        time_offset + k * time_step <= now1 < time_offset + (k + 1) * time_step,
        time_offset + k * time_step <= now2 < time_offset + (k + 1) * time_step,
    ensures
        time_window(now1, time_step, time_offset) == k,
        totp_value(secret, now1, time_step, time_offset, digits, alg) == totp_value(
            secret,
            now2,
            time_step,
            time_offset,
            digits,
            alg,
        ),
{
    assert((k + 1) * time_step == k * time_step + time_step) by (nonlinear_arith);
    lemma_fundamental_div_mod_converse(
        now1 - time_offset,
        time_step as int,
        k as int,
        now1 - time_offset - k * time_step,
    );
    lemma_fundamental_div_mod_converse(
        now2 - time_offset,
        time_step as int,
        k as int,
        now2 - time_offset - k * time_step,
    );
}

} // verus!
