use rust_totp::hotp::HashType;
use rust_totp::totp::{generate_counter, generate_otp, generate_otp_at, TotpError};

const SECRET_SHA1: &[u8] = b"12345678901234567890";
const SECRET_SHA256: &[u8] = b"12345678901234567890123456789012";
const SECRET_SHA512: &[u8] = b"1234567890123456789012345678901234567890123456789012345678901234";

#[test]
fn rfc6238_vectors_at_59() {
    assert_eq!(generate_otp_at(SECRET_SHA1, 59, 30, 0, 8, HashType::Sha1), Ok(94287082));
    assert_eq!(generate_otp_at(SECRET_SHA256, 59, 30, 0, 8, HashType::Sha256), Ok(46119246));
    assert_eq!(generate_otp_at(SECRET_SHA512, 59, 30, 0, 8, HashType::Sha512), Ok(90693936));
}

#[test]
fn rfc6238_vectors_at_1111111109() {
    assert_eq!(generate_otp_at(SECRET_SHA1, 1111111109, 30, 0, 8, HashType::Sha1), Ok(7081804));
    assert_eq!(generate_otp_at(SECRET_SHA256, 1111111109, 30, 0, 8, HashType::Sha256), Ok(68084774));
    assert_eq!(generate_otp_at(SECRET_SHA512, 1111111109, 30, 0, 8, HashType::Sha512), Ok(25091201));
}

#[test]
fn counter_is_big_endian_window_number() {
    assert_eq!(generate_counter(59, 30, 0), Ok([0, 0, 0, 0, 0, 0, 0, 1]));
    assert_eq!(generate_counter(100, 30, 10), Ok([0, 0, 0, 0, 0, 0, 0, 3]));
    assert_eq!(
        generate_counter(0x0102_0304_0506_0708, 1, 0),
        Ok([1, 2, 3, 4, 5, 6, 7, 8])
    );
    assert_eq!(generate_counter(u64::MAX, 1, 0), Ok([0xff; 8]));
    assert_eq!(generate_counter(5, 30, 5), Ok([0; 8]));
}

#[test]
fn zero_time_step_is_an_error() {
    assert_eq!(generate_counter(59, 0, 0), Err(TotpError::ZeroTimeStep));
    assert_eq!(
        generate_otp_at(SECRET_SHA1, 59, 0, 0, 6, HashType::Sha1),
        Err(TotpError::ZeroTimeStep)
    );
    assert_eq!(generate_otp(SECRET_SHA1, 0, 0, 6, HashType::Sha1), Err(TotpError::ZeroTimeStep));
}

#[test]
fn offset_after_now_is_an_error() {
    assert_eq!(generate_counter(10, 30, 11), Err(TotpError::OffsetAfterNow));
    assert_eq!(
        generate_otp_at(SECRET_SHA1, 10, 30, 11, 6, HashType::Sha1),
        Err(TotpError::OffsetAfterNow)
    );
}

#[test]
fn same_window_same_code() {
    let a = generate_otp_at(SECRET_SHA1, 60, 30, 0, 6, HashType::Sha1);
    let b = generate_otp_at(SECRET_SHA1, 89, 30, 0, 6, HashType::Sha1);
    assert_eq!(a, b);
    let c = generate_otp_at(SECRET_SHA1, 90, 30, 0, 6, HashType::Sha1);
    assert_ne!(a, c);
}

#[test]
fn offset_shifts_the_window() {
    let a = generate_otp_at(SECRET_SHA1, 59, 30, 0, 8, HashType::Sha1);
    let b = generate_otp_at(SECRET_SHA1, 159, 30, 100, 8, HashType::Sha1);
    assert_eq!(a, b);
}

#[test]
fn current_time_code_is_in_range() {
    let r = generate_otp(SECRET_SHA1, 30, 0, 6, HashType::Sha1);
    match r {
        Ok(v) => assert!(v < 1_000_000),
        Err(e) => panic!("unexpected error {:?}", e),
    }
}

#[test]
fn too_many_digits_is_an_error() {
    assert_eq!(
        generate_otp_at(SECRET_SHA1, 59, 30, 0, 20, HashType::Sha1),
        Err(TotpError::TooManyDigits)
    );
    assert_eq!(generate_otp(SECRET_SHA1, 30, 0, 20, HashType::Sha1), Err(TotpError::TooManyDigits));
    assert_eq!(
        generate_otp_at(SECRET_SHA1, 59, 30, 0, 19, HashType::Sha1),
        Ok(1094287082)
    );
}

#[test]
fn errors_come_in_order() {
    assert_eq!(
        generate_otp_at(SECRET_SHA1, 10, 0, 11, 20, HashType::Sha1),
        Err(TotpError::ZeroTimeStep)
    );
    assert_eq!(
        generate_otp_at(SECRET_SHA1, 10, 30, 11, 20, HashType::Sha1),
        Err(TotpError::TooManyDigits)
    );
    assert_eq!(generate_otp(SECRET_SHA1, 0, 0, 20, HashType::Sha1), Err(TotpError::ZeroTimeStep));
}
