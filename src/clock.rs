use vstd::prelude::*;

verus! {

#[verifier::external_type_specification]
#[verifier::external_body]
pub struct ExSystemTime(std::time::SystemTime);

#[verifier::external_type_specification]
#[verifier::external_body]
pub struct ExSystemTimeError(std::time::SystemTimeError);

/// Relies on std::time::SystemTime::now: the system clock's current reading.
/// Nothing is promised of its value.
pub assume_specification[ std::time::SystemTime::now ]() -> std::time::SystemTime;

/// Relies on std::time::SystemTimeError::duration: how far the reading lay
/// before the reference time.
pub assume_specification[ std::time::SystemTimeError::duration ](
    e: &std::time::SystemTimeError,
) -> core::time::Duration;

/// Relies on core::time::Duration::as_millis: the whole milliseconds of a duration.
pub assume_specification[ core::time::Duration::as_millis ](d: &core::time::Duration) -> u128;

/// Relies on std::time::SystemTime::duration_since, against UNIX_EPOCH: how
/// far a reading lies after the epoch, or, as the error, before it. It does
/// not panic.
#[verifier::external_body]
fn since_epoch(t: &std::time::SystemTime) -> (r: Result<
    core::time::Duration,
    std::time::SystemTimeError,
>) {
    t.duration_since(std::time::UNIX_EPOCH)
}

/// A time in milliseconds since the Unix epoch, from a count after the epoch
/// (`Ok`) or before it (`Err`), saturating at the bounds of `i64`.
pub fn millis_from_epoch_offset(offset: Result<u128, u128>) -> (r: i64)
    ensures
        r == (match offset {
            Ok(m) => clamp_i64(m as int),
            Err(m) => clamp_i64(-(m as int)),
        }),
{
    match offset {
        Ok(m) => {
            if m > i64::MAX as u128 {
                i64::MAX
            } else {
                m as i64
            }
        },
        Err(m) => {
            if m > 0x8000_0000_0000_0000u128 {
                i64::MIN
            } else {
                (0i128 - m as i128) as i64
            }
        },
    }
}

/// The current wall-clock time in milliseconds since the Unix epoch, negative
/// for a clock set before it. It never panics; nothing is promised of its value.
pub(crate) fn now_millis() -> (r: i64) {
    let reading = std::time::SystemTime::now();
    let offset = match since_epoch(&reading) {
        Ok(d) => Ok(d.as_millis()),
        Err(e) => Err(e.duration().as_millis()),
    };
    millis_from_epoch_offset(offset)
}

/// The nearest value to `x` that an `i64` can hold.
pub open spec fn clamp_i64(x: int) -> int {
    if x < i64::MIN {
        i64::MIN as int
    } else if x > i64::MAX {
        i64::MAX as int
    } else {
        x
    }
}

/// Narrows a wide intermediate time value to an `i64`, saturating at its bounds.
pub fn saturate_i64(x: i128) -> (r: i64)
    ensures
        r == clamp_i64(x as int),
{
    if x < i64::MIN as i128 {
        i64::MIN
    } else if x > i64::MAX as i128 {
        i64::MAX
    } else {
        x as i64
    }
}

/// The nearest value to `x` that a `usize` can hold, for a count that cannot be negative.
pub open spec fn clamp_usize(x: int) -> int {
    if x > usize::MAX {
        usize::MAX as int
    } else {
        x
    }
}

} // verus!
