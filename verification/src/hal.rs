//! Results of the vibrator service.

use vstd::prelude::*;
use crate::text::join2;

verus! {

/// The capabilities that the vibrator service knows.
pub const KNOWN_CAPS: u64 = 0x7ff;

/// A set of vibrator capabilities, one bit each.
#[derive(Clone, Copy, Debug, PartialEq, Eq, Structural)]
pub struct Caps {
    pub bits: u64,
}

impl Caps {
    /// The capabilities in `raw`; bits that stand for no capability are dropped.
    pub fn from_bits_truncate(raw: u64) -> (caps: Caps)
        ensures
            caps.bits == raw & KNOWN_CAPS,
    {
        Caps { bits: raw & KNOWN_CAPS }
    }

    /// Whether every capability of `other` is in this set.
    pub fn contains(&self, other: Caps) -> (yes: bool)
        ensures
            yes == (self.bits & other.bits == other.bits),
    {
        self.bits & other.bits == other.bits
    }
}

/// What a return code of the service means; nothing for zero.
pub open spec fn rc_meaning(rc: i32) -> Option<Seq<char>> {
    if rc == 0 {
        None
    } else if rc == -1 {
        Some("service unavailable"@)
    } else if rc == -2 {
        Some("invalid binder client"@)
    } else if rc == -3 {
        Some("binder call failed"@)
    } else if rc == -22 {
        Some("invalid argument"@)
    } else {
        Some("unexpected error code "@ + crate::text::signed_decimal(rc as int))
    }
}

/// Turns a return code of the service into a result: zero is success,
/// every other code an error worded as the context, a colon and the
/// meaning of the code.
pub fn rc_to_result(rc: i32, context: &str) -> (out: Result<(), String>)
    ensures
        match rc_meaning(rc) {
            None => out is Ok,
            Some(meaning) => out matches Err(e) && e@ == context@ + ": "@ + meaning,
        },
{
    if rc == 0 {
        return Ok(());
    }
    let meaning = if rc == -1 {
        String::from_str("service unavailable")
    } else if rc == -2 {
        String::from_str("invalid binder client")
    } else if rc == -3 {
        String::from_str("binder call failed")
    } else if rc == -22 {
        String::from_str("invalid argument")
    } else {
        let digits = crate::text::signed_decimal_string(rc);
        join2("unexpected error code ", digits.as_str())
    };
    let mut out = join2(context, ": ");
    out.append(meaning.as_str());
    Err(out)
}

/// The duration of a vibration as the service takes it, if it fits.
pub fn vibrate_duration(duration_ms: u32) -> (out: Result<i32, String>)
    ensures
        duration_ms <= i32::MAX ==> out == Ok::<i32, String>(duration_ms as i32),
        duration_ms > i32::MAX ==> (out matches Err(e) && e@ == "duration exceeds i32::MAX ms"@),
{
    if duration_ms <= 0x7fff_ffff {
        Ok(duration_ms as i32)
    } else {
        Err(String::from_str("duration exceeds i32::MAX ms"))
    }
}

/// Asks the service for its capabilities. There is no service off the
/// device, so this always fails.
pub fn capabilities() -> (out: Result<Caps, String>)
    ensures
        out matches Err(e) && e@
            == "hal_vibrator::capabilities is only available on Android targets"@,
{
    Err(String::from_str("hal_vibrator::capabilities is only available on Android targets"))
}

/// Asks the service to vibrate. There is no service off the device, so
/// this always fails.
pub fn vibrate(duration_ms: u32) -> (out: Result<(), String>)
    ensures
        out matches Err(e) && e@ == "hal_vibrator::vibrate is only available on Android targets"@,
{
    Err(String::from_str("hal_vibrator::vibrate is only available on Android targets"))
}

} // verus!
