//! Timeouts.

use crate::binary64::Binary64;
use crate::error::ValueError;
use vstd::prelude::*;

verus! {

/// A span of time: a number of seconds that is finite, not below zero, and
/// below two to the power of sixty-four.
#[derive(Clone, Copy, Debug)]
pub struct Timeout {
    secs: Binary64,
}

impl View for Timeout {
    type V = Binary64;

    /// The number of seconds.
    closed spec fn view(&self) -> Binary64 {
        self.secs
    }
}

impl Timeout {
    #[verifier::type_invariant]
    spec fn valid(self) -> bool {
        acceptable(self@) && self@.below_two_pow_64()
    }

    /// The number of seconds.
    pub fn secs(&self) -> (secs: Binary64)
        ensures
            secs == self@,
            acceptable(secs),
            secs.below_two_pow_64(),
    {
        proof {
            use_type_invariant(self);
        }
        self.secs
    }

    /// Five seconds: how long cancelled work is waited for at shutdown.
    pub fn cancel_grace() -> (timeout: Timeout)
        ensures
            timeout@ == (Binary64 { bits: 0x4014_0000_0000_0000 }),
    {
        Timeout { secs: Binary64 { bits: 0x4014_0000_0000_0000 } }
    }
}

/// The numbers of seconds that are accepted as a timeout.
pub open spec fn acceptable(secs: Binary64) -> bool {
    secs.finite_non_negative()
}

/// The numbers of seconds that a call may be made with: those that are refused
/// and those that a span of time can hold, which ends at two to the power of
/// sixty-four seconds.
pub open spec fn representable(secs: Binary64) -> bool {
    acceptable(secs) ==> secs.below_two_pow_64()
}

/// Whether a span of time can hold a number of seconds, if it is accepted.
pub fn is_representable(secs: Binary64) -> (yes: bool)
    ensures
        yes == representable(secs),
{
    !secs.is_finite_non_negative() || secs.is_below_two_pow_64()
}

/// A timeout of this many seconds.
pub fn parse_timeout_secs(secs: Binary64) -> (timeout: Result<Timeout, ValueError>)
    requires
        representable(secs),
    ensures
        timeout is Ok <==> acceptable(secs),
        timeout matches Ok(t) ==> t@ == secs,
        timeout matches Err(e) ==> e == ValueError::Timeout,
{
    if !secs.is_finite_non_negative() {
        return Err(ValueError::Timeout);
    }
    Ok(Timeout { secs })
}

/// A timeout, where one is given.
pub fn parse_optional_timeout(secs: Option<Binary64>) -> (timeout: Result<
    Option<Timeout>,
    ValueError,
>)
    requires
        secs matches Some(s) ==> representable(s),
    ensures
        timeout is Ok <==> optional_acceptable(secs),
        timeout matches Ok(t) ==> optional_secs(t) == secs,
        timeout matches Ok(t) ==> (t is Some <==> secs is Some) && (t matches Some(t) ==> Some(t@)
            == secs),
        timeout matches Err(e) ==> e == ValueError::Timeout,
{
    match secs {
        None => Ok(None),
        Some(secs) => match parse_timeout_secs(secs) {
            Ok(timeout) => Ok(Some(timeout)),
            Err(error) => Err(error),
        },
    }
}

/// No timeout, or an acceptable one.
pub open spec fn optional_acceptable(secs: Option<Binary64>) -> bool {
    secs matches Some(s) ==> acceptable(s)
}

/// The number of seconds of a timeout, where there is one.
pub open spec fn optional_secs(timeout: Option<Timeout>) -> Option<Binary64> {
    match timeout {
        Some(t) => Some(t@),
        None => None,
    }
}

/// Which numbers of seconds are accepted, by their bits: those from zero up to
/// the first infinity, and negative zero. All of them can be asked for, but for
/// the finite ones from two to the power of sixty-four up.
pub proof fn law_timeouts_accepted(secs: Binary64)
    ensures
        acceptable(secs) <==> secs.bits < 0x7ff0_0000_0000_0000 || secs.bits
            == 0x8000_0000_0000_0000,
        representable(secs) <==> !(0x43f0_0000_0000_0000 <= secs.bits < 0x7ff0_0000_0000_0000),
        secs.finite() ==> (acceptable(secs) <==> secs.units() >= 0),
{
    if secs.finite() {
        crate::binary64::law_non_negative_by_value(secs);
    }
}

/// A timeout that is not given is accepted and stays away; one that is given is
/// judged by itself, and keeps its seconds.
pub proof fn law_optional_timeouts(secs: Binary64, timeout: Timeout)
    ensures
        optional_acceptable(None),
        optional_acceptable(Some(secs)) <==> acceptable(secs),
        optional_secs(None) is None,
        optional_secs(Some(timeout)) == Some(timeout@),
{
}

} // verus!
