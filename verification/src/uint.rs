//! Unsigned integers that a JSON number carries without loss.

use vstd::prelude::*;

verus! {

/// The largest integer that an IEEE 754 double represents exactly: 2^53 - 1.
pub const MAX_SAFE_UINT: u64 = 0x001F_FFFF_FFFF_FFFF;

/// Narrows a `u64` with `js_int::UInt::new` and hands the accepted value back as a `u64`.
///
/// `UInt::new` returns `Some` exactly for values up to `js_int::MAX_SAFE_UINT`, which is
/// 2^53 - 1, and the `UInt` it returns converts back to the value it was made from.
#[verifier::external_body]
fn narrow_u64(value: u64) -> (r: Option<u64>)
    ensures
        r == (if value <= MAX_SAFE_UINT { Some(value) } else { None::<u64> }),
{
    js_int::UInt::new(value).map(u64::from)
}

/// Narrows a `u128` with `js_int::UInt::try_from` and hands the accepted value back as a `u64`.
///
/// The conversion succeeds exactly for values up to `js_int::MAX_SAFE_UINT`, which is
/// 2^53 - 1, and the `UInt` it returns converts back to the value it was made from.
#[verifier::external_body]
fn narrow_u128(value: u128) -> (r: Option<u64>)
    ensures
        r == (if value <= MAX_SAFE_UINT { Some(value as u64) } else { None::<u64> }),
{
    js_int::UInt::try_from(value).ok().map(u64::from)
}

/// An unsigned integer of at most `MAX_SAFE_UINT`.
#[derive(Clone, Copy, Debug, PartialEq, Eq)]
pub struct SafeUInt {
    value: u64,
}

impl View for SafeUInt {
    type V = nat;

    closed spec fn view(&self) -> nat {
        self.value as nat
    }
}

impl SafeUInt {
    #[verifier::type_invariant]
    spec fn in_range(self) -> bool {
        self.value <= MAX_SAFE_UINT
    }

    /// Whether the integer is within the range that the type stands for.
    pub open spec fn wf(self) -> bool {
        self@ <= MAX_SAFE_UINT
    }

    /// Makes a `SafeUInt` of `value`, or `None` where `value` exceeds `MAX_SAFE_UINT`.
    pub fn new(value: u64) -> (r: Option<SafeUInt>)
        ensures
            value <= MAX_SAFE_UINT ==> r.is_some() && r.unwrap()@ == value && r.unwrap().wf(),
            value > MAX_SAFE_UINT ==> r.is_none(),
    {
        match narrow_u64(value) {
            Some(v) => Some(SafeUInt { value: v }),
            None => None,
        }
    }

    /// Makes a `SafeUInt` of `value`, or `None` where `value` exceeds `MAX_SAFE_UINT`.
    pub fn from_wide(value: u128) -> (r: Option<SafeUInt>)
        ensures
            value <= MAX_SAFE_UINT ==> r.is_some() && r.unwrap()@ == value && r.unwrap().wf(),
            value > MAX_SAFE_UINT ==> r.is_none(),
    {
        match narrow_u128(value) {
            Some(v) => Some(SafeUInt { value: v }),
            None => None,
        }
    }

    /// The integer as a `u64`.
    pub fn get(&self) -> (r: u64)
        ensures
            r == self@,
            self.wf(),
    {
        proof {
            use_type_invariant(self);
        }
        self.value
    }
}

} // verus!
