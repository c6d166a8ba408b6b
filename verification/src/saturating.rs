use vstd::prelude::*;
use std::ops::Add;

verus! {

/// A `u16` whose addition saturates at `u16::MAX` instead of overflowing.
///
/// The wrapper converts from `u16`, `u8` and references to either, adds with
/// a right-hand side of the same four shapes, and compares with another
/// `SaturatingU16` or with a bare `u16`.
#[derive(Debug, Clone, Copy, PartialEq, Eq, Structural)]
pub struct SaturatingU16 {
    pub value: u16,
}

/// The sum of two `u16` values, capped at `u16::MAX`.
pub open spec fn saturated_sum(a: u16, b: u16) -> u16 {
    if a + b > u16::MAX {
        u16::MAX
    } else {
        (a + b) as u16
    }
}

impl From<u16> for SaturatingU16 {
    /// Wraps the given value unchanged.
    fn from(value: u16) -> (r: Self) {
        SaturatingU16 { value }
    }
}

impl vstd::std_specs::convert::FromSpecImpl<u16> for SaturatingU16 {
    open spec fn obeys_from_spec() -> bool {
        true
    }

    open spec fn from_spec(value: u16) -> Self {
        SaturatingU16 { value }
    }
}

impl From<u8> for SaturatingU16 {
    /// Widens the given value to a `u16` and wraps it.
    fn from(value: u8) -> (r: Self) {
        SaturatingU16 { value: value as u16 }
    }
}

impl vstd::std_specs::convert::FromSpecImpl<u8> for SaturatingU16 {
    open spec fn obeys_from_spec() -> bool {
        true
    }

    open spec fn from_spec(value: u8) -> Self {
        SaturatingU16 { value: value as u16 }
    }
}

impl From<&u16> for SaturatingU16 {
    /// Copies the referenced value and wraps it.
    fn from(value: &u16) -> (r: Self) {
        SaturatingU16 { value: *value }
    }
}

impl vstd::std_specs::convert::FromSpecImpl<&u16> for SaturatingU16 {
    open spec fn obeys_from_spec() -> bool {
        true
    }

    open spec fn from_spec(value: &u16) -> Self {
        SaturatingU16 { value: *value }
    }
}

impl From<&u8> for SaturatingU16 {
    /// Copies the referenced value, widens it to a `u16` and wraps it.
    fn from(value: &u8) -> (r: Self) {
        SaturatingU16 { value: *value as u16 }
    }
}

impl vstd::std_specs::convert::FromSpecImpl<&u8> for SaturatingU16 {
    open spec fn obeys_from_spec() -> bool {
        true
    }

    open spec fn from_spec(value: &u8) -> Self {
        SaturatingU16 { value: *value as u16 }
    }
}

impl Add for SaturatingU16 {
    type Output = SaturatingU16;

    /// Adds two wrapped values; a sum past `u16::MAX` stops there.
    fn add(self, rhs: SaturatingU16) -> (r: SaturatingU16) {
        SaturatingU16 { value: self.value.saturating_add(rhs.value) }
    }
}

impl vstd::std_specs::ops::AddSpecImpl for SaturatingU16 {
    open spec fn obeys_add_spec() -> bool {
        true
    }

    open spec fn add_req(self, rhs: SaturatingU16) -> bool {
        true
    }

    open spec fn add_spec(self, rhs: SaturatingU16) -> SaturatingU16 {
        SaturatingU16 { value: saturated_sum(self.value, rhs.value) }
    }
}

impl Add<&SaturatingU16> for SaturatingU16 {
    type Output = SaturatingU16;

    /// Adds a referenced wrapped value; a sum past `u16::MAX` stops there.
    fn add(self, rhs: &SaturatingU16) -> (r: SaturatingU16) {
        SaturatingU16 { value: self.value.saturating_add(rhs.value) }
    }
}

impl vstd::std_specs::ops::AddSpecImpl<&SaturatingU16> for SaturatingU16 {
    open spec fn obeys_add_spec() -> bool {
        true
    }

    open spec fn add_req(self, rhs: &SaturatingU16) -> bool {
        true
    }

    open spec fn add_spec(self, rhs: &SaturatingU16) -> SaturatingU16 {
        SaturatingU16 { value: saturated_sum(self.value, rhs.value) }
    }
}

impl Add<u16> for SaturatingU16 {
    type Output = SaturatingU16;

    /// Adds a bare `u16`; a sum past `u16::MAX` stops there.
    fn add(self, rhs: u16) -> (r: SaturatingU16) {
        SaturatingU16 { value: self.value.saturating_add(rhs) }
    }
}

impl vstd::std_specs::ops::AddSpecImpl<u16> for SaturatingU16 {
    open spec fn obeys_add_spec() -> bool {
        true
    }

    open spec fn add_req(self, rhs: u16) -> bool {
        true
    }

    open spec fn add_spec(self, rhs: u16) -> SaturatingU16 {
        SaturatingU16 { value: saturated_sum(self.value, rhs) }
    }
}

impl Add<&u16> for SaturatingU16 {
    type Output = SaturatingU16;

    /// Adds a referenced `u16`; a sum past `u16::MAX` stops there.
    fn add(self, rhs: &u16) -> (r: SaturatingU16) {
        SaturatingU16 { value: self.value.saturating_add(*rhs) }
    }
}

impl vstd::std_specs::ops::AddSpecImpl<&u16> for SaturatingU16 {
    open spec fn obeys_add_spec() -> bool {
        true
    }

    open spec fn add_req(self, rhs: &u16) -> bool {
        true
    }

    open spec fn add_spec(self, rhs: &u16) -> SaturatingU16 {
        SaturatingU16 { value: saturated_sum(self.value, *rhs) }
    }
}

impl PartialEq<u16> for SaturatingU16 {
    /// Compares the wrapped value with a bare `u16`.
    fn eq(&self, other: &u16) -> (r: bool) {
        self.value == *other
    }
}

impl vstd::std_specs::cmp::PartialEqSpecImpl<u16> for SaturatingU16 {
    open spec fn obeys_eq_spec() -> bool {
        true
    }

    open spec fn eq_spec(&self, other: &u16) -> bool {
        self.value == *other
    }
}

} // verus!
