//! The device status bit-set.
//!
//! The driver builds the status register up one flag at a time while it
//! initialises the device; writing the empty set is the one operation that
//! requests a full device reset.

use vstd::prelude::*;

verus! {

/// The device has been noticed by the driver.
pub const ACKNOWLEDGE: u32 = 1;

/// The driver knows how to drive the device.
pub const DRIVER: u32 = 2;

/// The driver is ready and the device may be used.
pub const DRIVER_OK: u32 = 4;

/// Feature negotiation is finished and the driver's choice is latched.
pub const FEATURES_OK: u32 = 8;

/// The device has hit an error and needs to be reset.
pub const DEVICE_NEEDS_RESET: u32 = 64;

/// The driver has given up on the device.
pub const FAILED: u32 = 128;

/// A set of device status flags, written verbatim to the status register.
#[derive(Clone, Copy, Debug, PartialEq, Eq, Structural)]
pub struct DeviceStatus {
    bits: u32,
}

impl DeviceStatus {
    /// The raw register word this set is written as.
    pub closed spec fn spec_bits(self) -> u32 {
        self.bits
    }

    /// The empty set: what a freshly reset or freshly discovered device
    /// reports, and what a driver writes to request a reset.
    pub fn empty() -> (status: DeviceStatus)
        ensures
            status.spec_bits() == 0,
    {
        DeviceStatus { bits: 0 }
    }

    /// Builds a status set from a raw register word.
    pub fn from_bits(bits: u32) -> (status: DeviceStatus)
        ensures
            status.spec_bits() == bits,
    {
        DeviceStatus { bits }
    }

    /// The raw register word of this set.
    pub fn bits(&self) -> (bits: u32)
        ensures
            bits == self.spec_bits(),
    {
        self.bits
    }

    /// The union of two status sets.
    pub fn union(self, other: DeviceStatus) -> (status: DeviceStatus)
        ensures
            status.spec_bits() == self.spec_bits() | other.spec_bits(),
    {
        DeviceStatus { bits: self.bits | other.bits }
    }

    /// Whether every flag of `other` is set in `self`.
    pub fn contains(self, other: DeviceStatus) -> (holds: bool)
        ensures
            holds == (self.spec_bits() & other.spec_bits() == other.spec_bits()),
    {
        self.bits & other.bits == other.bits
    }

    /// Whether this set is empty; writing an empty set to the status
    /// register requests a device reset.
    pub fn is_empty(self) -> (empty: bool)
        ensures
            empty == (self.spec_bits() == 0),
    {
        self.bits == 0
    }
}

} // verus!
