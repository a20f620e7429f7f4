//! Resolution of the device-id register to a device type.
//!
//! Device-id values 1 through 13 and 16 through 24 map one-to-one onto the
//! known device types; every other value resolves to [`DeviceType::Invalid`].
//! The mapping is a pure, total function of the numeric id.

use vstd::prelude::*;

verus! {

/// The kind of device behind the register block, as reported by the
/// device-id register.
#[derive(Clone, Copy, Debug, PartialEq, Eq, Structural)]
pub enum DeviceType {
    Invalid,
    Network,
    Block,
    Console,
    EntropySource,
    MemoryBalloonTraditional,
    IoMemory,
    Rpmsg,
    ScsiHost,
    _9P,
    Mac80211,
    RprocSerial,
    VirtioCAIF,
    MemoryBalloon,
    GPU,
    Timer,
    Input,
    Socket,
    Crypto,
    SignalDistributionModule,
    Pstore,
    IOMMU,
    Memory,
}

/// The documented device-id table: ids 1..=13 and 16..=24 name a device
/// type, every other id (0, the reserved gap 14..=15, and everything above
/// 24) is invalid.
pub open spec fn device_type_of(id: u32) -> DeviceType {
    if id == 1 {
        DeviceType::Network
    } else if id == 2 {
        DeviceType::Block
    } else if id == 3 {
        DeviceType::Console
    } else if id == 4 {
        DeviceType::EntropySource
    } else if id == 5 {
        DeviceType::MemoryBalloonTraditional
    } else if id == 6 {
        DeviceType::IoMemory
    } else if id == 7 {
        DeviceType::Rpmsg
    } else if id == 8 {
        DeviceType::ScsiHost
    } else if id == 9 {
        DeviceType::_9P
    } else if id == 10 {
        DeviceType::Mac80211
    } else if id == 11 {
        DeviceType::RprocSerial
    } else if id == 12 {
        DeviceType::VirtioCAIF
    } else if id == 13 {
        DeviceType::MemoryBalloon
    } else if id == 16 {
        DeviceType::GPU
    } else if id == 17 {
        DeviceType::Timer
    } else if id == 18 {
        DeviceType::Input
    } else if id == 19 {
        DeviceType::Socket
    } else if id == 20 {
        DeviceType::Crypto
    } else if id == 21 {
        DeviceType::SignalDistributionModule
    } else if id == 22 {
        DeviceType::Pstore
    } else if id == 23 {
        DeviceType::IOMMU
    } else if id == 24 {
        DeviceType::Memory
    } else {
        DeviceType::Invalid
    }
}

/// Resolves a device-id register value to its device type.
pub fn resolve_device_type(id: u32) -> (device_type: DeviceType)
    ensures
        device_type == device_type_of(id),
{
    match id {
        1 => DeviceType::Network,
        2 => DeviceType::Block,
        3 => DeviceType::Console,
        4 => DeviceType::EntropySource,
        5 => DeviceType::MemoryBalloonTraditional,
        6 => DeviceType::IoMemory,
        7 => DeviceType::Rpmsg,
        8 => DeviceType::ScsiHost,
        9 => DeviceType::_9P,
        10 => DeviceType::Mac80211,
        11 => DeviceType::RprocSerial,
        12 => DeviceType::VirtioCAIF,
        13 => DeviceType::MemoryBalloon,
        16 => DeviceType::GPU,
        17 => DeviceType::Timer,
        18 => DeviceType::Input,
        19 => DeviceType::Socket,
        20 => DeviceType::Crypto,
        21 => DeviceType::SignalDistributionModule,
        22 => DeviceType::Pstore,
        23 => DeviceType::IOMMU,
        24 => DeviceType::Memory,
        _ => DeviceType::Invalid,
    }
}

/// Law: an id outside the two documented ranges, the zero id among them,
/// resolves to `Invalid`, and an id inside them never does.
pub proof fn lemma_device_type_total(id: u32)
    ensures
        (device_type_of(id) == DeviceType::Invalid) <==> !(1 <= id <= 13 || 16 <= id <= 24),
{
}

/// Law: the mapping is one-to-one on the documented ranges; two ids that
/// resolve to the same known device type are the same id.
pub proof fn lemma_device_type_injective(a: u32, b: u32)
    requires
        device_type_of(a) == device_type_of(b),
        device_type_of(a) != DeviceType::Invalid,
    ensures
        a == b,
{
}

} // verus!
