//! The MMIO register block and the transport built on top of it.
//!
//! [`VirtIOHeader`] lays the registers out in the order the MMIO protocol
//! fixes, one volatile cell per register, with the two feature banks held as
//! the 64-bit device state that their 32-bit selector windows expose.
//! [`MmioTransport::new`] validates the magic, device-id and version
//! registers and yields a transport that speaks either the legacy
//! (page-based) or the modern (split-address) queue protocol.

use vstd::prelude::*;

use crate::devtype::{device_type_of, resolve_device_type, DeviceType};
use crate::layout::{spec_legacy_layout_ok, PhysAddr, PAGE_SIZE};
use crate::regs::{ro_new, ro_read, ro_value, rw_new, rw_read, rw_value, rw_write, wo_new,
    wo_value, wo_write};
use crate::status::DeviceStatus;

verus! {

/// The value of the magic register on every VirtIO MMIO device: "virt" in
/// little-endian ASCII.
pub const MAGIC_VALUE: u32 = 0x7472_6976;

/// The version register value of a legacy device.
pub const LEGACY_VERSION: u32 = 1;

/// The version register value of a modern device.
pub const MODERN_VERSION: u32 = 2;

/// The byte offset of the device-specific configuration space from the
/// start of the register block.  The transport does not interpret that
/// region; deriving a raw handle to it is left to the embedding.
pub const CONFIG_SPACE_OFFSET: usize = 0x100;

/// The version of the MMIO transport a device speaks, fixed at
/// construction and immutable afterwards.
#[derive(Clone, Copy, Debug, PartialEq, Eq, Structural)]
pub enum MmioVersion {
    /// Legacy transport with page-based queue addressing.
    Legacy,
    /// Modern transport with split-address queue programming.
    Modern,
}

impl MmioVersion {
    /// The version register value this variant stands for.
    pub open spec fn spec_code(self) -> u32 {
        match self {
            MmioVersion::Legacy => LEGACY_VERSION,
            MmioVersion::Modern => MODERN_VERSION,
        }
    }

    /// Classifies a version register value: 1 is legacy, 2 is modern,
    /// everything else is unsupported.
    pub fn try_from_u32(version: u32) -> (result: Result<MmioVersion, MmioError>)
        ensures
            version == LEGACY_VERSION ==> result == Ok::<MmioVersion, MmioError>(
                MmioVersion::Legacy,
            ),
            version == MODERN_VERSION ==> result == Ok::<MmioVersion, MmioError>(
                MmioVersion::Modern,
            ),
            !(version == LEGACY_VERSION || version == MODERN_VERSION) ==> result == Err::<
                MmioVersion,
                MmioError,
            >(MmioError::UnsupportedVersion(version)),
    {
        match version {
            LEGACY_VERSION => Ok(MmioVersion::Legacy),
            MODERN_VERSION => Ok(MmioVersion::Modern),
            _ => Err(MmioError::UnsupportedVersion(version)),
        }
    }

    /// The version register value this variant stands for.
    pub fn to_u32(self) -> (code: u32)
        ensures
            code == self.spec_code(),
    {
        match self {
            MmioVersion::Legacy => LEGACY_VERSION,
            MmioVersion::Modern => MODERN_VERSION,
        }
    }
}

/// An error encountered validating a VirtIO MMIO register block.
#[derive(Clone, Copy, Debug, PartialEq, Eq, Structural)]
pub enum MmioError {
    /// The magic register does not hold the expected value 0x74726976;
    /// the region is not a VirtIO device.  Carries the value read.
    BadMagic(u32),
    /// The version register holds neither 1 (legacy) nor 2 (modern).
    /// Carries the value read.
    UnsupportedVersion(u32),
    /// The device-id register holds 0: no device is bound to the region.
    ZeroDeviceId,
}

/// The abstract content of a register block: one mathematical value per
/// register, with the two feature banks as the full 64-bit state behind
/// their selector windows.  Reserved registers carry no meaning and do not
/// appear.
pub struct HeaderState {
    pub magic: u32,
    pub version: u32,
    pub device_id: u32,
    pub vendor_id: u32,
    pub device_features: u64,
    pub device_features_sel: u32,
    pub driver_features: u64,
    pub driver_features_sel: u32,
    pub legacy_guest_page_size: u32,
    pub queue_sel: u32,
    pub queue_num_max: u32,
    pub queue_num: u32,
    pub legacy_queue_align: u32,
    pub legacy_queue_pfn: u32,
    pub queue_ready: u32,
    pub queue_notify: u32,
    pub interrupt_status: u32,
    pub interrupt_ack: u32,
    pub status: u32,
    pub queue_desc_low: u32,
    pub queue_desc_high: u32,
    pub queue_driver_low: u32,
    pub queue_driver_high: u32,
    pub queue_device_low: u32,
    pub queue_device_high: u32,
    pub config_generation: u32,
}

/// The word a feature window exposes: the selector picks the low half (0)
/// or the high half (1) of the 64-bit bank; any other selector reads as 0.
pub open spec fn spec_feature_word(bank: u64, sel: u32) -> u32 {
    if sel == 0 {
        bank as u32
    } else if sel == 1 {
        (bank >> 32) as u32
    } else {
        0
    }
}

/// The bank after a word is written through a feature window: the selector
/// picks which half the word replaces; any other selector leaves the bank
/// unchanged.
pub open spec fn spec_store_word(bank: u64, sel: u32, word: u32) -> u64 {
    if sel == 0 {
        (bank & 0xffff_ffff_0000_0000) | (word as u64)
    } else if sel == 1 {
        (bank & 0x0000_0000_ffff_ffff) | ((word as u64) << 32)
    } else {
        bank
    }
}

/// MMIO device register block, legacy and modern.
///
/// The fields stand in the order the register layout fixes; the reserved
/// fields exist purely to keep that order on record and are never read for
/// meaning.  Registers the driver only reads are `ReadOnly`, registers it
/// only writes are `WriteOnly`, and registers both sides use are
/// `Volatile`.  The two feature banks are held as the device-side 64-bit
/// state that the selector windows of the protocol expose 32 bits at a
/// time.
#[derive(Debug)]
pub struct VirtIOHeader {
    /// Magic value.
    magic: volatile::ReadOnly<u32>,
    /// Device version number; a legacy device reports 1.
    version: volatile::ReadOnly<u32>,
    /// Virtio subsystem device id.
    device_id: volatile::ReadOnly<u32>,
    /// Virtio subsystem vendor id.
    vendor_id: volatile::ReadOnly<u32>,
    /// The 64-bit feature bank the device offers, read 32 bits at a time
    /// through the window that `device_features_sel` selects.
    device_features: u64,
    /// Device feature word selection: 0 exposes bits [0, 32), 1 exposes
    /// bits [32, 64).
    device_features_sel: u32,
    /// Reserved.
    __r1: [u32; 2],
    /// The 64-bit feature bank of the features the driver activates,
    /// written 32 bits at a time through the window that
    /// `driver_features_sel` selects.
    driver_features: u64,
    /// Driver feature word selection.
    driver_features_sel: u32,
    /// Guest page size in bytes, written once by a legacy driver before
    /// any queue is used.
    legacy_guest_page_size: volatile::WriteOnly<u32>,
    /// Reserved.
    __r2: [u32; 1],
    /// Queue selector: the queue the following queue registers apply to.
    queue_sel: volatile::WriteOnly<u32>,
    /// Maximum size of the selected queue, or 0 if it is unavailable.
    queue_num_max: volatile::ReadOnly<u32>,
    /// Size of the selected queue as the driver will use it.
    queue_num: volatile::WriteOnly<u32>,
    /// Used-ring alignment of the selected queue, legacy only.
    legacy_queue_align: volatile::WriteOnly<u32>,
    /// Guest physical page number of the selected queue, legacy only;
    /// nonzero while the queue is in use, 0 releases it.
    legacy_queue_pfn: volatile::Volatile<u32>,
    /// Queue ready flag of the selected queue, modern only.
    queue_ready: volatile::Volatile<u32>,
    /// Reserved.
    __r3: [u32; 2],
    /// Queue notifier: the doorbell the driver rings after posting buffers.
    queue_notify: volatile::WriteOnly<u32>,
    /// Reserved.
    __r4: [u32; 3],
    /// Interrupt status: the pending interrupt bits.
    interrupt_status: volatile::ReadOnly<u32>,
    /// Interrupt acknowledge: bits written here are acknowledged.
    interrupt_ack: volatile::WriteOnly<u32>,
    /// Reserved.
    __r5: [u32; 2],
    /// Device status word; writing 0 requests a device reset.
    status: volatile::Volatile<u32>,
    /// Reserved.
    __r6: [u32; 3],
    /// Low half of the descriptor-table address, modern only.
    queue_desc_low: volatile::WriteOnly<u32>,
    /// High half of the descriptor-table address, modern only.
    queue_desc_high: volatile::WriteOnly<u32>,
    /// Reserved.
    __r7: [u32; 2],
    /// Low half of the driver-area address, modern only.
    queue_driver_low: volatile::WriteOnly<u32>,
    /// High half of the driver-area address, modern only.
    queue_driver_high: volatile::WriteOnly<u32>,
    /// Reserved.
    __r8: [u32; 2],
    /// Low half of the device-area address, modern only.
    queue_device_low: volatile::WriteOnly<u32>,
    /// High half of the device-area address, modern only.
    queue_device_high: volatile::WriteOnly<u32>,
    /// Reserved.
    __r9: [u32; 21],
    /// Configuration atomicity counter.
    config_generation: volatile::ReadOnly<u32>,
}

impl View for VirtIOHeader {
    type V = HeaderState;

    closed spec fn view(&self) -> HeaderState {
        HeaderState {
            magic: ro_value(self.magic),
            version: ro_value(self.version),
            device_id: ro_value(self.device_id),
            vendor_id: ro_value(self.vendor_id),
            device_features: self.device_features,
            device_features_sel: self.device_features_sel,
            driver_features: self.driver_features,
            driver_features_sel: self.driver_features_sel,
            legacy_guest_page_size: wo_value(self.legacy_guest_page_size),
            queue_sel: wo_value(self.queue_sel),
            queue_num_max: ro_value(self.queue_num_max),
            queue_num: wo_value(self.queue_num),
            legacy_queue_align: wo_value(self.legacy_queue_align),
            legacy_queue_pfn: rw_value(self.legacy_queue_pfn),
            queue_ready: rw_value(self.queue_ready),
            queue_notify: wo_value(self.queue_notify),
            interrupt_status: ro_value(self.interrupt_status),
            interrupt_ack: wo_value(self.interrupt_ack),
            status: rw_value(self.status),
            queue_desc_low: wo_value(self.queue_desc_low),
            queue_desc_high: wo_value(self.queue_desc_high),
            queue_driver_low: wo_value(self.queue_driver_low),
            queue_driver_high: wo_value(self.queue_driver_high),
            queue_device_low: wo_value(self.queue_device_low),
            queue_device_high: wo_value(self.queue_device_high),
            config_generation: ro_value(self.config_generation),
        }
    }
}

impl VirtIOHeader {
    /// Constructs a register block that acts as a freshly reset loopback
    /// device: the given identity and capability registers are set, every
    /// driver-writable register is zero, and the offered feature bank
    /// holds the given low word.
    pub fn make_fake_header(
        version: u32,
        device_id: u32,
        vendor_id: u32,
        device_features: u32,
        queue_num_max: u32,
    ) -> (header: VirtIOHeader)
        ensures
            header@ == (HeaderState {
                magic: MAGIC_VALUE,
                version: version,
                device_id: device_id,
                vendor_id: vendor_id,
                device_features: device_features as u64,
                device_features_sel: 0,
                driver_features: 0,
                driver_features_sel: 0,
                legacy_guest_page_size: 0,
                queue_sel: 0,
                queue_num_max: queue_num_max,
                queue_num: 0,
                legacy_queue_align: 0,
                legacy_queue_pfn: 0,
                queue_ready: 0,
                queue_notify: 0,
                interrupt_status: 0,
                interrupt_ack: 0,
                status: 0,
                queue_desc_low: 0,
                queue_desc_high: 0,
                queue_driver_low: 0,
                queue_driver_high: 0,
                queue_device_low: 0,
                queue_device_high: 0,
                config_generation: 0,
            }),
    {
        VirtIOHeader {
            magic: ro_new(MAGIC_VALUE),
            version: ro_new(version),
            device_id: ro_new(device_id),
            vendor_id: ro_new(vendor_id),
            device_features: device_features as u64,
            device_features_sel: 0,
            __r1: [0u32; 2],
            driver_features: 0,
            driver_features_sel: 0,
            legacy_guest_page_size: wo_new(0),
            __r2: [0u32; 1],
            queue_sel: wo_new(0),
            queue_num_max: ro_new(queue_num_max),
            queue_num: wo_new(0),
            legacy_queue_align: wo_new(0),
            legacy_queue_pfn: rw_new(0),
            queue_ready: rw_new(0),
            __r3: [0u32; 2],
            queue_notify: wo_new(0),
            __r4: [0u32; 3],
            interrupt_status: ro_new(0),
            interrupt_ack: wo_new(0),
            __r5: [0u32; 2],
            status: rw_new(0),
            __r6: [0u32; 3],
            queue_desc_low: wo_new(0),
            queue_desc_high: wo_new(0),
            __r7: [0u32; 2],
            queue_driver_low: wo_new(0),
            queue_driver_high: wo_new(0),
            __r8: [0u32; 2],
            queue_device_low: wo_new(0),
            queue_device_high: wo_new(0),
            __r9: [0u32; 21],
            config_generation: ro_new(0),
        }
    }

    /// Device-side poke for loopback blocks: replaces the magic register.
    pub fn set_magic(&mut self, value: u32)
        ensures
            final(self)@ == (HeaderState { magic: value, ..old(self)@ }),
    {
        self.magic = ro_new(value);
    }

    /// Device-side poke for loopback blocks: raises the given pending
    /// interrupt bits in the interrupt-status register.
    pub fn set_interrupt_status(&mut self, value: u32)
        ensures
            final(self)@ == (HeaderState { interrupt_status: value, ..old(self)@ }),
    {
        self.interrupt_status = ro_new(value);
    }

    /// Selects which word of the offered feature bank its window exposes.
    fn write_device_features_sel(&mut self, sel: u32)
        ensures
            final(self)@ == (HeaderState { device_features_sel: sel, ..old(self)@ }),
    {
        self.device_features_sel = sel;
    }

    /// Reads the device-feature window: the word of the offered bank that
    /// the current selector picks.
    fn device_features_word(&self) -> (word: u32)
        ensures
            word == spec_feature_word(self@.device_features, self@.device_features_sel),
    {
        if self.device_features_sel == 0 {
            self.device_features as u32
        } else if self.device_features_sel == 1 {
            (self.device_features >> 32) as u32
        } else {
            0
        }
    }

    /// Selects which word of the activated feature bank its window stores.
    fn write_driver_features_sel(&mut self, sel: u32)
        ensures
            final(self)@ == (HeaderState { driver_features_sel: sel, ..old(self)@ }),
    {
        self.driver_features_sel = sel;
    }

    /// Writes the driver-feature window: stores the word into the half of
    /// the activated bank that the current selector picks.
    fn write_driver_features_word(&mut self, word: u32)
        ensures
            final(self)@ == (HeaderState {
                driver_features: spec_store_word(
                    old(self)@.driver_features,
                    old(self)@.driver_features_sel,
                    word,
                ),
                ..old(self)@
            }),
    {
        if self.driver_features_sel == 0 {
            self.driver_features = (self.driver_features & 0xffff_ffff_0000_0000) | (word as u64);
        } else if self.driver_features_sel == 1 {
            self.driver_features = (self.driver_features & 0x0000_0000_ffff_ffff) | ((word
                as u64) << 32);
        }
    }
}

/// Law: reading the two windows of a feature bank and recomposing them as
/// `low | (high << 32)` yields the bank exactly, for every 64-bit bank.
pub proof fn lemma_feature_words_roundtrip(bank: u64)
    ensures
        (spec_feature_word(bank, 0) as u64) | ((spec_feature_word(bank, 1) as u64) << 32) == bank,
{
    assert(((bank as u32) as u64) | ((((bank >> 32) as u32) as u64) << 32) == bank)
        by (bit_vector);
}

/// Law: writing a 64-bit mask low word first, high word second through a
/// feature window stores the mask exactly, whatever the bank held before.
pub proof fn lemma_store_words_exact(bank: u64, features: u64)
    ensures
        spec_store_word(spec_store_word(bank, 0, features as u32), 1, (features >> 32) as u32)
            == features,
{
    assert((((bank & 0xffff_ffff_0000_0000) | ((features as u32) as u64))
        & 0x0000_0000_ffff_ffff) | ((((features >> 32) as u32) as u64) << 32) == features)
        by (bit_vector);
}

/// A validated MMIO transport: the register block together with the
/// protocol version its device speaks.
#[derive(Debug)]
pub struct MmioTransport {
    header: VirtIOHeader,
    version: MmioVersion,
}

impl MmioTransport {
    /// The register block as the transport holds it.
    pub closed spec fn regs(self) -> HeaderState {
        self.header@
    }

    /// The protocol version fixed at construction.
    pub closed spec fn version_spec(self) -> MmioVersion {
        self.version
    }

    /// Validates a register block and constructs the transport for it.
    ///
    /// The checks run in this order and the first failure wins: the magic
    /// register must hold [`MAGIC_VALUE`], the device-id register must be
    /// nonzero, and the version register must be 1 or 2, which fixes the
    /// protocol variant.  Validation only reads; no register is written.
    pub fn new(header: VirtIOHeader) -> (result: Result<MmioTransport, MmioError>)
        ensures
            header@.magic != MAGIC_VALUE ==> result == Err::<MmioTransport, MmioError>(
                MmioError::BadMagic(header@.magic),
            ),
            header@.magic == MAGIC_VALUE && header@.device_id == 0 ==> result == Err::<
                MmioTransport,
                MmioError,
            >(MmioError::ZeroDeviceId),
            header@.magic == MAGIC_VALUE && header@.device_id != 0 && !(header@.version
                == LEGACY_VERSION || header@.version == MODERN_VERSION) ==> result == Err::<
                MmioTransport,
                MmioError,
            >(MmioError::UnsupportedVersion(header@.version)),
            header@.magic == MAGIC_VALUE && header@.device_id != 0 && (header@.version
                == LEGACY_VERSION || header@.version == MODERN_VERSION) ==> (result matches Ok(
                transport,
            ) && transport.regs() == header@ && transport.version_spec().spec_code()
                == header@.version),
    {
        let magic = ro_read(&header.magic);
        if magic != MAGIC_VALUE {
            return Err(MmioError::BadMagic(magic));
        }
        if ro_read(&header.device_id) == 0 {
            return Err(MmioError::ZeroDeviceId);
        }
        let version = match MmioVersion::try_from_u32(ro_read(&header.version)) {
            Ok(version) => version,
            Err(err) => {
                return Err(err);
            },
        };
        Ok(MmioTransport { header, version })
    }

    /// The protocol version of the transport.
    pub fn version(&self) -> (version: MmioVersion)
        ensures
            version == self.version_spec(),
    {
        self.version
    }

    /// Reads the vendor-id register.
    pub fn vendor_id(&self) -> (vendor_id: u32)
        ensures
            vendor_id == self.regs().vendor_id,
    {
        ro_read(&self.header.vendor_id)
    }

    /// Reads the device-id register and resolves it to a device type.
    pub fn device_type(&self) -> (device_type: DeviceType)
        ensures
            device_type == device_type_of(self.regs().device_id),
    {
        resolve_device_type(ro_read(&self.header.device_id))
    }

    /// Reads the 64-bit feature bank the device offers: selects the low
    /// window, reads it, selects the high window, reads it, and recomposes
    /// the two words.  Leaves the selector on the high window.
    pub fn read_device_features(&mut self) -> (features: u64)
        ensures
            features == old(self).regs().device_features,
            final(self).regs() == (HeaderState {
                device_features_sel: 1,
                ..old(self).regs()
            }),
            final(self).version_spec() == old(self).version_spec(),
    {
        self.header.write_device_features_sel(0);
        let low = self.header.device_features_word();
        self.header.write_device_features_sel(1);
        let high = self.header.device_features_word();
        proof {
            lemma_feature_words_roundtrip(old(self).regs().device_features);
        }
        (low as u64) | ((high as u64) << 32)
    }

    /// Writes the 64-bit feature mask the driver activates: selects the
    /// low window, stores the low word, selects the high window, stores
    /// the high word.  The bank then holds the mask exactly.
    pub fn write_driver_features(&mut self, driver_features: u64)
        ensures
            final(self).regs() == (HeaderState {
                driver_features: driver_features,
                driver_features_sel: 1,
                ..old(self).regs()
            }),
            final(self).version_spec() == old(self).version_spec(),
    {
        self.header.write_driver_features_sel(0);
        self.header.write_driver_features_word(driver_features as u32);
        self.header.write_driver_features_sel(1);
        self.header.write_driver_features_word((driver_features >> 32) as u32);
        proof {
            lemma_store_words_exact(old(self).regs().driver_features, driver_features);
        }
    }

    /// Device-side view of the activated feature bank, as a loopback
    /// device holds it after the windowed writes.
    pub fn driver_features(&self) -> (features: u64)
        ensures
            features == self.regs().driver_features,
    {
        self.header.driver_features
    }

    /// Reads the maximum size of the currently selected queue.
    pub fn max_queue_size(&self) -> (size: u32)
        ensures
            size == self.regs().queue_num_max,
    {
        ro_read(&self.header.queue_num_max)
    }

    /// Rings the doorbell of the given queue.
    pub fn notify(&mut self, queue: u32)
        ensures
            final(self).regs() == (HeaderState { queue_notify: queue, ..old(self).regs() }),
            final(self).version_spec() == old(self).version_spec(),
    {
        wo_write(&mut self.header.queue_notify, queue);
    }

    /// Writes the status bit-set verbatim; writing the empty set requests
    /// a device reset.
    pub fn set_status(&mut self, status: DeviceStatus)
        ensures
            final(self).regs() == (HeaderState {
                status: status.spec_bits(),
                ..old(self).regs()
            }),
            final(self).version_spec() == old(self).version_spec(),
    {
        rw_write(&mut self.header.status, status.bits());
    }

    /// Reads the status register back as a bit-set.
    pub fn status(&self) -> (status: DeviceStatus)
        ensures
            status.spec_bits() == self.regs().status,
    {
        DeviceStatus::from_bits(rw_read(&self.header.status))
    }

    /// Tells a legacy device the guest page size, before any queue is
    /// configured.  Modern devices have no such register and the call does
    /// nothing.
    pub fn set_guest_page_size(&mut self, guest_page_size: u32)
        ensures
            old(self).version_spec() == MmioVersion::Legacy ==> final(self).regs()
                == (HeaderState {
                legacy_guest_page_size: guest_page_size,
                ..old(self).regs()
            }),
            old(self).version_spec() == MmioVersion::Modern ==> final(self).regs() == old(
                self,
            ).regs(),
            final(self).version_spec() == old(self).version_spec(),
    {
        match self.version {
            MmioVersion::Legacy => {
                wo_write(&mut self.header.legacy_guest_page_size, guest_page_size);
            },
            MmioVersion::Modern => {
                // Modern devices do not have the register.
            },
        }
    }

    /// Programs the selected queue's size and the three physical addresses
    /// of its memory regions.
    ///
    /// Under the legacy protocol the addresses must satisfy the layout
    /// contract of [`crate::layout::spec_legacy_layout_ok`]: the caller's
    /// queue memory would otherwise be programmed corruptly, so the
    /// contract is a precondition, and the device is given the page
    /// number of the page-aligned descriptor table together with the
    /// page-size alignment.  Under the modern protocol each address is
    /// split into its 32-bit halves, written independently, and the queue
    /// is marked ready.
    pub fn queue_set(
        &mut self,
        queue: u32,
        size: u32,
        descriptors: PhysAddr,
        driver_area: PhysAddr,
        device_area: PhysAddr,
    )
        requires
            old(self).version_spec() == MmioVersion::Legacy ==> spec_legacy_layout_ok(
                descriptors,
                driver_area,
                device_area,
                size,
            ),
        ensures
            old(self).version_spec() == MmioVersion::Legacy ==> final(self).regs()
                == (HeaderState {
                queue_sel: queue,
                queue_num: size,
                legacy_queue_align: PAGE_SIZE as u32,
                legacy_queue_pfn: ((descriptors as int) / (PAGE_SIZE as int)) as u32,
                ..old(self).regs()
            }),
            old(self).version_spec() == MmioVersion::Modern ==> final(self).regs()
                == (HeaderState {
                queue_sel: queue,
                queue_num: size,
                queue_desc_low: descriptors as u32,
                queue_desc_high: (descriptors >> 32) as u32,
                queue_driver_low: driver_area as u32,
                queue_driver_high: (driver_area >> 32) as u32,
                queue_device_low: device_area as u32,
                queue_device_high: (device_area >> 32) as u32,
                queue_ready: 1,
                ..old(self).regs()
            }),
            final(self).version_spec() == old(self).version_spec(),
    {
        match self.version {
            MmioVersion::Legacy => {
                let pfn_wide = descriptors / PAGE_SIZE;
                let pfn = pfn_wide as u32;
                wo_write(&mut self.header.queue_sel, queue);
                wo_write(&mut self.header.queue_num, size);
                wo_write(&mut self.header.legacy_queue_align, PAGE_SIZE as u32);
                rw_write(&mut self.header.legacy_queue_pfn, pfn);
            },
            MmioVersion::Modern => {
                wo_write(&mut self.header.queue_sel, queue);
                wo_write(&mut self.header.queue_num, size);
                wo_write(&mut self.header.queue_desc_low, descriptors as u32);
                wo_write(&mut self.header.queue_desc_high, (descriptors >> 32) as u32);
                wo_write(&mut self.header.queue_driver_low, driver_area as u32);
                wo_write(&mut self.header.queue_driver_high, (driver_area >> 32) as u32);
                wo_write(&mut self.header.queue_device_low, device_area as u32);
                wo_write(&mut self.header.queue_device_high, (device_area >> 32) as u32);
                rw_write(&mut self.header.queue_ready, 1);
            },
        }
    }

    /// Selects the given queue and reports whether it is active: a
    /// nonzero page number under the legacy protocol, a nonzero ready
    /// flag under the modern one.
    pub fn queue_used(&mut self, queue: u32) -> (used: bool)
        ensures
            final(self).regs() == (HeaderState { queue_sel: queue, ..old(self).regs() }),
            final(self).version_spec() == old(self).version_spec(),
            used == (if old(self).version_spec() == MmioVersion::Legacy {
                old(self).regs().legacy_queue_pfn != 0
            } else {
                old(self).regs().queue_ready != 0
            }),
    {
        wo_write(&mut self.header.queue_sel, queue);
        match self.version {
            MmioVersion::Legacy => rw_read(&self.header.legacy_queue_pfn) != 0,
            MmioVersion::Modern => rw_read(&self.header.queue_ready) != 0,
        }
    }

    /// Polls the interrupt-status register.  When no bit is pending the
    /// call reports `false` and writes nothing; when bits are pending it
    /// acknowledges exactly the bits observed and reports `true`.
    pub fn ack_interrupt(&mut self) -> (pending: bool)
        ensures
            pending == (old(self).regs().interrupt_status != 0),
            pending ==> final(self).regs() == (HeaderState {
                interrupt_ack: old(self).regs().interrupt_status,
                ..old(self).regs()
            }),
            !pending ==> final(self).regs() == old(self).regs(),
            final(self).version_spec() == old(self).version_spec(),
    {
        let interrupt = ro_read(&self.header.interrupt_status);
        if interrupt != 0 {
            wo_write(&mut self.header.interrupt_ack, interrupt);
            true
        } else {
            false
        }
    }
}

} // verus!
