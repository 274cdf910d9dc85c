//! The memory-mapped bus: devices, regions, permissions and bank switching.
//!
//! A [`MemoryMapper`] owns a set of named devices and a list of
//! non-overlapping address regions, each bound to one device and an access
//! permission.  It is the single point of truth for byte and word reads and
//! writes across an address space.  A [`MemoryBankController`] adds the
//! secondary indirection used by cartridges larger than their visible
//! window.

use vstd::prelude::*;

use crate::error::{EmuliteError, EmuliteResult};
use crate::text::str_eq;

verus! {

/// Access permission of one memory region.
#[derive(Debug, Clone, Copy, PartialEq, Eq, Structural)]
pub enum MemoryAccess {
    ReadOnly,
    WriteOnly,
    ReadWrite,
    NoAccess,
}

/// One region of the address space: an inclusive `[start, end]` range, its
/// permission, its display name and the key of the device that backs it.
#[derive(Debug, Clone)]
pub struct MemoryRegion {
    pub start: u32,
    pub end: u32,
    pub access: MemoryAccess,
    pub name: String,
    pub device: Option<String>,
}

/// Mathematical image of a region.
pub ghost struct RegionV {
    pub start: u32,
    pub end: u32,
    pub access: MemoryAccess,
    pub name: Seq<char>,
    pub device: Option<Seq<char>>,
}

impl View for MemoryRegion {
    type V = RegionV;

    open spec fn view(&self) -> RegionV {
        RegionV {
            start: self.start,
            end: self.end,
            access: self.access,
            name: self.name@,
            device: match self.device {
                Some(ref s) => Some(s@),
                None => None,
            },
        }
    }
}

/// The two device families the bus can own.
pub ghost enum DeviceKind {
    Ram,
    Rom,
}

/// Mathematical image of a device: its kind, its bytes, where it starts and
/// its display name.
pub ghost struct DeviceV {
    pub kind: DeviceKind,
    pub data: Seq<u8>,
    pub start: u32,
    pub name: Seq<char>,
}

impl DeviceV {
    /// A device is well formed when it holds at least one byte and its
    /// inclusive range fits the 32-bit address space.
    pub open spec fn wf(self) -> bool {
        1 <= self.data.len() && self.start + self.data.len() - 1 <= u32::MAX
    }

    /// The inclusive address range the device answers to.
    pub open spec fn range_spec(self) -> (u32, u32) {
        (self.start, (self.start + self.data.len() - 1) as u32)
    }

    /// What reading one byte from the device yields: the byte inside its
    /// range, a violation carrying the address outside it.
    pub open spec fn read_spec(self, address: u32) -> Result<u8, u32> {
        if self.start <= address && address - self.start < self.data.len() {
            Ok(self.data[address - self.start])
        } else {
            Err(address)
        }
    }

    /// What writing one byte does: RAM inside its range takes the byte, ROM
    /// and out-of-range addresses refuse.
    pub open spec fn write_spec(self, address: u32, value: u8) -> Result<DeviceV, u32> {
        match self.kind {
            DeviceKind::Rom => Err(address),
            DeviceKind::Ram => {
                if self.start <= address && address - self.start < self.data.len() {
                    Ok(DeviceV { data: self.data.update(address - self.start, value), ..self })
                } else {
                    Err(address)
                }
            },
        }
    }

    /// What a reset does: RAM is cleared to zero, ROM keeps its bytes.
    pub open spec fn reset_spec(self) -> DeviceV {
        match self.kind {
            DeviceKind::Rom => self,
            DeviceKind::Ram => DeviceV {
                data: Seq::new(self.data.len(), |i: int| 0u8),
                ..self
            },
        }
    }
}

/// Builds a zero-filled byte vector of the given length.
pub fn zero_bytes(len: usize) -> (r: Vec<u8>)
    ensures
        r@ =~= Seq::new(len as nat, |i: int| 0u8),
{
    let v: Vec<u8> = vec![0u8; len];
    proof {
        assert forall|i: int| 0 <= i < len implies v@[i] == 0u8 by {
            assert(vstd::pervasive::cloned::<u8>(0u8, v@[i]));
        }
    }
    v
}

/// Writable memory backing a region.
#[derive(Debug)]
pub struct RamDevice {
    data: Vec<u8>,
    start_address: u32,
    name: String,
}

impl View for RamDevice {
    type V = DeviceV;

    closed spec fn view(&self) -> DeviceV {
        DeviceV { kind: DeviceKind::Ram, data: self.data@, start: self.start_address, name: self.name@ }
    }
}

impl RamDevice {
    /// A zero-filled RAM of `size` bytes starting at `start_address`.
    pub fn new(size: usize, start_address: u32, name: String) -> (r: RamDevice)
        requires
            1 <= size,
            start_address + size - 1 <= u32::MAX,
        ensures
            r@ == (DeviceV {
                kind: DeviceKind::Ram,
                data: Seq::new(size as nat, |i: int| 0u8),
                start: start_address,
                name: name@,
            }),
            r@.wf(),
    {
        RamDevice { data: zero_bytes(size), start_address, name }
    }

    /// Reads the byte at `address`, failing outside the device's range.
    pub fn read(&self, address: u32) -> (r: EmuliteResult<u8>)
        ensures
            match self@.read_spec(address) {
                Ok(b) => r == Ok::<u8, EmuliteError>(b),
                Err(a) => r == Err::<u8, EmuliteError>(EmuliteError::MemoryAccessViolation(a)),
            },
    {
        if address >= self.start_address {
            let offset = (address - self.start_address) as usize;
            if offset < self.data.len() {
                return Ok(self.data[offset]);
            }
        }
        Err(EmuliteError::MemoryAccessViolation(address))
    }

    /// Writes the byte at `address`, failing outside the device's range.
    pub fn write(&mut self, address: u32, value: u8) -> (r: EmuliteResult<()>)
        ensures
            match old(self)@.write_spec(address, value) {
                Ok(d) => r is Ok && final(self)@ == d,
                Err(a) => r == Err::<(), EmuliteError>(EmuliteError::MemoryAccessViolation(a))
                    && final(self)@ == old(self)@,
            },
    {
        if address >= self.start_address {
            let offset = (address - self.start_address) as usize;
            if offset < self.data.len() {
                self.data.set(offset, value);
                return Ok(());
            }
        }
        Err(EmuliteError::MemoryAccessViolation(address))
    }

    /// The device's display name.
    pub fn name(&self) -> (r: &str)
        ensures
            r@ == self@.name,
    {
        self.name.as_str()
    }

    /// The inclusive address range the device answers to.
    pub fn range(&self) -> (r: (u32, u32))
        requires
            self@.wf(),
        ensures
            r == self@.range_spec(),
    {
        (self.start_address, self.start_address + (self.data.len() - 1) as u32)
    }

    /// Clears every byte to zero.
    pub fn reset(&mut self) -> (r: EmuliteResult<()>)
        ensures
            r is Ok,
            final(self)@ == old(self)@.reset_spec(),
    {
        let len = self.data.len();
        self.data = zero_bytes(len);
        Ok(())
    }
}

/// Read-only memory backing a region; writes are refused.
#[derive(Debug)]
pub struct RomDevice {
    data: Vec<u8>,
    start_address: u32,
    name: String,
}

impl View for RomDevice {
    type V = DeviceV;

    closed spec fn view(&self) -> DeviceV {
        DeviceV { kind: DeviceKind::Rom, data: self.data@, start: self.start_address, name: self.name@ }
    }
}

impl RomDevice {
    /// A ROM holding `data`, starting at `start_address`.
    pub fn new(data: Vec<u8>, start_address: u32, name: String) -> (r: RomDevice)
        requires
            1 <= data@.len(),
            start_address + data@.len() - 1 <= u32::MAX,
        ensures
            r@ == (DeviceV { kind: DeviceKind::Rom, data: data@, start: start_address, name: name@ }),
            r@.wf(),
    {
        RomDevice { data, start_address, name }
    }

    /// Reads the byte at `address`, failing outside the device's range.
    pub fn read(&self, address: u32) -> (r: EmuliteResult<u8>)
        ensures
            match self@.read_spec(address) {
                Ok(b) => r == Ok::<u8, EmuliteError>(b),
                Err(a) => r == Err::<u8, EmuliteError>(EmuliteError::MemoryAccessViolation(a)),
            },
    {
        if address >= self.start_address {
            let offset = (address - self.start_address) as usize;
            if offset < self.data.len() {
                return Ok(self.data[offset]);
            }
        }
        Err(EmuliteError::MemoryAccessViolation(address))
    }

    /// ROM refuses every write, reporting the address.
    pub fn write(&mut self, address: u32, _value: u8) -> (r: EmuliteResult<()>)
        ensures
            r == Err::<(), EmuliteError>(EmuliteError::MemoryAccessViolation(address)),
            final(self)@ == old(self)@,
    {
        Err(EmuliteError::MemoryAccessViolation(address))
    }

    /// The device's display name.
    pub fn name(&self) -> (r: &str)
        ensures
            r@ == self@.name,
    {
        self.name.as_str()
    }

    /// The inclusive address range the device answers to.
    pub fn range(&self) -> (r: (u32, u32))
        requires
            self@.wf(),
        ensures
            r == self@.range_spec(),
    {
        (self.start_address, self.start_address + (self.data.len() - 1) as u32)
    }

    /// ROM does not change on reset.
    pub fn reset(&mut self) -> (r: EmuliteResult<()>)
        ensures
            r is Ok,
            final(self)@ == old(self)@,
    {
        Ok(())
    }
}

/// Any addressable unit the bus can own.
#[derive(Debug)]
pub enum MemoryDevice {
    Ram(RamDevice),
    Rom(RomDevice),
}

impl View for MemoryDevice {
    type V = DeviceV;

    open spec fn view(&self) -> DeviceV {
        match self {
            MemoryDevice::Ram(d) => d@,
            MemoryDevice::Rom(d) => d@,
        }
    }
}

impl MemoryDevice {
    /// Reads the byte at `address` from the underlying device.
    pub fn read(&self, address: u32) -> (r: EmuliteResult<u8>)
        ensures
            match self@.read_spec(address) {
                Ok(b) => r == Ok::<u8, EmuliteError>(b),
                Err(a) => r == Err::<u8, EmuliteError>(EmuliteError::MemoryAccessViolation(a)),
            },
    {
        match self {
            MemoryDevice::Ram(d) => d.read(address),
            MemoryDevice::Rom(d) => d.read(address),
        }
    }

    /// Writes the byte at `address` to the underlying device.
    pub fn write(&mut self, address: u32, value: u8) -> (r: EmuliteResult<()>)
        ensures
            match old(self)@.write_spec(address, value) {
                Ok(d) => r is Ok && final(self)@ == d,
                Err(a) => r == Err::<(), EmuliteError>(EmuliteError::MemoryAccessViolation(a))
                    && final(self)@ == old(self)@,
            },
    {
        match self {
            MemoryDevice::Ram(d) => d.write(address, value),
            MemoryDevice::Rom(d) => d.write(address, value),
        }
    }

    /// The device's display name.
    pub fn name(&self) -> (r: &str)
        ensures
            r@ == self@.name,
    {
        match self {
            MemoryDevice::Ram(d) => d.name(),
            MemoryDevice::Rom(d) => d.name(),
        }
    }

    /// The inclusive address range the device answers to.
    pub fn range(&self) -> (r: (u32, u32))
        requires
            self@.wf(),
        ensures
            r == self@.range_spec(),
    {
        match self {
            MemoryDevice::Ram(d) => d.range(),
            MemoryDevice::Rom(d) => d.range(),
        }
    }

    /// Resets the underlying device.
    pub fn reset(&mut self) -> (r: EmuliteResult<()>)
        ensures
            r is Ok,
            final(self)@ == old(self)@.reset_spec(),
    {
        match self {
            MemoryDevice::Ram(d) => d.reset(),
            MemoryDevice::Rom(d) => d.reset(),
        }
    }
}

/// A device together with the key it was registered under.
#[derive(Debug)]
struct DeviceEntry {
    name: String,
    device: MemoryDevice,
}

/// Mathematical image of a registered device.
pub ghost struct DeviceEntryV {
    pub name: Seq<char>,
    pub device: DeviceV,
}

impl View for DeviceEntry {
    type V = DeviceEntryV;

    closed spec fn view(&self) -> DeviceEntryV {
        DeviceEntryV { name: self.name@, device: self.device@ }
    }
}

/// Mathematical image of the whole bus.
pub ghost struct MapperV {
    pub devices: Seq<DeviceEntryV>,
    pub regions: Seq<RegionV>,
    pub size: u32,
}

/// The first region in order that contains `addr`, if any.
pub open spec fn find_region(regions: Seq<RegionV>, addr: u32) -> Option<RegionV>
    decreases regions.len(),
{
    if regions.len() == 0 {
        None
    } else if regions[0].start <= addr && addr <= regions[0].end {
        Some(regions[0])
    } else {
        find_region(regions.drop_first(), addr)
    }
}

/// The index of the first device registered under `name`, if any.
pub open spec fn find_device(devices: Seq<DeviceEntryV>, name: Seq<char>) -> Option<int>
    decreases devices.len(),
{
    if devices.len() == 0 {
        None
    } else if devices[0].name == name {
        Some(0)
    } else {
        match find_device(devices.drop_first(), name) {
            Some(i) => Some(i + 1),
            None => None,
        }
    }
}

/// The registered devices that are not keyed `name`, in order.
pub open spec fn devices_without(s: Seq<DeviceEntryV>, name: Seq<char>) -> Seq<DeviceEntryV>
    decreases s.len(),
{
    if s.len() == 0 {
        Seq::empty()
    } else if s[0].name != name {
        seq![s[0]] + devices_without(s.drop_first(), name)
    } else {
        devices_without(s.drop_first(), name)
    }
}

/// The regions that are not named `name`, in order.
pub open spec fn regions_without(s: Seq<RegionV>, name: Seq<char>) -> Seq<RegionV>
    decreases s.len(),
{
    if s.len() == 0 {
        Seq::empty()
    } else if s[0].name != name {
        seq![s[0]] + regions_without(s.drop_first(), name)
    } else {
        regions_without(s.drop_first(), name)
    }
}

/// Whether a region overlaps the inclusive range `[start, end]`.
pub open spec fn overlaps(r: RegionV, start: u32, end: u32) -> bool {
    !(end < r.start || start > r.end)
}

/// Whether some registered region overlaps the inclusive range
/// `[start, end]`, even by one byte.
pub open spec fn has_overlap(regions: Seq<RegionV>, start: u32, end: u32) -> bool {
    exists|i: int| 0 <= i < regions.len() && overlaps(#[trigger] regions[i], start, end)
}

/// The bus invariant over the region list: every region is a proper
/// inclusive range, and the regions are sorted by start and pairwise
/// disjoint.
pub open spec fn regions_wf(regions: Seq<RegionV>) -> bool {
    &&& forall|i: int| 0 <= i < regions.len() ==> (#[trigger] regions[i]).start <= regions[i].end
    &&& forall|i: int, j: int|
        0 <= i < j < regions.len() ==> (#[trigger] regions[i]).end < (#[trigger] regions[j]).start
}

/// `regions` with `r` inserted before the first region whose start exceeds
/// `r.start`.
pub open spec fn insert_sorted(regions: Seq<RegionV>, r: RegionV) -> Seq<RegionV>
    decreases regions.len(),
{
    if regions.len() == 0 {
        seq![r]
    } else if r.start < regions[0].start {
        seq![r] + regions
    } else {
        seq![regions[0]] + insert_sorted(regions.drop_first(), r)
    }
}

impl MapperV {
    /// The bus invariant: the regions are proper ranges, sorted by start
    /// and pairwise disjoint.  It holds of every bus built through this
    /// module.
    pub open spec fn wf(self) -> bool {
        regions_wf(self.regions)
    }

    /// What reading one byte from the bus yields.
    pub open spec fn read_spec(self, addr: u32) -> Result<u8, u32> {
        if addr >= self.size {
            Err(addr)
        } else {
            match find_region(self.regions, addr) {
                None => Err(addr),
                Some(r) => {
                    if r.access == MemoryAccess::WriteOnly || r.access == MemoryAccess::NoAccess {
                        Err(addr)
                    } else {
                        match r.device {
                            None => Err(addr),
                            Some(n) => match find_device(self.devices, n) {
                                None => Err(addr),
                                Some(i) => self.devices[i].device.read_spec(addr),
                            },
                        }
                    }
                },
            }
        }
    }

    /// What writing one byte to the bus does.
    pub open spec fn write_spec(self, addr: u32, value: u8) -> Result<MapperV, u32> {
        if addr >= self.size {
            Err(addr)
        } else {
            match find_region(self.regions, addr) {
                None => Err(addr),
                Some(r) => {
                    if r.access == MemoryAccess::ReadOnly || r.access == MemoryAccess::NoAccess {
                        Err(addr)
                    } else {
                        match r.device {
                            None => Err(addr),
                            Some(n) => match find_device(self.devices, n) {
                                None => Err(addr),
                                Some(i) => match self.devices[i].device.write_spec(addr, value) {
                                    Ok(d) => Ok(
                                        MapperV {
                                            devices: self.devices.update(
                                                i,
                                                DeviceEntryV { device: d, ..self.devices[i] },
                                            ),
                                            ..self
                                        },
                                    ),
                                    Err(a) => Err(a),
                                },
                            },
                        }
                    }
                },
            }
        }
    }

    /// One write, keeping the old state when the write fails.
    pub open spec fn write_step(self, addr: u32, value: u8) -> (MapperV, Option<u32>) {
        match self.write_spec(addr, value) {
            Ok(m) => (m, None),
            Err(a) => (self, Some(a)),
        }
    }
}

/// The bus: a registry of non-overlapping regions, each bound to one owned
/// device and a permission.
#[derive(Debug)]
pub struct MemoryMapper {
    devices: Vec<DeviceEntry>,
    regions: Vec<MemoryRegion>,
    address_space_size: u32,
}

impl View for MemoryMapper {
    type V = MapperV;

    closed spec fn view(&self) -> MapperV {
        MapperV {
            devices: self.devices@.map(|i: int, e: DeviceEntry| e@),
            regions: self.regions@.map(|i: int, r: MemoryRegion| r@),
            size: self.address_space_size,
        }
    }
}

impl MemoryMapper {
    /// An empty bus over an address space of `address_space_size` bytes.
    pub fn new(address_space_size: u32) -> (r: MemoryMapper)
        ensures
            r@.devices =~= Seq::<DeviceEntryV>::empty(),
            r@.regions =~= Seq::<RegionV>::empty(),
            r@.size == address_space_size,
            r@.wf(),
    {
        MemoryMapper { devices: Vec::new(), regions: Vec::new(), address_space_size }
    }

    /// Registers a device under `name`, read-write, over the device's own
    /// range.  Fails, changing nothing, if the range overlaps any
    /// registered region, even by one byte.
    pub fn add_device(&mut self, name: String, device: MemoryDevice) -> (r: EmuliteResult<()>)
        requires
            device@.wf(),
        ensures
            ({
                let (start, end) = device@.range_spec();
                if has_overlap(old(self)@.regions, start, end) {
                    r == Err::<(), EmuliteError>(EmuliteError::MemoryAccessViolation(start))
                        && final(self)@ == old(self)@
                } else {
                    r is Ok && final(self)@ == (MapperV {
                        devices: old(self)@.devices.push(
                            DeviceEntryV { name: name@, device: device@ },
                        ),
                        regions: insert_sorted(
                            old(self)@.regions,
                            RegionV {
                                start,
                                end,
                                access: MemoryAccess::ReadWrite,
                                name: name@,
                                device: Some(name@),
                            },
                        ),
                        size: old(self)@.size,
                    })
                }
            }),
            old(self)@.wf() ==> final(self)@.wf(),
    {
        self.add_device_with_access(name, device, MemoryAccess::ReadWrite)
    }

    /// Registers a device under `name` with an explicit access permission,
    /// over the device's own range.  Fails, changing nothing, if the range
    /// overlaps any registered region, even by one byte.
    pub fn add_device_with_access(
        &mut self,
        name: String,
        device: MemoryDevice,
        access: MemoryAccess,
    ) -> (r: EmuliteResult<()>)
        requires
            device@.wf(),
        ensures
            ({
                let (start, end) = device@.range_spec();
                if has_overlap(old(self)@.regions, start, end) {
                    r == Err::<(), EmuliteError>(EmuliteError::MemoryAccessViolation(start))
                        && final(self)@ == old(self)@
                } else {
                    r is Ok && final(self)@ == (MapperV {
                        devices: old(self)@.devices.push(
                            DeviceEntryV { name: name@, device: device@ },
                        ),
                        regions: insert_sorted(
                            old(self)@.regions,
                            RegionV { start, end, access, name: name@, device: Some(name@) },
                        ),
                        size: old(self)@.size,
                    })
                }
            }),
            old(self)@.wf() ==> final(self)@.wf(),
    {
        let (start, end) = device.range();
        proof {
            assert(start == device@.range_spec().0);
            assert(end == device@.range_spec().1);
        }
        let n = self.regions.len();
        let mut i: usize = 0;
        while i < n
            invariant
                i <= n,
                n == self.regions.len(),
                *self == *old(self),
                start == device@.range_spec().0,
                end == device@.range_spec().1,
                forall|j: int| 0 <= j < i ==> !overlaps(#[trigger] self@.regions[j], start, end),
            decreases n - i,
        {
            let reg = &self.regions[i];
            if !(end < reg.start || start > reg.end) {
                proof {
                    assert(overlaps(old(self)@.regions[i as int], start, end));
                    assert(has_overlap(old(self)@.regions, start, end));
                }
                return Err(EmuliteError::MemoryAccessViolation(start));
            }
            i = i + 1;
        }
        proof {
            assert forall|j: int| 0 <= j < old(self)@.regions.len() implies !overlaps(
                #[trigger] old(self)@.regions[j],
                start,
                end,
            ) by {
                assert(!overlaps(self@.regions[j], start, end));
            }
            assert(!has_overlap(old(self)@.regions, start, end));
        }
        let ghost gname = name@;
        let ghost gdev = device@;
        let region_name = clone_string(&name);
        let device_key = clone_string(&name);
        self.devices.push(DeviceEntry { name, device });
        let region = MemoryRegion {
            start,
            end,
            access,
            name: region_name,
            device: Some(device_key),
        };
        self.insert_region(region);
        proof {
            if old(self)@.wf() {
                lemma_insert_sorted_wf(
                    old(self)@.regions,
                    RegionV { start, end, access, name: gname, device: Some(gname) },
                );
            }
            assert(self@.devices =~= old(self)@.devices.push(
                DeviceEntryV { name: gname, device: gdev },
            ));
            assert(self@ == (MapperV {
                devices: old(self)@.devices.push(DeviceEntryV { name: gname, device: gdev }),
                regions: insert_sorted(
                    old(self)@.regions,
                    RegionV { start, end, access, name: gname, device: Some(gname) },
                ),
                size: old(self)@.size,
            }));
        }
        Ok(())
    }

    /// Inserts a region before the first one whose start exceeds its own.
    fn insert_region(&mut self, region: MemoryRegion)
        ensures
            final(self)@.regions == insert_sorted(old(self)@.regions, region@),
            final(self)@.devices == old(self)@.devices,
            final(self)@.size == old(self)@.size,
    {
        let n = self.regions.len();
        let mut i: usize = 0;
        while i < n && self.regions[i].start <= region.start
            invariant
                i <= n,
                n == self.regions.len(),
                *self == *old(self),
                forall|j: int| 0 <= j < i ==> self@.regions[j].start <= region@.start,
            decreases n - i,
        {
            i = i + 1;
        }
        self.regions.insert(i, region);
        proof {
            lemma_insert_sorted_at(old(self)@.regions, region@, i as int);
            assert(self@.regions =~= old(self)@.regions.insert(i as int, region@));
        }
    }

    /// Removes the device registered under `name` and every region that
    /// carries that name.
    pub fn remove_device(&mut self, name: &str) -> (r: EmuliteResult<()>)
        ensures
            r is Ok,
            final(self)@.devices == devices_without(old(self)@.devices, name@),
            final(self)@.regions == regions_without(old(self)@.regions, name@),
            final(self)@.size == old(self)@.size,
            old(self)@.wf() ==> final(self)@.wf(),
    {
        let mut kept_devices: Vec<DeviceEntry> = Vec::new();
        let ghost old_devices = self@.devices;
        while self.devices.len() > 0
            invariant
                kept_devices@.map(|i: int, e: DeviceEntry| e@) + devices_without(
                    self@.devices,
                    name@,
                ) =~= devices_without(old_devices, name@),
                self@.regions == old(self)@.regions,
                self@.size == old(self)@.size,
            decreases self.devices.len(),
        {
            let ghost cur = self@.devices;
            let ghost curvec = self.devices@;
            let e = self.devices.remove(0);
            proof {
                assert(self.devices@ =~= curvec.drop_first());
                assert(self@.devices =~= cur.drop_first());
                assert(e@ == cur[0]);
                if cur[0].name != name@ {
                    assert(devices_without(cur, name@) == seq![cur[0]] + devices_without(
                        cur.drop_first(),
                        name@,
                    ));
                } else {
                    assert(devices_without(cur, name@) == devices_without(
                        cur.drop_first(),
                        name@,
                    ));
                }
            }
            if !str_eq(e.name.as_str(), name) {
                let ghost prev = kept_devices@.map(|i: int, x: DeviceEntry| x@);
                kept_devices.push(e);
                proof {
                    assert(kept_devices@.map(|i: int, x: DeviceEntry| x@) =~= prev.push(e@));
                    assert(prev.push(e@) + devices_without(cur.drop_first(), name@) =~= prev + (
                    seq![e@] + devices_without(cur.drop_first(), name@)));
                }
            }
        }
        proof {
            assert(devices_without(self@.devices, name@) =~= Seq::<DeviceEntryV>::empty());
            assert(kept_devices@.map(|i: int, e: DeviceEntry| e@) + Seq::<
                DeviceEntryV,
            >::empty() =~= kept_devices@.map(|i: int, e: DeviceEntry| e@));
            assert(kept_devices@.map(|i: int, e: DeviceEntry| e@) =~= devices_without(
                old_devices,
                name@,
            ));
        }
        self.devices = kept_devices;
        let mut kept_regions: Vec<MemoryRegion> = Vec::new();
        let ghost old_regions = self@.regions;
        while self.regions.len() > 0
            invariant
                kept_regions@.map(|i: int, r: MemoryRegion| r@) + regions_without(
                    self@.regions,
                    name@,
                ) =~= regions_without(old_regions, name@),
                self@.devices == devices_without(old(self)@.devices, name@),
                self@.size == old(self)@.size,
            decreases self.regions.len(),
        {
            let ghost cur = self@.regions;
            let ghost curvec = self.regions@;
            let rg = self.regions.remove(0);
            proof {
                assert(self.regions@ =~= curvec.drop_first());
                assert(self@.regions =~= cur.drop_first());
                assert(rg@ == cur[0]);
                if cur[0].name != name@ {
                    assert(regions_without(cur, name@) == seq![cur[0]] + regions_without(
                        cur.drop_first(),
                        name@,
                    ));
                } else {
                    assert(regions_without(cur, name@) == regions_without(
                        cur.drop_first(),
                        name@,
                    ));
                }
            }
            if !str_eq(rg.name.as_str(), name) {
                let ghost prev = kept_regions@.map(|i: int, x: MemoryRegion| x@);
                kept_regions.push(rg);
                proof {
                    assert(kept_regions@.map(|i: int, x: MemoryRegion| x@) =~= prev.push(rg@));
                    assert(prev.push(rg@) + regions_without(cur.drop_first(), name@) =~= prev + (
                    seq![rg@] + regions_without(cur.drop_first(), name@)));
                }
            }
        }
        proof {
            assert(regions_without(self@.regions, name@) =~= Seq::<RegionV>::empty());
            assert(kept_regions@.map(|i: int, r: MemoryRegion| r@) + Seq::<
                RegionV,
            >::empty() =~= kept_regions@.map(|i: int, r: MemoryRegion| r@));
            assert(kept_regions@.map(|i: int, r: MemoryRegion| r@) =~= regions_without(
                old_regions,
                name@,
            ));
            if old(self)@.wf() {
                lemma_regions_without_wf(old_regions, name@);
            }
        }
        self.regions = kept_regions;
        Ok(())
    }

    /// Reads one byte.  The first region in ascending order that contains
    /// the address answers; a missing region, a write-only or no-access
    /// permission, or an unmapped address fails closed.
    pub fn read(&self, address: u32) -> (r: EmuliteResult<u8>)
        ensures
            match self@.read_spec(address) {
                Ok(b) => r == Ok::<u8, EmuliteError>(b),
                Err(a) => r == Err::<u8, EmuliteError>(EmuliteError::MemoryAccessViolation(a)),
            },
    {
        if address >= self.address_space_size {
            return Err(EmuliteError::MemoryAccessViolation(address));
        }
        let n = self.regions.len();
        proof {
            assert(self@.regions.subrange(0, n as int) =~= self@.regions);
        }
        let mut i: usize = 0;
        while i < n
            invariant
                i <= n,
                n == self.regions.len(),
                address < self.address_space_size,
                find_region(self@.regions, address) == find_region(
                    self@.regions.subrange(i as int, n as int),
                    address,
                ),
            decreases n - i,
        {
            proof {
                assert(self@.regions.subrange(i as int, n as int).drop_first() =~= self@.regions
                    .subrange(i as int + 1, n as int));
            }
            let reg = &self.regions[i];
            if reg.start <= address && address <= reg.end {
                if reg.access == MemoryAccess::WriteOnly || reg.access == MemoryAccess::NoAccess {
                    return Err(EmuliteError::MemoryAccessViolation(address));
                }
                proof {
                    assert(self@.regions.subrange(i as int, n as int)[0] == self@.regions[i as int]);
                    assert(find_region(self@.regions, address) == Some(self@.regions[i as int]));
                }
                match &reg.device {
                    Some(device_name) => {
                        proof {
                            let rv = self@.regions[i as int];
                            assert(rv == self.regions@[i as int]@);
                            assert(rv.access == reg.access);
                            assert(rv.device == Some(device_name@));
                        }
                        match self.get_device_index(device_name.as_str()) {
                            Some(d) => {
                                let entry = &self.devices[d];
                                proof {
                                    assert(entry@ == self@.devices[d as int]);
                                    assert(self@.read_spec(address) == self@.devices[
                                        d as int
                                    ].device.read_spec(address));
                                }
                                return entry.device.read(address);
                            },
                            None => {
                                return Err(EmuliteError::MemoryAccessViolation(address));
                            },
                        }
                    },
                    None => {
                        return Err(EmuliteError::MemoryAccessViolation(address));
                    },
                }
            }
            i = i + 1;
        }
        proof {
            assert(self@.regions.subrange(n as int, n as int) =~= Seq::<RegionV>::empty());
        }
        Err(EmuliteError::MemoryAccessViolation(address))
    }

    /// The index of the first device registered under `name`.
    fn get_device_index(&self, name: &str) -> (r: Option<usize>)
        ensures
            match find_device(self@.devices, name@) {
                Some(i) => r matches Some(u) && u as int == i && i < self@.devices.len(),
                None => r is None,
            },
    {
        let n = self.devices.len();
        proof {
            assert(self@.devices.subrange(0, n as int) =~= self@.devices);
        }
        let mut i: usize = 0;
        while i < n
            invariant
                i <= n,
                n == self.devices.len(),
                forall|j: int| 0 <= j < i ==> self@.devices[j].name != name@,
                find_device(self@.devices, name@) == match find_device(
                    self@.devices.subrange(i as int, n as int),
                    name@,
                ) {
                    Some(k) => Some(k + i),
                    None => None::<int>,
                },
            decreases n - i,
        {
            proof {
                assert(self@.devices.subrange(i as int, n as int).drop_first() =~= self@.devices
                    .subrange(i as int + 1, n as int));
            }
            if str_eq(self.devices[i].name.as_str(), name) {
                return Some(i);
            }
            i = i + 1;
        }
        proof {
            assert(self@.devices.subrange(n as int, n as int) =~= Seq::<DeviceEntryV>::empty());
        }
        None
    }

    /// A shared borrow of the device registered under `name`.
    pub fn get_device(&self, name: &str) -> (r: Option<&MemoryDevice>)
        ensures
            match find_device(self@.devices, name@) {
                Some(i) => r matches Some(d) && d@ == self@.devices[i].device,
                None => r is None,
            },
    {
        match self.get_device_index(name) {
            Some(i) => {
                let entry = &self.devices[i];
                proof {
                    assert(entry@ == self@.devices[i as int]);
                }
                Some(&entry.device)
            },
            None => None,
        }
    }

    /// Writes one byte.  A read-only or no-access permission, a missing
    /// region or an unmapped address fails closed and changes nothing.
    pub fn write(&mut self, address: u32, value: u8) -> (r: EmuliteResult<()>)
        ensures
            match old(self)@.write_spec(address, value) {
                Ok(m) => r is Ok && final(self)@ == m,
                Err(a) => r == Err::<(), EmuliteError>(EmuliteError::MemoryAccessViolation(a))
                    && final(self)@ == old(self)@,
            },
    {
        if address >= self.address_space_size {
            return Err(EmuliteError::MemoryAccessViolation(address));
        }
        let n = self.regions.len();
        proof {
            assert(self@.regions.subrange(0, n as int) =~= self@.regions);
        }
        let mut i: usize = 0;
        while i < n
            invariant
                i <= n,
                n == self.regions.len(),
                address < self.address_space_size,
                *self == *old(self),
                find_region(self@.regions, address) == find_region(
                    self@.regions.subrange(i as int, n as int),
                    address,
                ),
            decreases n - i,
        {
            proof {
                assert(self@.regions.subrange(i as int, n as int).drop_first() =~= self@.regions
                    .subrange(i as int + 1, n as int));
            }
            let reg = &self.regions[i];
            if reg.start <= address && address <= reg.end {
                proof {
                    assert(self@.regions.subrange(i as int, n as int)[0] == self@.regions[i as int]);
                    assert(find_region(self@.regions, address) == Some(self@.regions[i as int]));
                }
                if reg.access == MemoryAccess::ReadOnly || reg.access == MemoryAccess::NoAccess {
                    return Err(EmuliteError::MemoryAccessViolation(address));
                }
                let device_lookup = match &reg.device {
                    Some(device_name) => self.get_device_index(device_name.as_str()),
                    None => None,
                };
                match device_lookup {
                    Some(d) => {
                        let ghost before = self@.devices;
                        let ghost beforevec = self.devices@;
                        let mut entry = self.devices.remove(d);
                        let res = entry.device.write(address, value);
                        self.devices.insert(d, entry);
                        proof {
                            assert(self.devices@ =~= beforevec.update(d as int, entry));
                            assert(self@.devices =~= before.update(d as int, entry@));
                            match old(self)@.write_spec(address, value) {
                                Ok(m) => {
                                    assert(self@.devices =~= m.devices);
                                },
                                Err(_) => {
                                    assert(self@.devices =~= old(self)@.devices);
                                },
                            }
                        }
                        return res;
                    },
                    None => {
                        return Err(EmuliteError::MemoryAccessViolation(address));
                    },
                }
            }
            i = i + 1;
        }
        proof {
            assert(self@.regions.subrange(n as int, n as int) =~= Seq::<RegionV>::empty());
        }
        Err(EmuliteError::MemoryAccessViolation(address))
    }

    /// Reads a 16-bit little-endian value composed from two byte reads.
    pub fn read16(&self, address: u32) -> (r: EmuliteResult<u16>)
        requires
            address < u32::MAX,
        ensures
            match (self@.read_spec(address), self@.read_spec((address + 1) as u32)) {
                (Ok(lo), Ok(hi)) => r == Ok::<u16, EmuliteError>((lo as u16) | ((hi as u16) << 8)),
                (Err(a), _) => r == Err::<u16, EmuliteError>(
                    EmuliteError::MemoryAccessViolation(a),
                ),
                (Ok(_), Err(a)) => r == Err::<u16, EmuliteError>(
                    EmuliteError::MemoryAccessViolation(a),
                ),
            },
    {
        let low = match self.read(address) {
            Ok(b) => b,
            Err(e) => return Err(e),
        };
        let high = match self.read(address + 1) {
            Ok(b) => b,
            Err(e) => return Err(e),
        };
        Ok((low as u16) | ((high as u16) << 8))
    }

    /// Writes a 16-bit value as two little-endian byte writes; a failing
    /// second write leaves the first applied.
    pub fn write16(&mut self, address: u32, value: u16) -> (r: EmuliteResult<()>)
        requires
            address < u32::MAX,
        ensures
            ({
                let (m1, e1) = old(self)@.write_step(address, value as u8);
                let (m2, e2) = m1.write_step((address + 1) as u32, (value >> 8) as u8);
                match e1 {
                    Some(a) => r == Err::<(), EmuliteError>(EmuliteError::MemoryAccessViolation(a))
                        && final(self)@ == m1,
                    None => match e2 {
                        Some(a) => r == Err::<(), EmuliteError>(
                            EmuliteError::MemoryAccessViolation(a),
                        ) && final(self)@ == m2,
                        None => r is Ok && final(self)@ == m2,
                    },
                }
            }),
    {
        match self.write(address, value as u8) {
            Ok(_) => {},
            Err(e) => return Err(e),
        }
        match self.write(address + 1, (value >> 8) as u8) {
            Ok(_) => {},
            Err(e) => return Err(e),
        }
        Ok(())
    }

    /// Reads a 32-bit little-endian value composed from four byte reads.
    pub fn read32(&self, address: u32) -> (r: EmuliteResult<u32>)
        requires
            address + 3 <= u32::MAX,
        ensures
            match (
                self@.read_spec(address),
                self@.read_spec((address + 1) as u32),
                self@.read_spec((address + 2) as u32),
                self@.read_spec((address + 3) as u32),
            ) {
                (Ok(b0), Ok(b1), Ok(b2), Ok(b3)) => r == Ok::<u32, EmuliteError>(
                    (b0 as u32) | ((b1 as u32) << 8) | ((b2 as u32) << 16) | ((b3 as u32) << 24),
                ),
                (Err(a), _, _, _) => r == Err::<u32, EmuliteError>(
                    EmuliteError::MemoryAccessViolation(a),
                ),
                (Ok(_), Err(a), _, _) => r == Err::<u32, EmuliteError>(
                    EmuliteError::MemoryAccessViolation(a),
                ),
                (Ok(_), Ok(_), Err(a), _) => r == Err::<u32, EmuliteError>(
                    EmuliteError::MemoryAccessViolation(a),
                ),
                (Ok(_), Ok(_), Ok(_), Err(a)) => r == Err::<u32, EmuliteError>(
                    EmuliteError::MemoryAccessViolation(a),
                ),
            },
    {
        let b0 = match self.read(address) {
            Ok(b) => b,
            Err(e) => return Err(e),
        };
        let b1 = match self.read(address + 1) {
            Ok(b) => b,
            Err(e) => return Err(e),
        };
        let b2 = match self.read(address + 2) {
            Ok(b) => b,
            Err(e) => return Err(e),
        };
        let b3 = match self.read(address + 3) {
            Ok(b) => b,
            Err(e) => return Err(e),
        };
        Ok((b0 as u32) | ((b1 as u32) << 8) | ((b2 as u32) << 16) | ((b3 as u32) << 24))
    }

    /// Writes a 32-bit value as four little-endian byte writes; a failing
    /// write leaves the earlier ones applied.
    pub fn write32(&mut self, address: u32, value: u32) -> (r: EmuliteResult<()>)
        requires
            address + 3 <= u32::MAX,
        ensures
            ({
                let (m1, e1) = old(self)@.write_step(address, value as u8);
                let (m2, e2) = m1.write_step((address + 1) as u32, (value >> 8) as u8);
                let (m3, e3) = m2.write_step((address + 2) as u32, (value >> 16) as u8);
                let (m4, e4) = m3.write_step((address + 3) as u32, (value >> 24) as u8);
                match e1 {
                    Some(a) => r == Err::<(), EmuliteError>(
                        EmuliteError::MemoryAccessViolation(a),
                    ) && final(self)@ == m1,
                    None => match e2 {
                        Some(a) => r == Err::<(), EmuliteError>(
                            EmuliteError::MemoryAccessViolation(a),
                        ) && final(self)@ == m2,
                        None => match e3 {
                            Some(a) => r == Err::<(), EmuliteError>(
                                EmuliteError::MemoryAccessViolation(a),
                            ) && final(self)@ == m3,
                            None => match e4 {
                                Some(a) => r == Err::<(), EmuliteError>(
                                    EmuliteError::MemoryAccessViolation(a),
                                ) && final(self)@ == m4,
                                None => r is Ok && final(self)@ == m4,
                            },
                        },
                    },
                }
            }),
    {
        match self.write(address, value as u8) {
            Ok(_) => {},
            Err(e) => return Err(e),
        }
        match self.write(address + 1, (value >> 8) as u8) {
            Ok(_) => {},
            Err(e) => return Err(e),
        }
        match self.write(address + 2, (value >> 16) as u8) {
            Ok(_) => {},
            Err(e) => return Err(e),
        }
        match self.write(address + 3, (value >> 24) as u8) {
            Ok(_) => {},
            Err(e) => return Err(e),
        }
        Ok(())
    }

    /// The registered regions, in ascending start order.
    pub fn regions(&self) -> (r: &Vec<MemoryRegion>)
        ensures
            r@.map(|i: int, rg: MemoryRegion| rg@) == self@.regions,
    {
        &self.regions
    }

    /// Resets every owned device: RAM is cleared, ROM keeps its bytes.
    pub fn reset(&mut self) -> (r: EmuliteResult<()>)
        ensures
            r is Ok,
            final(self)@.devices == old(self)@.devices.map(
                |i: int, e: DeviceEntryV| DeviceEntryV { device: e.device.reset_spec(), ..e },
            ),
            final(self)@.regions == old(self)@.regions,
            final(self)@.size == old(self)@.size,
    {
        let n = self.devices.len();
        let mut i: usize = 0;
        while i < n
            invariant
                i <= n,
                n == self.devices.len(),
                self@.regions == old(self)@.regions,
                self@.size == old(self)@.size,
                forall|j: int|
                    i <= j < n ==> self@.devices[j] == old(self)@.devices[j],
                forall|j: int|
                    0 <= j < i ==> self@.devices[j] == (DeviceEntryV {
                        device: old(self)@.devices[j].device.reset_spec(),
                        ..old(self)@.devices[j]
                    }),
            decreases n - i,
        {
            let ghost before = self@.devices;
            let mut entry = self.devices.remove(i);
            let _ = entry.device.reset();
            self.devices.insert(i, entry);
            proof {
                assert(self@.devices =~= before.update(
                    i as int,
                    DeviceEntryV { device: before[i as int].device.reset_spec(), ..before[i as int] },
                ));
            }
            i = i + 1;
        }
        proof {
            assert(self@.devices =~= old(self)@.devices.map(
                |i: int, e: DeviceEntryV| DeviceEntryV { device: e.device.reset_spec(), ..e },
            ));
        }
        Ok(())
    }
}

/// Clones a string, keeping its characters.
pub fn clone_string(s: &String) -> (r: String)
    ensures
        r@ == s@,
{
    String::from_str(s.as_str())
}

/// Sorted insertion of a proper, non-overlapping range keeps the bus
/// invariant; every element of the result is the new region or one of the
/// old ones.
proof fn lemma_insert_sorted_wf(regions: Seq<RegionV>, r: RegionV)
    requires
        regions_wf(regions),
        r.start <= r.end,
        !has_overlap(regions, r.start, r.end),
    ensures
        regions_wf(insert_sorted(regions, r)),
        forall|k: int|
            0 <= k < insert_sorted(regions, r).len() ==> (#[trigger] insert_sorted(regions, r)[k]
                == r || exists|j: int| 0 <= j < regions.len() && insert_sorted(regions, r)[k]
                == regions[j]),
    decreases regions.len(),
{
    let out = insert_sorted(regions, r);
    if regions.len() == 0 {
        assert(out =~= seq![r]);
    } else if r.start < regions[0].start {
        assert(out =~= seq![r] + regions);
        assert forall|j: int| 0 <= j < regions.len() implies r.end < (
        #[trigger] regions[j]).start by {
            assert(!overlaps(regions[j], r.start, r.end));
            if r.start > regions[j].end {
                if j > 0 {
                    assert(regions[0].end < regions[j].start);
                }
                assert(regions[j].end >= regions[j].start);
                assert(regions[j].start >= regions[0].start);
            }
        }
    } else {
        let tail = regions.drop_first();
        assert forall|j: int| 0 <= j < tail.len() implies !overlaps(
            #[trigger] tail[j],
            r.start,
            r.end,
        ) by {
            assert(tail[j] == regions[j + 1]);
            assert(!overlaps(regions[j + 1], r.start, r.end));
        }
        assert(regions_wf(tail)) by {
            assert forall|i: int| 0 <= i < tail.len() implies (#[trigger] tail[i]).start
                <= tail[i].end by {
                assert(tail[i] == regions[i + 1]);
            }
            assert forall|i: int, j: int| 0 <= i < j < tail.len() implies (
            #[trigger] tail[i]).end < (#[trigger] tail[j]).start by {
                assert(tail[i] == regions[i + 1] && tail[j] == regions[j + 1]);
            }
        }
        lemma_insert_sorted_wf(tail, r);
        let inner = insert_sorted(tail, r);
        assert(out =~= seq![regions[0]] + inner);
        assert(!overlaps(regions[0], r.start, r.end));
        assert(regions[0].end < r.start) by {
            if r.end < regions[0].start {
                assert(r.start <= r.end);
            }
        }
        assert forall|k: int| 0 <= k < inner.len() implies regions[0].end < (
        #[trigger] inner[k]).start by {
            if inner[k] == r {
            } else {
                let j = choose|j: int| 0 <= j < tail.len() && inner[k] == tail[j];
                assert(tail[j] == regions[j + 1]);
                assert(regions[0].end < regions[j + 1].start);
            }
        }
        assert forall|i: int, j: int| 0 <= i < j < out.len() implies (#[trigger] out[i]).end < (
        #[trigger] out[j]).start by {
            if i == 0 {
                assert(out[j] == inner[j - 1]);
            } else {
                assert(out[i] == inner[i - 1] && out[j] == inner[j - 1]);
            }
        }
        assert forall|i: int| 0 <= i < out.len() implies (#[trigger] out[i]).start
            <= out[i].end by {
            if i > 0 {
                assert(out[i] == inner[i - 1]);
            }
        }
    }
}

/// Dropping the regions under one name keeps the bus invariant; every
/// element of the result is one of the old regions.
proof fn lemma_regions_without_wf(regions: Seq<RegionV>, name: Seq<char>)
    requires
        regions_wf(regions),
    ensures
        regions_wf(regions_without(regions, name)),
        forall|k: int|
            0 <= k < regions_without(regions, name).len() ==> exists|j: int|
                0 <= j < regions.len() && #[trigger] regions_without(regions, name)[k]
                    == regions[j],
    decreases regions.len(),
{
    let out = regions_without(regions, name);
    if regions.len() == 0 {
    } else {
        let tail = regions.drop_first();
        assert(regions_wf(tail)) by {
            assert forall|i: int| 0 <= i < tail.len() implies (#[trigger] tail[i]).start
                <= tail[i].end by {
                assert(tail[i] == regions[i + 1]);
            }
            assert forall|i: int, j: int| 0 <= i < j < tail.len() implies (
            #[trigger] tail[i]).end < (#[trigger] tail[j]).start by {
                assert(tail[i] == regions[i + 1] && tail[j] == regions[j + 1]);
            }
        }
        lemma_regions_without_wf(tail, name);
        let inner = regions_without(tail, name);
        assert forall|k: int| 0 <= k < inner.len() implies exists|j: int|
            0 <= j < regions.len() && #[trigger] inner[k] == regions[j] by {
            let j = choose|j: int| 0 <= j < tail.len() && inner[k] == tail[j];
            assert(inner[k] == regions[j + 1]);
        }
        if regions[0].name != name {
            assert(out =~= seq![regions[0]] + inner);
            assert forall|k: int| 0 <= k < inner.len() implies regions[0].end < (
            #[trigger] inner[k]).start by {
                let j = choose|j: int| 0 <= j < regions.len() && inner[k] == regions[j];
                assert(j >= 1) by {
                    let jt = choose|jt: int| 0 <= jt < tail.len() && inner[k] == tail[jt];
                    assert(inner[k] == regions[jt + 1]);
                    if regions[0] == regions[jt + 1] {
                        assert(regions[0].end < regions[jt + 1].start);
                        assert(regions[jt + 1].start <= regions[jt + 1].end);
                    }
                }
                assert(regions[0].end < regions[j].start);
            }
            assert forall|i: int, j: int| 0 <= i < j < out.len() implies (
            #[trigger] out[i]).end < (#[trigger] out[j]).start by {
                if i == 0 {
                    assert(out[j] == inner[j - 1]);
                } else {
                    assert(out[i] == inner[i - 1] && out[j] == inner[j - 1]);
                }
            }
            assert forall|i: int| 0 <= i < out.len() implies (#[trigger] out[i]).start
                <= out[i].end by {
                if i > 0 {
                    assert(out[i] == inner[i - 1]);
                }
            }
        } else {
            assert(out == inner);
        }
    }
}

/// Inserting at the position the loop found is the sorted insertion.
proof fn lemma_insert_sorted_at(regions: Seq<RegionV>, r: RegionV, i: int)
    requires
        0 <= i <= regions.len(),
        forall|j: int| 0 <= j < i ==> regions[j].start <= r.start,
        i < regions.len() ==> r.start < regions[i].start,
    ensures
        insert_sorted(regions, r) == regions.insert(i, r),
    decreases regions.len(),
{
    if regions.len() == 0 {
        assert(insert_sorted(regions, r) =~= regions.insert(0, r));
    } else if r.start < regions[0].start {
        assert(i == 0);
        assert(insert_sorted(regions, r) =~= regions.insert(0, r));
    } else {
        assert(i >= 1);
        lemma_insert_sorted_at(regions.drop_first(), r, i - 1);
        assert(regions.drop_first().insert(i - 1, r) =~= regions.insert(i, r).drop_first());
        assert(insert_sorted(regions, r) =~= seq![regions[0]] + regions.drop_first().insert(
            i - 1,
            r,
        ));
        assert(seq![regions[0]] + regions.insert(i, r).drop_first() =~= regions.insert(i, r));
    }
}

/// Cartridge bank switching: a set of fixed-size banks, one of which backs
/// the visible window at a time.
#[derive(Debug)]
pub struct MemoryBankController {
    banks: Vec<Vec<u8>>,
    current_bank: usize,
    bank_size: usize,
    total_banks: usize,
}

/// Mathematical image of a bank controller.
pub ghost struct BankV {
    pub banks: Seq<Seq<u8>>,
    pub current_bank: usize,
    pub bank_size: usize,
    pub total_banks: usize,
}

impl View for MemoryBankController {
    type V = BankV;

    closed spec fn view(&self) -> BankV {
        BankV {
            banks: self.banks@.map(|i: int, b: Vec<u8>| b@),
            current_bank: self.current_bank,
            bank_size: self.bank_size,
            total_banks: self.total_banks,
        }
    }
}

impl BankV {
    /// Every bank exists, has the fixed size, and the current bank is in
    /// range.
    pub open spec fn wf(self) -> bool {
        &&& self.banks.len() == self.total_banks
        &&& 1 <= self.total_banks
        &&& self.current_bank < self.total_banks
        &&& forall|i: int| 0 <= i < self.banks.len() ==> (#[trigger] self.banks[i]).len()
            == self.bank_size
    }
}

impl MemoryBankController {
    /// `total_banks` zero-filled banks of `bank_size` bytes each, with bank
    /// zero selected.
    pub fn new(bank_size: usize, total_banks: usize) -> (r: MemoryBankController)
        requires
            1 <= total_banks,
        ensures
            r@.wf(),
            r@.bank_size == bank_size,
            r@.total_banks == total_banks,
            r@.current_bank == 0,
            forall|i: int|
                0 <= i < total_banks ==> r@.banks[i] =~= Seq::new(
                    bank_size as nat,
                    |j: int| 0u8,
                ),
    {
        let mut banks: Vec<Vec<u8>> = Vec::new();
        let mut i: usize = 0;
        while i < total_banks
            invariant
                i <= total_banks,
                banks@.len() == i,
                forall|j: int|
                    0 <= j < i ==> (#[trigger] banks@[j])@ =~= Seq::new(
                        bank_size as nat,
                        |k: int| 0u8,
                    ),
            decreases total_banks - i,
        {
            banks.push(zero_bytes(bank_size));
            i = i + 1;
        }
        MemoryBankController { banks, current_bank: 0, bank_size, total_banks }
    }

    /// Selects bank `bank`.  An out-of-range index fails and leaves the
    /// current bank unchanged.
    pub fn switch_bank(&mut self, bank: usize) -> (r: EmuliteResult<()>)
        ensures
            bank >= old(self)@.total_banks ==> r == Err::<(), EmuliteError>(
                EmuliteError::MemoryAccessViolation(bank as u32),
            ) && final(self)@ == old(self)@,
            bank < old(self)@.total_banks ==> r is Ok && final(self)@ == (BankV {
                current_bank: bank,
                ..old(self)@
            }),
    {
        if bank >= self.total_banks {
            return Err(EmuliteError::MemoryAccessViolation(bank as u32));
        }
        self.current_bank = bank;
        Ok(())
    }

    /// Reads the byte at `address` inside the selected bank; an offset past
    /// the bank size fails.
    pub fn read(&self, address: u32) -> (r: EmuliteResult<u8>)
        requires
            self@.wf(),
        ensures
            address < self@.bank_size ==> r == Ok::<u8, EmuliteError>(
                self@.banks[self@.current_bank as int][address as int],
            ),
            address >= self@.bank_size ==> r == Err::<u8, EmuliteError>(
                EmuliteError::MemoryAccessViolation(address),
            ),
    {
        let offset = address as usize;
        if offset >= self.bank_size {
            return Err(EmuliteError::MemoryAccessViolation(address));
        }
        proof {
            assert(self@.banks[self@.current_bank as int].len() == self@.bank_size);
        }
        Ok(self.banks[self.current_bank][offset])
    }

    /// Writes the byte at `address` inside the selected bank; an offset past
    /// the bank size fails and changes nothing.
    pub fn write(&mut self, address: u32, value: u8) -> (r: EmuliteResult<()>)
        requires
            old(self)@.wf(),
        ensures
            final(self)@.wf(),
            address < old(self)@.bank_size ==> r is Ok && final(self)@ == (BankV {
                banks: old(self)@.banks.update(
                    old(self)@.current_bank as int,
                    old(self)@.banks[old(self)@.current_bank as int].update(
                        address as int,
                        value,
                    ),
                ),
                ..old(self)@
            }),
            address >= old(self)@.bank_size ==> r == Err::<(), EmuliteError>(
                EmuliteError::MemoryAccessViolation(address),
            ) && final(self)@ == old(self)@,
    {
        let offset = address as usize;
        if offset >= self.bank_size {
            return Err(EmuliteError::MemoryAccessViolation(address));
        }
        let current = self.current_bank;
        let mut bank = self.banks.remove(current);
        bank.set(offset, value);
        self.banks.insert(current, bank);
        proof {
            assert(self@.banks =~= old(self)@.banks.update(
                old(self)@.current_bank as int,
                old(self)@.banks[old(self)@.current_bank as int].update(address as int, value),
            ));
        }
        Ok(())
    }

    /// Replaces the contents of bank `bank` wholesale.  Fails, changing
    /// nothing, on an out-of-range bank or data whose length is not the
    /// bank size.
    pub fn load_bank(&mut self, bank: usize, data: Vec<u8>) -> (r: EmuliteResult<()>)
        requires
            old(self)@.wf(),
        ensures
            bank >= old(self)@.total_banks ==> r == Err::<(), EmuliteError>(
                EmuliteError::MemoryAccessViolation(bank as u32),
            ) && final(self)@ == old(self)@,
            bank < old(self)@.total_banks && data@.len() != old(self)@.bank_size ==> r == Err::<
                (),
                EmuliteError,
            >(EmuliteError::MemoryAccessViolation(data@.len() as u32)) && final(self)@ == old(
                self,
            )@,
            bank < old(self)@.total_banks && data@.len() == old(self)@.bank_size ==> r is Ok
                && final(self)@ == (BankV {
                banks: old(self)@.banks.update(bank as int, data@),
                ..old(self)@
            }),
    {
        if bank >= self.total_banks {
            return Err(EmuliteError::MemoryAccessViolation(bank as u32));
        }
        if data.len() != self.bank_size {
            return Err(EmuliteError::MemoryAccessViolation(data.len() as u32));
        }
        let _ = self.banks.remove(bank);
        self.banks.insert(bank, data);
        proof {
            assert(self@.banks =~= old(self)@.banks.update(bank as int, data@));
        }
        Ok(())
    }
}

} // verus!
