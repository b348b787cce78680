//! Devices and the questions that the driver answers about them.

use vstd::prelude::*;
use crate::hip::device_types::{DeviceP2PAttribute, PCIBusId};
use crate::hip::mem_pool::{default_props, pool_viewed, MemPool, PoolView};
use crate::hip::result::{classified, hip_translated, HipError, HipResult};
use crate::outside::{build_text, prerelease_text, uuid_bytes};
use crate::result::ResultExt;
use crate::text::{c_string_bytes, c_string_lossy, utf8_lossy};

verus! {

/// One accelerator, named by its ordinal. Any integer makes a device; the
/// driver judges it when it is used.
#[derive(Debug, Clone, Copy, PartialEq, Eq, Hash, Structural)]
pub struct Device {
    id: i32,
}

impl View for Device {
    type V = i32;

    closed spec fn view(&self) -> i32 {
        self.id
    }
}

/// Whether `v` is the plain version of three numbers.
pub open spec fn is_version(v: semver::Version, major: u64, minor: u64, patch: u64) -> bool {
    &&& v.major == major
    &&& v.minor == minor
    &&& v.patch == patch
    &&& prerelease_text(v.pre) == Seq::<char>::empty()
    &&& build_text(v.build) == Seq::<char>::empty()
}

/// The compute capability of the two numbers that the driver wrote, each
/// widened as a cast does it, with patch number 0.
pub fn compute_capability(major: i32, minor: i32) -> (v: semver::Version)
    ensures
        is_version(v, major as u64, minor as u64, 0),
{
    semver::Version::new(
        #[verifier::truncate]
        (major as u64),
        #[verifier::truncate]
        (minor as u64),
        0,
    )
}

/// The bytes of a device identifier as the driver wrote them, each taken
/// as an unsigned byte.
pub open spec fn unsigned_bytes(bytes: Seq<i8>) -> Seq<u8> {
    Seq::new(bytes.len(), |i: int| bytes[i] as u8)
}

/// The identifier of the 16 bytes that the driver wrote.
pub fn uuid_from_raw(bytes: [i8; 16]) -> (id: uuid::Uuid)
    ensures
        uuid_bytes(id) == unsigned_bytes(bytes@),
{
    let mut unsigned: [u8; 16] = [0u8;16];
    let mut i: usize = 0;
    while i < 16
        invariant
            i <= 16,
            forall|j: int| 0 <= j < i ==> unsigned@[j] == bytes@[j] as u8,
        decreases 16 - i,
    {
        let b: i8 = bytes[i];
        unsigned[i] = #[verifier::truncate] (b as u8);
        i += 1;
    }
    assert(unsigned@ =~= unsigned_bytes(bytes@));
    uuid::Uuid::from_bytes(unsigned)
}

impl Device {
    /// The device of an ordinal.
    pub fn new(id: i32) -> (device: Self)
        ensures
            device@ == id,
    {
        Device { id }
    }

    /// A device is its ordinal and nothing else: two devices are equal
    /// exactly when their ordinals are.
    pub proof fn lemma_equal_by_ordinal(a: Device, b: Device)
        ensures
            a@ == b@ <==> a == b,
    {
    }

    /// The ordinal of the device.
    pub fn id(&self) -> (id: i32)
        ensures
            id == self@,
    {
        self.id
    }

    /// Asks for the compute capability of the device. `query` is called
    /// once with the ordinal; it returns the major number, the minor number
    /// and the raw code, which are translated.
    pub fn device_compute_capability<F>(&self, query: F) -> (r: HipResult<semver::Version>) where
        F: FnOnce(i32) -> (i32, i32, u32),

        requires
            call_requires(query, (self@,)),
        ensures
            exists|major: i32, minor: i32, code: u32|
                call_ensures(query, (self@,), (major, minor, code)) && match r {
                    Ok(v) => code == 0 && is_version(v, major as u64, minor as u64, 0),
                    Err(e) => code != 0 && e == classified(code),
                },
    {
        let (major, minor, code) = query(self.id);
        let r: HipResult<semver::Version> = (compute_capability(major, minor), code).to_result();
        assert(call_ensures(query, (self@,), (major, minor, code)) && match r {
            Ok(v) => code == 0 && is_version(v, major as u64, minor as u64, 0),
            Err(e) => code != 0 && e == classified(code),
        });
        r
    }

    /// Asks for the total memory of the device in bytes. `query` is called
    /// once with the ordinal; its outcome is translated.
    pub fn device_total_mem<F>(&self, query: F) -> (r: HipResult<usize>) where
        F: FnOnce(i32) -> (usize, u32),

        requires
            call_requires(query, (self@,)),
        ensures
            exists|size: usize, code: u32|
                call_ensures(query, (self@,), (size, code)) && r == hip_translated(size, code),
    {
        let (size, code) = query(self.id);
        let r = (size, code).to_result();
        assert(call_ensures(query, (self@,), (size, code)) && r == hip_translated(size, code));
        r
    }

    /// Asks for the name of the device. `query` is called once with the
    /// length of the buffer, 64, and the ordinal; it returns the buffer as
    /// the driver filled it and the raw code. For code 0 the name is the C
    /// string in the buffer, read leniently: to the end of the buffer where
    /// no zero byte ends it, with invalid bytes replaced.
    pub fn get_device_name<F>(&self, query: F) -> (r: HipResult<String>) where
        F: FnOnce(i32, i32) -> (Vec<i8>, u32),

        requires
            call_requires(query, (64i32, self@)),
        ensures
            exists|buffer: Vec<i8>, code: u32|
                call_ensures(query, (64i32, self@), (buffer, code)) && match r {
                    Ok(name) => code == 0 && name@ == utf8_lossy(c_string_bytes(buffer@)),
                    Err(e) => code != 0 && e == classified(code),
                },
    {
        let (buffer, code) = query(64, self.id);
        let name = c_string_lossy(buffer.as_slice());
        let r: HipResult<String> = (name, code).to_result();
        assert(call_ensures(query, (64i32, self@), (buffer, code)) && match r {
            Ok(name) => code == 0 && name@ == utf8_lossy(c_string_bytes(buffer@)),
            Err(e) => code != 0 && e == classified(code),
        });
        r
    }

    /// Asks for the 16 bytes of the identifier of the device. `query` is
    /// called once with the ordinal; its outcome is translated.
    pub fn get_device_uuid_bytes<F>(&self, query: F) -> (r: HipResult<[i8; 16]>) where
        F: FnOnce(i32) -> ([i8; 16], u32),

        requires
            call_requires(query, (self@,)),
        ensures
            exists|bytes: [i8; 16], code: u32|
                call_ensures(query, (self@,), (bytes, code)) && r == hip_translated(bytes, code),
    {
        let (bytes, code) = query(self.id);
        let r = (bytes, code).to_result();
        assert(call_ensures(query, (self@,), (bytes, code)) && r == hip_translated(bytes, code));
        r
    }

    /// Asks for the identifier of the device. `query` is called once with
    /// the ordinal; for code 0 the identifier holds the bytes that it
    /// returned, each taken as an unsigned byte.
    pub fn get_device_uuid<F>(&self, query: F) -> (r: HipResult<uuid::Uuid>) where
        F: FnOnce(i32) -> ([i8; 16], u32),

        requires
            call_requires(query, (self@,)),
        ensures
            exists|bytes: [i8; 16], code: u32|
                call_ensures(query, (self@,), (bytes, code)) && match r {
                    Ok(id) => code == 0 && uuid_bytes(id) == unsigned_bytes(bytes@),
                    Err(e) => code != 0 && e == classified(code),
                },
    {
        let (bytes, code) = query(self.id);
        let r = if code == 0 {
            Ok(uuid_from_raw(bytes))
        } else {
            Err(HipError::new(code))
        };
        assert(call_ensures(query, (self@,), (bytes, code)) && match r {
            Ok(id) => code == 0 && uuid_bytes(id) == unsigned_bytes(bytes@),
            Err(e) => code != 0 && e == classified(code),
        });
        r
    }

    /// Asks for the PCI bus id of the device. `query` is called once with a
    /// buffer of zero bytes and the ordinal; it returns the buffer as the
    /// driver filled it and the raw code, which are translated.
    pub fn get_device_pci_bus_id<F>(&self, query: F) -> (r: HipResult<PCIBusId>) where
        F: FnOnce(PCIBusId, i32) -> (PCIBusId, u32),

        requires
            forall|fresh: PCIBusId| call_requires(query, (fresh, self@)),
        ensures
            exists|fresh: PCIBusId, filled: PCIBusId, code: u32|
                fresh@ == Seq::new(16, |i: int| 0i8) && call_ensures(
                    query,
                    (fresh, self@),
                    (filled, code),
                ) && r == hip_translated(filled, code),
    {
        let fresh = PCIBusId::new();
        let ghost given = fresh;
        let (filled, code) = query(fresh, self.id);
        let r = (filled, code).to_result();
        assert(given@ == Seq::new(16, |i: int| 0i8) && call_ensures(
            query,
            (given, self@),
            (filled, code),
        ) && r == hip_translated(filled, code));
        r
    }

    /// Asks for the default memory pool of the device. `query` is called
    /// once with the ordinal; it returns the handle and the raw code, which
    /// are translated: for code 0 the pool of that handle, known by the
    /// default properties.
    pub fn get_default_mem_pool<F>(&self, query: F) -> (r: HipResult<MemPool>) where
        F: FnOnce(i32) -> (usize, u32),

        requires
            call_requires(query, (self@,)),
        ensures
            exists|handle: usize, code: u32|
                call_ensures(query, (self@,), (handle, code)) && pool_viewed(r) == hip_translated(
                    PoolView { handle, props: default_props() },
                    code,
                ),
    {
        let (handle, code) = query(self.id);
        let r = (MemPool::from_raw(handle), code).to_result();
        assert(call_ensures(query, (self@,), (handle, code)) && pool_viewed(r) == hip_translated(
            PoolView { handle, props: default_props() },
            code,
        ));
        r
    }
}

/// Waits until all work on the active device is complete. `sync_fn` is
/// called once and its raw code is translated.
pub fn synchronize<F>(sync_fn: F) -> (r: HipResult<()>) where F: FnOnce() -> u32
    requires
        call_requires(sync_fn, ()),
    ensures
        exists|code: u32| call_ensures(sync_fn, (), code) && r == hip_translated((), code),
{
    let code = sync_fn();
    let r = ((), code).to_result();
    assert(call_ensures(sync_fn, (), code) && r == hip_translated((), code));
    r
}

/// Asks how many devices there are. `query` is called once and its outcome
/// is translated.
pub fn get_device_count<F>(query: F) -> (r: HipResult<i32>) where F: FnOnce() -> (i32, u32)
    requires
        call_requires(query, ()),
    ensures
        exists|count: i32, code: u32|
            call_ensures(query, (), (count, code)) && r == hip_translated(count, code),
{
    let (count, code) = query();
    let r = (count, code).to_result();
    assert(call_ensures(query, (), (count, code)) && r == hip_translated(count, code));
    r
}

/// Asks for an attribute of the link from one device to another. `query`
/// is called once with the raw code of the attribute and the two ordinals;
/// its outcome is translated.
pub fn get_device_p2p_attribute<F>(
    attr: DeviceP2PAttribute,
    src_device: Device,
    dst_device: Device,
    query: F,
) -> (r: HipResult<i32>) where F: FnOnce(u32, i32, i32) -> (i32, u32)
    requires
        call_requires(query, (attr.raw(), src_device@, dst_device@)),
    ensures
        exists|value: i32, code: u32|
            call_ensures(query, (attr.raw(), src_device@, dst_device@), (value, code)) && r
                == hip_translated(value, code),
{
    let (value, code) = query(attr.to_raw(), src_device.id, dst_device.id);
    let r = (value, code).to_result();
    assert(call_ensures(query, (attr.raw(), src_device@, dst_device@), (value, code)) && r
        == hip_translated(value, code));
    r
}

/// The outcome of a call that answers with a device, the device taken by
/// its ordinal.
pub open spec fn device_viewed(r: HipResult<Device>) -> Result<i32, HipError> {
    match r {
        Ok(device) => Ok(device@),
        Err(e) => Err(e),
    }
}

/// Asks which device is active on this thread. `query` is called once; it
/// returns the ordinal and the raw code, which are translated.
pub fn get_device<F>(query: F) -> (r: HipResult<Device>) where F: FnOnce() -> (i32, u32)
    requires
        call_requires(query, ()),
    ensures
        exists|id: i32, code: u32|
            call_ensures(query, (), (id, code)) && device_viewed(r) == hip_translated(id, code),
{
    let (id, code) = query();
    let r = (Device::new(id), code).to_result();
    assert(call_ensures(query, (), (id, code)) && device_viewed(r) == hip_translated(id, code));
    r
}

/// Makes a device the active one on this thread. `set_fn` is called once
/// with the ordinal; for code 0 the device comes back, else the classified
/// error.
pub fn set_device<F>(device: Device, set_fn: F) -> (r: HipResult<Device>) where
    F: FnOnce(i32) -> u32,

    requires
        call_requires(set_fn, (device@,)),
    ensures
        exists|code: u32|
            call_ensures(set_fn, (device@,), code) && r == hip_translated(device, code),
{
    let code = set_fn(device.id);
    let r = (device, code).to_result();
    assert(call_ensures(set_fn, (device@,), code) && r == hip_translated(device, code));
    r
}

/// Asks for the device of a PCI bus id. `lookup` is called once with the
/// id; it returns the ordinal and the raw code, which are translated.
pub fn get_device_by_pci_bus_id<F>(pci_bus_id: PCIBusId, lookup: F) -> (r: HipResult<
    Device,
>) where F: FnOnce(PCIBusId) -> (i32, u32)
    requires
        call_requires(lookup, (pci_bus_id,)),
    ensures
        exists|id: i32, code: u32|
            call_ensures(lookup, (pci_bus_id,), (id, code)) && device_viewed(r) == hip_translated(
                id,
                code,
            ),
{
    let ghost given = pci_bus_id;
    let (id, code) = lookup(pci_bus_id);
    let r = (Device::new(id), code).to_result();
    assert(call_ensures(lookup, (given,), (id, code)) && device_viewed(r) == hip_translated(
        id,
        code,
    ));
    r
}

} // verus!
