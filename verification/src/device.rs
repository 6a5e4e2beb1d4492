//! Device snapshots: the raw record an enumerator reads from a device and
//! the classified description handed to the caller.
//!
//! The platform's USB stack produces one `DeviceRecord` per attached
//! device; classification stamps each record with the trust verdict taken
//! from the registry at that instant.

use vstd::prelude::*;

use crate::identity::DeviceIdentity;
use crate::registry::TrustRegistry;

verus! {

/// What the enumerator reads from one attached device: the descriptor's
/// identity and the optional string descriptors.  A device that could not
/// be opened, or lacks a string, carries `None` for that field.
pub struct DeviceRecord {
    pub vendor_id: u16,
    pub product_id: u16,
    pub manufacturer: Option<String>,
    pub product: Option<String>,
    pub serial_number: Option<String>,
}

impl DeviceRecord {
    pub open spec fn identity(&self) -> DeviceIdentity {
        DeviceIdentity { vendor_id: self.vendor_id, product_id: self.product_id }
    }
}

/// One attached USB device as reported to the caller: identity, optional
/// descriptive strings, and the trust verdict of the moment the listing
/// was classified.
pub struct UsbDeviceInfo {
    pub vendor_id: u16,
    pub product_id: u16,
    pub manufacturer: Option<String>,
    pub product: Option<String>,
    pub serial_number: Option<String>,
    pub port_number: Option<u8>,
    pub connected: bool,
    pub trusted: bool,
}

impl UsbDeviceInfo {
    pub open spec fn identity(&self) -> DeviceIdentity {
        DeviceIdentity { vendor_id: self.vendor_id, product_id: self.product_id }
    }
}

/// A record and the description made of it agree on every carried field,
/// the description is marked connected, and its trust verdict equals the
/// registry membership of the record's identity.
pub open spec fn classifies(rec: DeviceRecord, info: UsbDeviceInfo, trusted: Set<
    DeviceIdentity,
>) -> bool {
    &&& info.vendor_id == rec.vendor_id
    &&& info.product_id == rec.product_id
    &&& info.manufacturer == rec.manufacturer
    &&& info.product == rec.product
    &&& info.serial_number == rec.serial_number
    &&& info.port_number is None
    &&& info.connected == true
    &&& info.trusted == trusted.contains(rec.identity())
}

/// Turns the enumerator's raw records into the device listing handed to
/// the caller, stamping each with the trust verdict of this registry
/// snapshot.  Every record is reported; none is dropped or reordered.
pub fn classify_devices(records: Vec<DeviceRecord>, registry: &TrustRegistry) -> (r: Vec<
    UsbDeviceInfo,
>)
    ensures
        r@.len() == records@.len(),
        forall|i: int| 0 <= i < r@.len() ==> classifies(records@[i], r@[i], registry.trusted()),
{
    let ghost old_records = records@;
    let mut records = records;
    let mut r: Vec<UsbDeviceInfo> = Vec::new();
    let n = records.len();
    let mut i: usize = 0;
    while i < n
        invariant
            n == old_records.len(),
            records@ == old_records.subrange(i as int, n as int),
            0 <= i <= n,
            r@.len() == i,
            forall|k: int| 0 <= k < i ==> classifies(old_records[k], r@[k], registry.trusted()),
        decreases n - i,
    {
        let rec = records.remove(0);
        proof {
            assert(rec == old_records[i as int]);
            assert(records@ =~= old_records.subrange(i + 1, n as int));
        }
        let trusted = registry.contains(DeviceIdentity::new(rec.vendor_id, rec.product_id));
        r.push(
            UsbDeviceInfo {
                vendor_id: rec.vendor_id,
                product_id: rec.product_id,
                manufacturer: rec.manufacturer,
                product: rec.product,
                serial_number: rec.serial_number,
                port_number: None,
                connected: true,
                trusted,
            },
        );
        i += 1;
    }
    r
}

/// Whether a string descriptor should be queried at all: an absent index,
/// or the reserved index zero, means "no string available" and must be
/// reported as absent without touching the device.
pub fn should_query_string_descriptor(index: Option<u8>) -> (r: bool)
    ensures
        r == (index matches Some(i) && i != 0),
{
    match index {
        Some(i) => i != 0,
        None => false,
    }
}

} // verus!
