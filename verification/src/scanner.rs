use vstd::prelude::*;
use crate::DeviceClass;

verus! {

/// The USB vendor id of the manufacturer whose devices this tool flashes.
pub const TARGET_VENDOR_ID: u16 = 0x3232;

/// What the operating system's serial enumeration reports for one attached
/// port: its name and the USB vendor/product identifiers.
pub struct PortDescriptor {
    pub name: String,
    pub vendor_id: u16,
    pub product_id: u16,
}

/// Which classes of device a scan should return.
#[derive(Clone, Copy, Debug, PartialEq, Eq, Structural)]
pub enum ScanFilter {
    BootloadersOnly,
    NodesOnly,
    Either,
}

/// Classification is a total function of the identifiers: a foreign vendor id
/// is in no class; under the target vendor, product id zero is a bootloader
/// and any other product id is a node.
pub open spec fn classify_spec(target_vendor: u16, vendor_id: u16, product_id: u16) -> Option<
    DeviceClass,
> {
    if vendor_id != target_vendor {
        None
    } else if product_id == 0 {
        Some(DeviceClass::Bootloader)
    } else {
        Some(DeviceClass::Node)
    }
}

/// Classifies one device by its USB identifiers: devices of a different
/// vendor fall in no class, a target-vendor device with product id zero is
/// a bootloader, and one with a nonzero product id is a node.
pub fn classify(target_vendor: u16, vendor_id: u16, product_id: u16) -> (r: Option<DeviceClass>)
    ensures
        r == classify_spec(target_vendor, vendor_id, product_id),
{
    if vendor_id != target_vendor {
        None
    } else if product_id == 0 {
        Some(DeviceClass::Bootloader)
    } else {
        Some(DeviceClass::Node)
    }
}

/// Whether a port passes the scan filter.
pub open spec fn admitted(
    filter: ScanFilter,
    target_vendor: u16,
    vendor_id: u16,
    product_id: u16,
) -> bool {
    match filter {
        ScanFilter::BootloadersOnly => classify_spec(target_vendor, vendor_id, product_id) == Some(
            DeviceClass::Bootloader,
        ),
        ScanFilter::NodesOnly => classify_spec(target_vendor, vendor_id, product_id) == Some(
            DeviceClass::Node,
        ),
        ScanFilter::Either => classify_spec(target_vendor, vendor_id, product_id) is Some,
    }
}

/// The names of the admitted ports, in enumeration order.
pub open spec fn scan_spec(
    ports: Seq<PortDescriptor>,
    target_vendor: u16,
    filter: ScanFilter,
) -> Seq<String>
    decreases ports.len(),
{
    if ports.len() == 0 {
        Seq::empty()
    } else {
        let prefix = scan_spec(ports.drop_last(), target_vendor, filter);
        let p = ports.last();
        if admitted(filter, target_vendor, p.vendor_id, p.product_id) {
            prefix.push(p.name)
        } else {
            prefix
        }
    }
}

/// Filters an enumerated port list down to the names of the devices the
/// filter asks for, keeping the enumeration order.
pub fn scan(ports: &Vec<PortDescriptor>, target_vendor: u16, filter: ScanFilter) -> (names: Vec<
    String,
>)
    ensures
        names@ == scan_spec(ports@, target_vendor, filter),
{
    let mut names: Vec<String> = Vec::new();
    let mut i: usize = 0;
    while i < ports.len()
        invariant
            i <= ports.len(),
            names@ == scan_spec(ports@.take(i as int), target_vendor, filter),
        decreases ports.len() - i,
    {
        let p = &ports[i];
        let keep = match filter {
            ScanFilter::BootloadersOnly => p.vendor_id == target_vendor && p.product_id == 0,
            ScanFilter::NodesOnly => p.vendor_id == target_vendor && p.product_id > 0,
            ScanFilter::Either => p.vendor_id == target_vendor,
        };
        if keep {
            names.push(p.name.clone());
        }
        proof {
            assert(ports@.take(i + 1 as int).drop_last() =~= ports@.take(i as int));
            assert(ports@.take(i + 1 as int).last() == ports@[i as int]);
        }
        i = i + 1;
    }
    proof {
        assert(ports@.take(ports@.len() as int) =~= ports@);
    }
    names
}

} // verus!
