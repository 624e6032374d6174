//! Device descriptors: the enumeration records the driver fills in, and the
//! text handling around their fixed-size fields.
//!
//! Each descriptor carries fixed-size byte fields that hold text which is not
//! necessarily NUL-terminated up to the field's full length. Reading such a
//! field means taking the prefix before the first NUL byte; opening a device
//! by serial number means handing the driver that prefix with a terminating
//! NUL appended.

use vstd::prelude::*;

verus! {

pub const GX_INFO_LENGTH_32_BYTE: usize = 32;

pub const GX_INFO_LENGTH_64_BYTE: usize = 64;

pub const GX_INFO_LENGTH_128_BYTE: usize = 128;

/// One enumeration record: identification text fields, the access status and
/// the device class as driver-defined codes, and reserved space of the wire
/// format. Produced by enumeration, immutable thereafter.
#[allow(non_camel_case_types)]
#[allow(non_snake_case)]
#[derive(Debug, Clone)]
pub struct GX_DEVICE_BASE_INFO {
    pub szVendorName: [u8; 32],
    pub szModelName: [u8; 32],
    pub szSN: [u8; 32],
    pub szDisplayName: [u8; 128],
    pub szDeviceID: [u8; 64],
    pub szUserID: [u8; 64],
    pub accessStatus: i32,
    pub deviceClass: i32,
    pub reserved: [u8; 300],
}

/// Address information of a network device, as the driver reports it.
#[allow(non_camel_case_types)]
#[allow(non_snake_case)]
#[derive(Debug, Clone)]
pub struct GX_DEVICE_IP_INFO {
    pub szDeviceID: [u8; 68],
    pub szMAC: [u8; 32],
    pub szIP: [u8; 32],
    pub szSubNetMask: [u8; 32],
    pub szGateWay: [u8; 32],
    pub szNICMAC: [u8; 32],
    pub szNICIP: [u8; 32],
    pub szNICSubNetMask: [u8; 32],
    pub szNICGateWay: [u8; 32],
    pub szNICDescription: [u8; 132],
    pub reserved: [u8; 512],
}

/// The range of an integer camera feature.
#[allow(non_camel_case_types)]
#[allow(non_snake_case)]
#[derive(Debug, Clone)]
pub struct GX_INT_RANGE {
    pub nMin: i64,
    pub nMax: i64,
    pub nInc: i64,
    pub reserved: [i32; 8],
}

impl GX_INT_RANGE {
    /// A zeroed range, as handed to the driver to be filled in.
    pub fn new() -> (r: Self)
        ensures
            r.nMin == 0,
            r.nMax == 0,
            r.nInc == 0,
            forall|i: int| 0 <= i < 8 ==> r.reserved@[i] == 0i32,
    {
        Self { nMin: 0, nMax: 0, nInc: 0, reserved: [0; 8] }
    }
}

/// Every byte of every field is zero.
pub open spec fn base_info_blank(info: GX_DEVICE_BASE_INFO) -> bool {
    &&& forall|i: int| 0 <= i < 32 ==> info.szVendorName@[i] == 0u8
    &&& forall|i: int| 0 <= i < 32 ==> info.szModelName@[i] == 0u8
    &&& forall|i: int| 0 <= i < 32 ==> info.szSN@[i] == 0u8
    &&& forall|i: int| 0 <= i < 128 ==> info.szDisplayName@[i] == 0u8
    &&& forall|i: int| 0 <= i < 64 ==> info.szDeviceID@[i] == 0u8
    &&& forall|i: int| 0 <= i < 64 ==> info.szUserID@[i] == 0u8
    &&& info.accessStatus == 0
    &&& info.deviceClass == 0
}

impl GX_DEVICE_BASE_INFO {
    /// A zeroed record, as handed to the driver to be filled in.
    pub fn new() -> (r: Self)
        ensures
            base_info_blank(r),
    {
        Self {
            szVendorName: [0; 32],
            szModelName: [0; 32],
            szSN: [0; 32],
            szDisplayName: [0; 128],
            szDeviceID: [0; 64],
            szUserID: [0; 64],
            accessStatus: 0,
            deviceClass: 0,
            reserved: [0; 300],
        }
    }
}

/// Builds the out-array for the driver's descriptor query: one blank record
/// per reported device, so the capacity handed to the driver is derived
/// exactly from the count the driver itself returned.
pub fn gxi_alloc_device_list(device_num: u32) -> (r: Vec<GX_DEVICE_BASE_INFO>)
    ensures
        r@.len() == device_num,
        forall|i: int| 0 <= i < device_num ==> base_info_blank(#[trigger] r@[i]),
{
    let mut r: Vec<GX_DEVICE_BASE_INFO> = Vec::new();
    let mut i: u32 = 0;
    while i < device_num
        invariant
            i <= device_num,
            r@.len() == i,
            forall|j: int| 0 <= j < i ==> base_info_blank(#[trigger] r@[j]),
        decreases device_num - i,
    {
        r.push(GX_DEVICE_BASE_INFO::new());
        i = i + 1;
    }
    r
}

/// Index of the first NUL byte, or the length if none occurs.
pub open spec fn nul_index(s: Seq<u8>) -> int
    decreases s.len(),
{
    if s.len() == 0 {
        0
    } else if s[0] == 0 {
        0
    } else {
        1 + nul_index(s.skip(1))
    }
}

/// The text content of a fixed-size field: the prefix before the first NUL.
pub open spec fn trimmed(s: Seq<u8>) -> Seq<u8> {
    s.take(nul_index(s))
}

/// `nul_index` is the unique position with no NUL before it and a NUL (or the
/// end of the field) at it.
pub proof fn lemma_nul_index_of(s: Seq<u8>, i: int)
    requires
        0 <= i <= s.len(),
        forall|k: int| 0 <= k < i ==> s[k] != 0,
        i < s.len() ==> s[i] == 0,
    ensures
        nul_index(s) == i,
    decreases i,
{
    if i == 0 {
    } else {
        assert(forall|k: int| 0 <= k < i - 1 ==> s.skip(1)[k] == s[k + 1]);
        lemma_nul_index_of(s.skip(1), i - 1);
    }
}

/// Cuts a fixed-size text field down to its content: the bytes before the
/// first NUL, or the whole field if no NUL occurs.
pub fn trim_to_nul(field: &[u8]) -> (r: Vec<u8>)
    ensures
        r@ == trimmed(field@),
{
    let mut i: usize = 0;
    while i < field.len() && field[i] != 0
        invariant
            i <= field@.len(),
            forall|k: int| 0 <= k < i ==> field@[k] != 0,
        decreases field@.len() - i,
    {
        i = i + 1;
    }
    proof {
        lemma_nul_index_of(field@, i as int);
    }
    let mut r: Vec<u8> = Vec::new();
    let mut j: usize = 0;
    while j < i
        invariant
            j <= i,
            i <= field@.len(),
            r@ == field@.take(j as int),
        decreases i - j,
    {
        r.push(field[j]);
        assert(r@ == field@.take(j + 1 as int));
        j = j + 1;
    }
    r
}

/// Builds the NUL-terminated text payload for opening a device by serial
/// number: the trimmed serial field with a single terminating NUL appended.
pub fn serial_payload(field: &[u8]) -> (r: Vec<u8>)
    ensures
        r@ == trimmed(field@).push(0u8),
{
    let mut r = trim_to_nul(field);
    r.push(0u8);
    r
}

} // verus!
