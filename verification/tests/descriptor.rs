//! Unit tests for descriptor records and fixed-size text field handling.

use gxci::descriptor::{
    gxi_alloc_device_list, serial_payload, trim_to_nul, GX_DEVICE_BASE_INFO, GX_DEVICE_IP_INFO,
    GX_INT_RANGE,
};

#[test]
fn trim_stops_at_first_nul() {
    let mut field = [0u8; 32];
    field[0] = b'S';
    field[1] = b'N';
    field[2] = b'7';
    assert_eq!(trim_to_nul(&field), b"SN7".to_vec());
}

#[test]
fn trim_keeps_everything_without_nul() {
    let field = [b'x'; 8];
    assert_eq!(trim_to_nul(&field), vec![b'x'; 8]);
}

#[test]
fn trim_of_empty_and_leading_nul() {
    assert_eq!(trim_to_nul(&[]), Vec::<u8>::new());
    assert_eq!(trim_to_nul(&[0, b'a', b'b']), Vec::<u8>::new());
}

#[test]
fn trim_ignores_text_after_nul() {
    assert_eq!(trim_to_nul(&[b'a', 0, b'b', 0, b'c']), vec![b'a']);
}

#[test]
fn serial_payload_is_trimmed_and_terminated() {
    let mut field = [0u8; 32];
    field[0] = b'C';
    field[1] = b'A';
    field[2] = b'M';
    assert_eq!(serial_payload(&field), vec![b'C', b'A', b'M', 0]);
    // A field with no NUL still gets exactly one terminator.
    assert_eq!(serial_payload(&[b'z'; 2]), vec![b'z', b'z', 0]);
}

#[test]
fn alloc_device_list_sized_to_count() {
    let list = gxi_alloc_device_list(3);
    assert_eq!(list.len(), 3);
    for info in &list {
        assert!(info.szSN.iter().all(|b| *b == 0));
        assert!(info.szVendorName.iter().all(|b| *b == 0));
        assert_eq!(info.accessStatus, 0);
        assert_eq!(info.deviceClass, 0);
    }
    assert!(gxi_alloc_device_list(0).is_empty());
}

#[test]
fn blank_base_info_has_zeroed_fields() {
    let info = GX_DEVICE_BASE_INFO::new();
    assert!(info.szModelName.iter().all(|b| *b == 0));
    assert!(info.szDisplayName.iter().all(|b| *b == 0));
    assert!(info.szDeviceID.iter().all(|b| *b == 0));
    assert!(info.szUserID.iter().all(|b| *b == 0));
}

#[test]
fn int_range_new_is_zeroed() {
    let r = GX_INT_RANGE::new();
    assert_eq!(r.nMin, 0);
    assert_eq!(r.nMax, 0);
    assert_eq!(r.nInc, 0);
    assert!(r.reserved.iter().all(|v| *v == 0));
}

#[test]
fn ip_info_field_widths_match_the_wire_format() {
    let info = GX_DEVICE_IP_INFO {
        szDeviceID: [0; 68],
        szMAC: [0; 32],
        szIP: [0; 32],
        szSubNetMask: [0; 32],
        szGateWay: [0; 32],
        szNICMAC: [0; 32],
        szNICIP: [0; 32],
        szNICSubNetMask: [0; 32],
        szNICGateWay: [0; 32],
        szNICDescription: [0; 132],
        reserved: [0; 512],
    };
    assert_eq!(info.szDeviceID.len(), 68);
    assert_eq!(info.szNICDescription.len(), 132);
}
