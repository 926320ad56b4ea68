use smbios_core::acquire::{
    dev_mem_stream, export_acquire, find_anchor, service_acquire, stream, ExportData, Host,
    ServiceProps,
};
use smbios_core::entry_point::{parse_entry_point, EntryPoint};
use smbios_core::error::Error;
use smbios_core::mem::{MemRegion, Segment};

/// A well-formed legacy (32-bit) entry-point header with both checksums
/// fixed up.
fn header32(major: u8, minor: u8, table_len: u16, table_addr: u32, count: u16) -> Vec<u8> {
    let mut h = vec![0u8; 31];
    h[0..4].copy_from_slice(b"_SM_");
    h[5] = 0x1f;
    h[6] = major;
    h[7] = minor;
    h[16..21].copy_from_slice(b"_DMI_");
    h[22..24].copy_from_slice(&table_len.to_le_bytes());
    h[24..28].copy_from_slice(&table_addr.to_le_bytes());
    h[28..30].copy_from_slice(&count.to_le_bytes());
    let isum: u32 = h[16..31].iter().map(|b| *b as u32).sum();
    h[21] = ((256 - (isum % 256)) % 256) as u8;
    let sum: u32 = h.iter().map(|b| *b as u32).sum();
    h[4] = ((256 - (sum % 256)) % 256) as u8;
    h
}

/// A well-formed extended (64-bit) entry-point header with its checksum
/// fixed up.
fn header64(major: u8, minor: u8, table_len: u32, table_addr: u64) -> Vec<u8> {
    let mut h = vec![0u8; 24];
    h[0..5].copy_from_slice(b"_SM3_");
    h[6] = 0x18;
    h[7] = major;
    h[8] = minor;
    h[12..16].copy_from_slice(&table_len.to_le_bytes());
    h[16..24].copy_from_slice(&table_addr.to_le_bytes());
    let sum: u32 = h.iter().map(|b| *b as u32).sum();
    h[5] = ((256 - (sum % 256)) % 256) as u8;
    h
}

/// A 64 KiB legacy scan window with a header placed at the given offset.
fn window_with(header: &[u8], offset: usize) -> Vec<u8> {
    let mut w = vec![0u8; 0x1_0000];
    w[offset..offset + header.len()].copy_from_slice(header);
    w
}

fn region(segments: Vec<Segment>) -> MemRegion {
    MemRegion { segments }
}

#[test]
fn find_anchor_returns_first_valid_offset() {
    let h = header32(3, 2, 0x40, 0x1234, 7);
    let mut w = vec![0u8; 0x200];
    w[0x20..0x20 + 31].copy_from_slice(&h);
    w[0x80..0x80 + 31].copy_from_slice(&h);
    let m = region(vec![Segment { base: 0, bytes: w }]);
    assert_eq!(find_anchor(&m, 0, 0x200), Ok(0x20));
}

#[test]
fn find_anchor_without_anchor_is_not_found() {
    let m = region(vec![Segment { base: 0, bytes: vec![0u8; 0x200] }]);
    assert_eq!(find_anchor(&m, 0, 0x200), Err(Error::EntryPointNotFound));
}

#[test]
fn find_anchor_unreadable_range_is_io() {
    let m = region(vec![Segment { base: 0, bytes: vec![0u8; 0x100] }]);
    assert_eq!(find_anchor(&m, 0, 0x200), Err(Error::Io));
}

#[test]
fn corrupt_checksum_is_skipped_not_returned() {
    let mut bad = header32(3, 2, 0x40, 0x1234, 7);
    bad[4] = bad[4].wrapping_add(1);
    let good = header32(3, 2, 0x40, 0x1234, 7);
    let mut w = vec![0u8; 0x200];
    w[0x10..0x10 + 31].copy_from_slice(&bad);
    w[0x40..0x40 + 31].copy_from_slice(&good);
    let m = region(vec![Segment { base: 0, bytes: w }]);
    assert_eq!(find_anchor(&m, 0, 0x200), Ok(0x40));
}

#[test]
fn corrupt_checksum_alone_is_not_found() {
    let mut bad = header32(3, 2, 0x40, 0x1234, 7);
    bad[4] = bad[4].wrapping_add(1);
    let mut w = vec![0u8; 0x200];
    w[0x10..0x10 + 31].copy_from_slice(&bad);
    let m = region(vec![Segment { base: 0, bytes: w }]);
    assert_eq!(find_anchor(&m, 0, 0x200), Err(Error::EntryPointNotFound));
}

#[test]
fn parse_wrong_header_length_is_invalid() {
    let mut h = header32(3, 2, 0x40, 0x1234, 7);
    h[5] = 0x20;
    // Keep the main checksum consistent so only the length field is wrong.
    h[4] = h[4].wrapping_sub(1);
    assert_eq!(parse_entry_point(&h), Err(Error::InvalidEntryPoint));
}

#[test]
fn parse_bad_intermediate_checksum_is_invalid() {
    let mut h = header32(3, 2, 0x40, 0x1234, 7);
    h[21] = h[21].wrapping_add(1);
    assert_eq!(parse_entry_point(&h), Err(Error::InvalidEntryPoint));
}

#[test]
fn parse_zero_table_length_is_invalid() {
    let h = header32(3, 2, 0, 0x1234, 7);
    assert_eq!(parse_entry_point(&h), Err(Error::InvalidEntryPoint));
}

#[test]
fn parse_short_buffer_is_invalid() {
    let h = header32(3, 2, 0x40, 0x1234, 7);
    let short = h[..30].to_vec();
    assert_eq!(parse_entry_point(&short), Err(Error::InvalidEntryPoint));
}

#[test]
fn parse_roundtrip_bits32_matches_header_fields() {
    let h = header32(2, 8, 0x1000, 0x7FFE_0000, 42);
    match parse_entry_point(&h) {
        Ok(EntryPoint::Bits32(e)) => {
            assert_eq!(e.major, 2);
            assert_eq!(e.minor, 8);
            assert_eq!(e.table_length, 0x1000);
            assert_eq!(e.table_address, 0x7FFE_0000);
            assert_eq!(e.structure_count, 42);
        }
        other => panic!("expected a 32-bit entry point, got {:?}", other),
    }
}

#[test]
fn parse_roundtrip_bits64_matches_header_fields() {
    let h = header64(3, 7, 0x2345, 0x1_2345_6789);
    match parse_entry_point(&h) {
        Ok(EntryPoint::Bits64(e)) => {
            assert_eq!(e.major, 3);
            assert_eq!(e.minor, 7);
            assert_eq!(e.table_length, 0x2345);
            assert_eq!(e.table_address, 0x1_2345_6789);
        }
        other => panic!("expected a 64-bit entry point, got {:?}", other),
    }
}

#[test]
fn table_widens_without_sign_extension() {
    let h = header32(2, 8, 0xFFFF, 0xFFFF_FFF0, 1);
    let ep = parse_entry_point(&h).unwrap();
    assert_eq!(ep.table(), (0xFFFF_FFF0u64, 0xFFFFu64));
}

#[test]
fn region_read_is_exact() {
    let m = region(vec![Segment { base: 0x100, bytes: (0u8..=255).collect() }]);
    let v = m.read(0x110, 0x20).unwrap();
    assert_eq!(v.len(), 0x20);
    assert_eq!(v[0], 0x10);
    assert_eq!(v[0x1F], 0x2F);
}

#[test]
fn truncated_table_fails_with_io() {
    let h = header32(2, 8, 0x1000, 0x7FFE_0000, 9);
    let w = window_with(&h, 0x10);
    let m = region(vec![
        Segment { base: 0xF_0000, bytes: w },
        Segment { base: 0x7FFE_0000, bytes: vec![0u8; 0x800] },
    ]);
    match dev_mem_stream(&m) {
        Err(e) => assert_eq!(e, Error::Io),
        Ok(_) => panic!("a truncated table must not be returned short"),
    }
}

#[test]
fn memory_scan_scenario_returns_declared_table() {
    let h = header32(2, 8, 0x1000, 0x7FFE_0000, 9);
    let w = window_with(&h, 0x10);
    let host = Host {
        export: None,
        memory: Some(region(vec![
            Segment { base: 0xF_0000, bytes: w },
            Segment { base: 0x7FFE_0000, bytes: vec![0xABu8; 0x1000] },
        ])),
        service: None,
    };
    match stream(host) {
        Ok(r) => {
            assert!(matches!(r.entry_point, EntryPoint::Bits32(_)));
            assert_eq!(r.entry_point.table(), (0x7FFE_0000u64, 0x1000u64));
            assert_eq!(r.table.len(), 4096);
            assert!(r.table.iter().all(|b| *b == 0xAB));
        }
        Err(e) => panic!("the scan backend should have succeeded, got {:?}", e),
    }
}

#[test]
fn export_is_chosen_over_memory_scan() {
    let h = header32(2, 8, 4, 0, 1);
    let scan_bytes = window_with(&header32(3, 0, 0x1000, 0x7FFE_0000, 9), 0x10);
    let host = Host {
        export: Some(ExportData {
            entry_point: Some(h),
            table: Some(vec![1, 2, 3, 4]),
        }),
        memory: Some(region(vec![
            Segment { base: 0xF_0000, bytes: scan_bytes },
            Segment { base: 0x7FFE_0000, bytes: vec![0u8; 0x1000] },
        ])),
        service: None,
    };
    match stream(host) {
        Ok(r) => {
            // The export backend's table, not the memory scan's, comes back.
            assert_eq!(r.table, vec![1, 2, 3, 4]);
            match r.entry_point {
                EntryPoint::Bits32(e) => assert_eq!(e.major, 2),
                other => panic!("expected a 32-bit entry point, got {:?}", other),
            }
        }
        Err(e) => panic!("the export backend should have succeeded, got {:?}", e),
    }
}

#[test]
fn memory_scan_is_chosen_over_service() {
    let w = window_with(&header32(3, 0, 0x100, 0x7FFE_0000, 9), 0x10);
    let host = Host {
        export: None,
        memory: Some(region(vec![
            Segment { base: 0xF_0000, bytes: w },
            Segment { base: 0x7FFE_0000, bytes: vec![0x5Au8; 0x100] },
        ])),
        service: Some(ServiceProps {
            entry_point: Some(header32(2, 0, 4, 0, 1)),
            table: Some(vec![9, 9, 9]),
        }),
    };
    match stream(host) {
        Ok(r) => {
            assert_eq!(r.table.len(), 0x100);
            assert!(r.table.iter().all(|b| *b == 0x5A));
        }
        Err(e) => panic!("the memory backend should have succeeded, got {:?}", e),
    }
}

#[test]
fn no_backend_available_is_not_found() {
    let host = Host { export: None, memory: None, service: None };
    match stream(host) {
        Err(e) => assert_eq!(e, Error::EntryPointNotFound),
        Ok(_) => panic!("no backend was available"),
    }
}

#[test]
fn export_missing_blob_is_io() {
    let r = export_acquire(ExportData { entry_point: None, table: Some(vec![1]) });
    match r {
        Err(e) => assert_eq!(e, Error::Io),
        Ok(_) => panic!("a missing blob must fail"),
    }
}

#[test]
fn export_returns_table_verbatim() {
    let h = header64(3, 4, 0x10, 0x20);
    let r = export_acquire(ExportData {
        entry_point: Some(h),
        table: Some(vec![0xDE, 0xAD, 0xBE, 0xEF]),
    });
    match r {
        Ok(a) => {
            assert!(matches!(a.entry_point, EntryPoint::Bits64(_)));
            assert_eq!(a.table, vec![0xDE, 0xAD, 0xBE, 0xEF]);
        }
        Err(e) => panic!("expected success, got {:?}", e),
    }
}

#[test]
fn service_missing_property_fails() {
    let r = service_acquire(ServiceProps { entry_point: Some(vec![1, 2, 3]), table: None });
    match r {
        Err(e) => assert_eq!(e, Error::ServiceFailed),
        Ok(_) => panic!("a missing property must fail"),
    }
}

#[test]
fn service_empty_buffer_fails() {
    let r = service_acquire(ServiceProps {
        entry_point: Some(header32(2, 0, 4, 0, 1)),
        table: Some(Vec::new()),
    });
    match r {
        Err(e) => assert_eq!(e, Error::ServiceFailed),
        Ok(_) => panic!("an empty buffer must fail"),
    }
}

#[test]
fn service_returns_owned_copies() {
    let h = header32(2, 1, 3, 0, 1);
    let r = service_acquire(ServiceProps {
        entry_point: Some(h),
        table: Some(vec![7, 8, 9]),
    });
    match r {
        Ok(a) => {
            assert_eq!(a.table, vec![7, 8, 9]);
            match a.entry_point {
                EntryPoint::Bits32(e) => {
                    assert_eq!(e.major, 2);
                    assert_eq!(e.minor, 1);
                }
                other => panic!("expected a 32-bit entry point, got {:?}", other),
            }
        }
        Err(e) => panic!("expected success, got {:?}", e),
    }
}
