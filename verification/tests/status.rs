use spdk::nvme::status::{
    NvmeStatus, SCT_COMMAND_SPECIFIC, SCT_GENERIC, SCT_MEDIA_ERROR, SCT_PATH, SCT_VENDOR_SPECIFIC,
};
use spdk::scsi::status::ScsiStatus;
use spdk::text::{to_decimal, to_hex_prefixed};

fn nvme(sct: u8, sc: u8) -> String {
    NvmeStatus { cdw0: 0, sct, sc }.to_string()
}

fn scsi(sc: u8, sk: u8, asc: u8, ascq: u8) -> String {
    ScsiStatus { sc, sk, asc, ascq }.to_string()
}

#[test]
fn hex_rendering_matches_alternate_lower_hex() {
    for n in [0u64, 1, 9, 10, 15, 16, 0xab, 0xff, 0x1234, u64::MAX] {
        assert_eq!(to_hex_prefixed(n), format!("{:#x}", n));
    }
}

#[test]
fn decimal_rendering_matches_display() {
    for n in [0u64, 7, 10, 99, 8080, 65535, u64::MAX] {
        assert_eq!(to_decimal(n), format!("{}", n));
    }
}

#[test]
fn nvme_generic_known_codes() {
    assert_eq!(nvme(SCT_GENERIC, 0x00), "completed successfully");
    assert_eq!(nvme(SCT_GENERIC, 0x01), "the command opcode is invalid");
    assert_eq!(nvme(SCT_GENERIC, 0x29), "flexible data placement is disabled");
    assert_eq!(nvme(SCT_GENERIC, 0x80), "the logical block address is out of range");
    assert_eq!(nvme(SCT_GENERIC, 0x89), "the key already exists");
}

#[test]
fn nvme_generic_unknown_code() {
    assert_eq!(
        nvme(SCT_GENERIC, 0x17),
        "an unknown generic NVMe error occurred (code 0x17)"
    );
    assert_eq!(
        nvme(SCT_GENERIC, 0xff),
        "an unknown generic NVMe error occurred (code 0xff)"
    );
}

#[test]
fn nvme_command_specific_codes() {
    assert_eq!(
        nvme(SCT_COMMAND_SPECIFIC, 0x00),
        "the specified completion queue identifier is invalid"
    );
    assert_eq!(nvme(SCT_COMMAND_SPECIFIC, 0xb9), "the zone is full");
    assert_eq!(
        nvme(SCT_COMMAND_SPECIFIC, 0x04),
        "an unknown NVMe command-specific error occurred (code 0x4)"
    );
}

#[test]
fn nvme_media_and_path_codes() {
    assert_eq!(nvme(SCT_MEDIA_ERROR, 0x85), "the data has changed");
    assert_eq!(
        nvme(SCT_MEDIA_ERROR, 0x00),
        "an unknown NVMe media error occurred (code 0x0)"
    );
    assert_eq!(
        nvme(SCT_PATH, 0x71),
        "the multi-path command was aborted by the host"
    );
    assert_eq!(
        nvme(SCT_PATH, 0x04),
        "an unknown NVME multi-path error occurred (code 0x4)"
    );
}

#[test]
fn nvme_vendor_and_unknown_types() {
    assert_eq!(
        nvme(SCT_VENDOR_SPECIFIC, 0x12),
        "a vendor-specific NVMe error occurred (code 0x12)"
    );
    assert_eq!(
        nvme(5, 0xab),
        "an unknown NVMe error occurred (type 0x5, code 0xab)"
    );
}

#[test]
fn scsi_known_statuses() {
    assert_eq!(scsi(0x00, 0, 0, 0), "the command was completed successfully");
    assert_eq!(scsi(0x02, 0x00, 0x00, 0), "the command failed");
    assert_eq!(scsi(0x02, 0x02, 0x04, 0), "the logical unit is not ready");
    assert_eq!(scsi(0x02, 0x05, 0x24, 0), "an invalid or unsupported field is specified in the command parameters");
    assert_eq!(scsi(0x02, 0x06, 0x2a, 0), "the logical unit capacity has changed");
    assert_eq!(scsi(0x18, 0, 0, 0), "the reservation request comflicts with another reservation");
    assert_eq!(
        scsi(0x40, 0x0b, 0x00, 0x08),
        "the command was aborted because a power loss was detected"
    );
    assert_eq!(scsi(0x40, 0x0b, 0x00, 0x01), "the command was aborted");
}

#[test]
fn scsi_unknown_statuses() {
    assert_eq!(
        scsi(0x02, 0x03, 0x00, 0x00),
        "an unknown SCSI error occurred (code 0x2, sense 0x3, asc 0x0, ascq 0x0)"
    );
    assert_eq!(
        scsi(0x40, 0x05, 0x10, 0x20),
        "an unknown SCSI error occurred (code 0x40, sense 0x5, asc 0x10, ascq 0x20)"
    );
    assert_eq!(
        scsi(0x08, 0, 0, 0),
        "an unknown SCSI error occurred (code 0x8, sense 0x0, asc 0x0, ascq 0x0)"
    );
}
