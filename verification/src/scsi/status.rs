//! Status information reported on completion of a SCSI command.
use vstd::prelude::*;
use vstd::string::*;

use crate::text::{hex_prefixed, to_hex_prefixed};

verus! {

/// SCSI status: the command completed successfully.
pub const STATUS_GOOD: u8 = 0x00;
/// SCSI status: sense data describes an error.
pub const STATUS_CHECK_CONDITION: u8 = 0x02;
/// SCSI status: a reservation conflict occurred.
pub const STATUS_RESERVATION_CONFLICT: u8 = 0x18;
/// SCSI status: the command was aborted.
pub const STATUS_TASK_ABORTED: u8 = 0x40;

/// Sense key: no specific sense key information.
pub const SENSE_NO_SENSE: u8 = 0x00;
/// Sense key: the logical unit is not ready.
pub const SENSE_NOT_READY: u8 = 0x02;
/// Sense key: a non-recoverable hardware failure.
pub const SENSE_HARDWARE_ERROR: u8 = 0x04;
/// Sense key: an illegal parameter in the command.
pub const SENSE_ILLEGAL_REQUEST: u8 = 0x05;
/// Sense key: a unit attention condition.
pub const SENSE_UNIT_ATTENTION: u8 = 0x06;
/// Sense key: the command was aborted.
pub const SENSE_ABORTED_COMMAND: u8 = 0x0b;
/// Sense key: the source data did not match the medium.
pub const SENSE_MISCOMPARE: u8 = 0x0e;

/// Additional sense code: no additional sense information.
pub const ASC_NO_ADDITIONAL_SENSE: u8 = 0x00;
/// Additional sense code: the logical unit is not ready.
pub const ASC_LOGICAL_UNIT_NOT_READY: u8 = 0x04;
/// Additional sense code: miscompare during a verify operation.
pub const ASC_MISCOMPARE_DURING_VERIFY_OPERATION: u8 = 0x1d;
/// Additional sense code: invalid command operation code.
pub const ASC_INVALID_COMMAND_OPERATION_CODE: u8 = 0x20;
/// Additional sense code: logical block address out of range.
pub const ASC_LOGICAL_BLOCK_ADDRESS_OUT_OF_RANGE: u8 = 0x21;
/// Additional sense code: invalid field in the command descriptor block.
pub const ASC_INVALID_FIELD_IN_CDB: u8 = 0x24;
/// Additional sense code: the logical unit is not supported.
pub const ASC_LOGICAL_UNIT_NOT_SUPPORTED: u8 = 0x25;
/// Additional sense code: capacity data has changed.
pub const ASC_CAPACITY_DATA_HAS_CHANGED: u8 = 0x2a;
/// Additional sense code: saving parameters is not supported.
pub const ASC_SAVING_PARAMETERS_NOT_SUPPORTED: u8 = 0x39;
/// Additional sense code: internal target failure.
pub const ASC_INTERNAL_TARGET_FAILURE: u8 = 0x44;

/// Additional sense code qualifier: a power loss is expected.
pub const ASCQ_POWER_LOSS_EXPECTED: u8 = 0x08;

/// The description of a known SCSI status, or `None` when the combination is unknown.
pub open spec fn spec_description(sc: u8, sk: u8, asc: u8, ascq: u8) -> Option<&'static str> {
    if sc == STATUS_GOOD {
        Some("the command was completed successfully")
    } else if sc == STATUS_CHECK_CONDITION {
        if sk == SENSE_NO_SENSE {
            if asc == ASC_NO_ADDITIONAL_SENSE { Some("the command failed") } else { None }
        } else if sk == SENSE_NOT_READY {
            if asc == ASC_NO_ADDITIONAL_SENSE {
                Some("the device is not ready")
            } else if asc == ASC_LOGICAL_UNIT_NOT_READY {
                Some("the logical unit is not ready")
            } else {
                None
            }
        } else if sk == SENSE_HARDWARE_ERROR {
            if asc == ASC_INTERNAL_TARGET_FAILURE {
                Some("the command was not completed due to an internal device error")
            } else {
                None
            }
        } else if sk == SENSE_ILLEGAL_REQUEST {
            if asc == ASC_INVALID_COMMAND_OPERATION_CODE {
                Some("the command opcode is invalid")
            } else if asc == ASC_LOGICAL_BLOCK_ADDRESS_OUT_OF_RANGE {
                Some("the logical block address is out of range")
            } else if asc == ASC_INVALID_FIELD_IN_CDB {
                Some("an invalid or unsupported field is specified in the command parameters")
            } else if asc == ASC_LOGICAL_UNIT_NOT_SUPPORTED {
                Some("the logical unit is not supported")
            } else if asc == ASC_SAVING_PARAMETERS_NOT_SUPPORTED {
                Some("saving parameters is not supported")
            } else {
                None
            }
        } else if sk == SENSE_UNIT_ATTENTION {
            if asc == ASC_CAPACITY_DATA_HAS_CHANGED {
                Some("the logical unit capacity has changed")
            } else {
                None
            }
        } else if sk == SENSE_MISCOMPARE {
            if asc == ASC_MISCOMPARE_DURING_VERIFY_OPERATION {
                Some("the data has changed")
            } else {
                None
            }
        } else {
            None
        }
    } else if sc == STATUS_RESERVATION_CONFLICT {
        Some("the reservation request comflicts with another reservation")
    } else if sc == STATUS_TASK_ABORTED {
        if sk == SENSE_ABORTED_COMMAND {
            if ascq == ASCQ_POWER_LOSS_EXPECTED {
                Some("the command was aborted because a power loss was detected")
            } else {
                Some("the command was aborted")
            }
        } else {
            None
        }
    } else {
        None
    }
}

/// The human readable message for a SCSI status.
pub open spec fn status_message(sc: u8, sk: u8, asc: u8, ascq: u8) -> Seq<char> {
    match spec_description(sc, sk, asc, ascq) {
        Some(d) => d@,
        None => "an unknown SCSI error occurred (code "@ + hex_prefixed(sc as nat) + ", sense "@
            + hex_prefixed(sk as nat) + ", asc "@ + hex_prefixed(asc as nat) + ", ascq "@
            + hex_prefixed(ascq as nat) + ")"@,
    }
}

/// Looks up the description of a SCSI status.
pub fn description(sc: u8, sk: u8, asc: u8, ascq: u8) -> (d: Option<&'static str>)
    ensures
        d == spec_description(sc, sk, asc, ascq),
{
    if sc == STATUS_GOOD {
        Some("the command was completed successfully")
    } else if sc == STATUS_CHECK_CONDITION {
        if sk == SENSE_NO_SENSE {
            if asc == ASC_NO_ADDITIONAL_SENSE { Some("the command failed") } else { None }
        } else if sk == SENSE_NOT_READY {
            if asc == ASC_NO_ADDITIONAL_SENSE {
                Some("the device is not ready")
            } else if asc == ASC_LOGICAL_UNIT_NOT_READY {
                Some("the logical unit is not ready")
            } else {
                None
            }
        } else if sk == SENSE_HARDWARE_ERROR {
            if asc == ASC_INTERNAL_TARGET_FAILURE {
                Some("the command was not completed due to an internal device error")
            } else {
                None
            }
        } else if sk == SENSE_ILLEGAL_REQUEST {
            if asc == ASC_INVALID_COMMAND_OPERATION_CODE {
                Some("the command opcode is invalid")
            } else if asc == ASC_LOGICAL_BLOCK_ADDRESS_OUT_OF_RANGE {
                Some("the logical block address is out of range")
            } else if asc == ASC_INVALID_FIELD_IN_CDB {
                Some("an invalid or unsupported field is specified in the command parameters")
            } else if asc == ASC_LOGICAL_UNIT_NOT_SUPPORTED {
                Some("the logical unit is not supported")
            } else if asc == ASC_SAVING_PARAMETERS_NOT_SUPPORTED {
                Some("saving parameters is not supported")
            } else {
                None
            }
        } else if sk == SENSE_UNIT_ATTENTION {
            if asc == ASC_CAPACITY_DATA_HAS_CHANGED {
                Some("the logical unit capacity has changed")
            } else {
                None
            }
        } else if sk == SENSE_MISCOMPARE {
            if asc == ASC_MISCOMPARE_DURING_VERIFY_OPERATION {
                Some("the data has changed")
            } else {
                None
            }
        } else {
            None
        }
    } else if sc == STATUS_RESERVATION_CONFLICT {
        Some("the reservation request comflicts with another reservation")
    } else if sc == STATUS_TASK_ABORTED {
        if sk == SENSE_ABORTED_COMMAND {
            if ascq == ASCQ_POWER_LOSS_EXPECTED {
                Some("the command was aborted because a power loss was detected")
            } else {
                Some("the command was aborted")
            }
        } else {
            None
        }
    } else {
        None
    }
}

/// Appends `label` and `code` in `{:#x}` form to `out`.
fn push_labelled_code(out: &mut String, label: &str, code: u8)
    ensures
        final(out)@ == old(out)@ + label@ + hex_prefixed(code as nat),
{
    out.append(label);
    let hex = to_hex_prefixed(code as u64);
    out.append(hex.as_str());
}

/// A type containing SCSI status information.
#[derive(Clone, Copy, Debug)]
pub struct ScsiStatus {
    /// SCSI status code
    pub sc: u8,
    /// SCSI sense key
    pub sk: u8,
    /// SCSI additional sense code
    pub asc: u8,
    /// SCSI additional sense code qualifier
    pub ascq: u8,
}

impl ScsiStatus {
    /// Returns the human readable message describing this status.
    pub fn to_string(&self) -> (s: String)
        ensures
            s@ == status_message(self.sc, self.sk, self.asc, self.ascq),
    {
        match description(self.sc, self.sk, self.asc, self.ascq) {
            Some(d) => String::from_str(d),
            None => {
                let mut s = String::new();
                push_labelled_code(&mut s, "an unknown SCSI error occurred (code ", self.sc);
                push_labelled_code(&mut s, ", sense ", self.sk);
                push_labelled_code(&mut s, ", asc ", self.asc);
                push_labelled_code(&mut s, ", ascq ", self.ascq);
                s.append(")");
                assert(s@ =~= status_message(self.sc, self.sk, self.asc, self.ascq));
                s
            },
        }
    }
}

/// Every SCSI status the library knows is described by its message, whatever the
/// qualifier (save for the one that tells an expected power loss), and every other
/// combination by the unknown-status message with its four codes in hexadecimal.
pub proof fn lemma_known_scsi_messages(sc: u8, sk: u8, asc: u8, ascq: u8)
    ensures
        sc == 0x00 ==> status_message(sc, sk, asc, ascq)
            == "the command was completed successfully"@,
        sc == 0x02 && sk == 0x00 && asc == 0x00 ==> status_message(sc, sk, asc, ascq)
            == "the command failed"@,
        sc == 0x02 && sk == 0x02 && asc == 0x00 ==> status_message(sc, sk, asc, ascq)
            == "the device is not ready"@,
        sc == 0x02 && sk == 0x02 && asc == 0x04 ==> status_message(sc, sk, asc, ascq)
            == "the logical unit is not ready"@,
        sc == 0x02 && sk == 0x04 && asc == 0x44 ==> status_message(sc, sk, asc, ascq)
            == "the command was not completed due to an internal device error"@,
        sc == 0x02 && sk == 0x05 && asc == 0x20 ==> status_message(sc, sk, asc, ascq)
            == "the command opcode is invalid"@,
        sc == 0x02 && sk == 0x05 && asc == 0x21 ==> status_message(sc, sk, asc, ascq)
            == "the logical block address is out of range"@,
        sc == 0x02 && sk == 0x05 && asc == 0x24 ==> status_message(sc, sk, asc, ascq)
            == "an invalid or unsupported field is specified in the command parameters"@,
        sc == 0x02 && sk == 0x05 && asc == 0x25 ==> status_message(sc, sk, asc, ascq)
            == "the logical unit is not supported"@,
        sc == 0x02 && sk == 0x05 && asc == 0x39 ==> status_message(sc, sk, asc, ascq)
            == "saving parameters is not supported"@,
        sc == 0x02 && sk == 0x06 && asc == 0x2a ==> status_message(sc, sk, asc, ascq)
            == "the logical unit capacity has changed"@,
        sc == 0x02 && sk == 0x0e && asc == 0x1d ==> status_message(sc, sk, asc, ascq)
            == "the data has changed"@,
        sc == 0x18 ==> status_message(sc, sk, asc, ascq)
            == "the reservation request comflicts with another reservation"@,
        sc == 0x40 && sk == 0x0b && ascq == 0x08 ==> status_message(sc, sk, asc, ascq)
            == "the command was aborted because a power loss was detected"@,
        sc == 0x40 && sk == 0x0b && ascq != 0x08 ==> status_message(sc, sk, asc, ascq)
            == "the command was aborted"@,
        !(sc == 0x00 || sc == 0x18 || (sc == 0x40 && sk == 0x0b) || (sc == 0x02 && (
        (sk == 0x00 && asc == 0x00) || (sk == 0x02 && (asc == 0x00 || asc == 0x04)) || (sk
            == 0x04 && asc == 0x44) || (sk == 0x05 && (asc == 0x20 || asc == 0x21 || asc == 0x24
            || asc == 0x25 || asc == 0x39)) || (sk == 0x06 && asc == 0x2a) || (sk == 0x0e && asc
            == 0x1d)))) ==> status_message(sc, sk, asc, ascq)
            == "an unknown SCSI error occurred (code "@ + hex_prefixed(sc as nat) + ", sense "@
            + hex_prefixed(sk as nat) + ", asc "@ + hex_prefixed(asc as nat) + ", ascq "@
            + hex_prefixed(ascq as nat) + ")"@,
{
}

} // verus!
