//! Status information reported on completion of an NVMe command.
use vstd::prelude::*;
use vstd::string::*;

use crate::text::{hex_prefixed, to_hex_prefixed};

verus! {

/// Status code type: generic command status.
pub const SCT_GENERIC: u8 = 0x0;
/// Status code type: command-specific status.
pub const SCT_COMMAND_SPECIFIC: u8 = 0x1;
/// Status code type: media and data integrity errors.
pub const SCT_MEDIA_ERROR: u8 = 0x2;
/// Status code type: path related status.
pub const SCT_PATH: u8 = 0x3;
/// Status code type: vendor specific.
pub const SCT_VENDOR_SPECIFIC: u8 = 0x7;
// Generic command status codes.
pub const SC_SUCCESS: u8 = 0x00;
pub const SC_INVALID_OPCODE: u8 = 0x01;
pub const SC_INVALID_FIELD: u8 = 0x02;
pub const SC_COMMAND_ID_CONFLICT: u8 = 0x03;
pub const SC_DATA_TRANSFER_ERROR: u8 = 0x04;
pub const SC_ABORTED_POWER_LOSS: u8 = 0x05;
pub const SC_INTERNAL_DEVICE_ERROR: u8 = 0x06;
pub const SC_ABORTED_BY_REQUEST: u8 = 0x07;
pub const SC_ABORTED_SQ_DELETION: u8 = 0x08;
pub const SC_ABORTED_FAILED_FUSED: u8 = 0x09;
pub const SC_ABORTED_MISSING_FUSED: u8 = 0x0a;
pub const SC_INVALID_NAMESPACE_OR_FORMAT: u8 = 0x0b;
pub const SC_COMMAND_SEQUENCE_ERROR: u8 = 0x0c;
pub const SC_INVALID_SGL_SEG_DESCRIPTOR: u8 = 0x0d;
pub const SC_INVALID_NUM_SGL_DESCIRPTORS: u8 = 0x0e;
pub const SC_DATA_SGL_LENGTH_INVALID: u8 = 0x0f;
pub const SC_METADATA_SGL_LENGTH_INVALID: u8 = 0x10;
pub const SC_SGL_DESCRIPTOR_TYPE_INVALID: u8 = 0x11;
pub const SC_INVALID_CONTROLLER_MEM_BUF: u8 = 0x12;
pub const SC_INVALID_PRP_OFFSET: u8 = 0x13;
pub const SC_ATOMIC_WRITE_UNIT_EXCEEDED: u8 = 0x14;
pub const SC_OPERATION_DENIED: u8 = 0x15;
pub const SC_INVALID_SGL_OFFSET: u8 = 0x16;
pub const SC_HOSTID_INCONSISTENT_FORMAT: u8 = 0x18;
pub const SC_KEEP_ALIVE_EXPIRED: u8 = 0x19;
pub const SC_KEEP_ALIVE_INVALID: u8 = 0x1a;
pub const SC_ABORTED_PREEMPT: u8 = 0x1b;
pub const SC_SANITIZE_FAILED: u8 = 0x1c;
pub const SC_SANITIZE_IN_PROGRESS: u8 = 0x1d;
pub const SC_SGL_DATA_BLOCK_GRANULARITY_INVALID: u8 = 0x1e;
pub const SC_COMMAND_INVALID_IN_CMB: u8 = 0x1f;
pub const SC_COMMAND_NAMESPACE_IS_PROTECTED: u8 = 0x20;
pub const SC_COMMAND_INTERRUPTED: u8 = 0x21;
pub const SC_COMMAND_TRANSIENT_TRANSPORT_ERROR: u8 = 0x22;
pub const SC_COMMAND_PROHIBITED_BY_LOCKDOWN: u8 = 0x23;
pub const SC_ADMIN_COMMAND_MEDIA_NOT_READY: u8 = 0x24;
pub const SC_FDP_DISABLED: u8 = 0x29;
pub const SC_INVALID_PLACEMENT_HANDLE_LIST: u8 = 0x2a;
pub const SC_LBA_OUT_OF_RANGE: u8 = 0x80;
pub const SC_CAPACITY_EXCEEDED: u8 = 0x81;
pub const SC_NAMESPACE_NOT_READY: u8 = 0x82;
pub const SC_RESERVATION_CONFLICT: u8 = 0x83;
pub const SC_FORMAT_IN_PROGRESS: u8 = 0x84;
pub const SC_INVALID_VALUE_SIZE: u8 = 0x85;
pub const SC_INVALID_KEY_SIZE: u8 = 0x86;
pub const SC_KV_KEY_DOES_NOT_EXIST: u8 = 0x87;
pub const SC_UNRECOVERED_ERROR: u8 = 0x88;
pub const SC_KEY_EXISTS: u8 = 0x89;

// Command-specific status codes.
pub const SC_COMPLETION_QUEUE_INVALID: u8 = 0x00;
pub const SC_INVALID_QUEUE_IDENTIFIER: u8 = 0x01;
pub const SC_INVALID_QUEUE_SIZE: u8 = 0x02;
pub const SC_ABORT_COMMAND_LIMIT_EXCEEDED: u8 = 0x03;
pub const SC_ASYNC_EVENT_REQUEST_LIMIT_EXCEEDED: u8 = 0x05;
pub const SC_INVALID_FIRMWARE_SLOT: u8 = 0x06;
pub const SC_INVALID_FIRMWARE_IMAGE: u8 = 0x07;
pub const SC_INVALID_INTERRUPT_VECTOR: u8 = 0x08;
pub const SC_INVALID_LOG_PAGE: u8 = 0x09;
pub const SC_INVALID_FORMAT: u8 = 0x0a;
pub const SC_FIRMWARE_REQ_CONVENTIONAL_RESET: u8 = 0x0b;
pub const SC_INVALID_QUEUE_DELETION: u8 = 0x0c;
pub const SC_FEATURE_ID_NOT_SAVEABLE: u8 = 0x0d;
pub const SC_FEATURE_NOT_CHANGEABLE: u8 = 0x0e;
pub const SC_FEATURE_NOT_NAMESPACE_SPECIFIC: u8 = 0x0f;
pub const SC_FIRMWARE_REQ_NVM_RESET: u8 = 0x10;
pub const SC_FIRMWARE_REQ_RESET: u8 = 0x11;
pub const SC_FIRMWARE_REQ_MAX_TIME_VIOLATION: u8 = 0x12;
pub const SC_FIRMWARE_ACTIVATION_PROHIBITED: u8 = 0x13;
pub const SC_OVERLAPPING_RANGE: u8 = 0x14;
pub const SC_NAMESPACE_INSUFFICIENT_CAPACITY: u8 = 0x15;
pub const SC_NAMESPACE_ID_UNAVAILABLE: u8 = 0x16;
pub const SC_NAMESPACE_ALREADY_ATTACHED: u8 = 0x18;
pub const SC_NAMESPACE_IS_PRIVATE: u8 = 0x19;
pub const SC_NAMESPACE_NOT_ATTACHED: u8 = 0x1a;
pub const SC_THINPROVISIONING_NOT_SUPPORTED: u8 = 0x1b;
pub const SC_CONTROLLER_LIST_INVALID: u8 = 0x1c;
pub const SC_DEVICE_SELF_TEST_IN_PROGRESS: u8 = 0x1d;
pub const SC_BOOT_PARTITION_WRITE_PROHIBITED: u8 = 0x1e;
pub const SC_INVALID_CTRLR_ID: u8 = 0x1f;
pub const SC_INVALID_SECONDARY_CTRLR_STATE: u8 = 0x20;
pub const SC_INVALID_NUM_CTRLR_RESOURCES: u8 = 0x21;
pub const SC_INVALID_RESOURCE_ID: u8 = 0x22;
pub const SC_SANITIZE_PROHIBITED: u8 = 0x23;
pub const SC_ANA_GROUP_IDENTIFIER_INVALID: u8 = 0x24;
pub const SC_ANA_ATTACH_FAILED: u8 = 0x25;
pub const SC_INSUFFICIENT_CAPACITY: u8 = 0x26;
pub const SC_NAMESPACE_ATTACH_LIMIT_EXCEEDED: u8 = 0x27;
pub const SC_PROHIBIT_CMD_EXEC_NOT_SUPPORTED: u8 = 0x28;
pub const SC_IOCS_NOT_SUPPORTED: u8 = 0x29;
pub const SC_IOCS_NOT_ENABLED: u8 = 0x2a;
pub const SC_IOCS_COMBINATION_REJECTED: u8 = 0x2b;
pub const SC_INVALID_IOCS: u8 = 0x2c;
pub const SC_IDENTIFIER_UNAVAILABLE: u8 = 0x2d;
pub const SC_STREAM_RESOURCE_ALLOCATION_FAILED: u8 = 0x7f;
pub const SC_CONFLICTING_ATTRIBUTES: u8 = 0x80;
pub const SC_INVALID_PROTECTION_INFO: u8 = 0x81;
pub const SC_ATTEMPTED_WRITE_TO_RO_RANGE: u8 = 0x82;
pub const SC_CMD_SIZE_LIMIT_SIZE_EXCEEDED: u8 = 0x83;
pub const SC_ZONED_BOUNDARY_ERROR: u8 = 0xb8;
pub const SC_ZONE_IS_FULL: u8 = 0xb9;
pub const SC_ZONE_IS_READ_ONLY: u8 = 0xba;
pub const SC_ZONE_IS_OFFLINE: u8 = 0xbb;
pub const SC_ZONE_INVALID_WRITE: u8 = 0xbc;
pub const SC_TOO_MANY_ACTIVE_ZONES: u8 = 0xbd;
pub const SC_TOO_MANY_OPEN_ZONES: u8 = 0xbe;
pub const SC_INVALID_ZONE_STATE_TRANSITION: u8 = 0xbf;

// Media and data integrity error status codes.
pub const SC_WRITE_FAULTS: u8 = 0x80;
pub const SC_UNRECOVERED_READ_ERROR: u8 = 0x81;
pub const SC_GUARD_CHECK_ERROR: u8 = 0x82;
pub const SC_APPLICATION_TAG_CHECK_ERROR: u8 = 0x83;
pub const SC_REFERENCE_TAG_CHECK_ERROR: u8 = 0x84;
pub const SC_COMPARE_FAILURE: u8 = 0x85;
pub const SC_ACCESS_DENIED: u8 = 0x86;
pub const SC_DEALLOCATED_OR_UNWRITTEN_BLOCK: u8 = 0x87;
pub const SC_END_TO_END_STORAGE_TAG_CHECK_ERROR: u8 = 0x88;

// Path related status codes.
pub const SC_INTERNAL_PATH_ERROR: u8 = 0x00;
pub const SC_ASYMMETRIC_ACCESS_PERSISTENT_LOSS: u8 = 0x01;
pub const SC_ASYMMETRIC_ACCESS_INACCESSIBLE: u8 = 0x02;
pub const SC_ASYMMETRIC_ACCESS_TRANSITION: u8 = 0x03;
pub const SC_CONTROLLER_PATH_ERROR: u8 = 0x60;
pub const SC_HOST_PATH_ERROR: u8 = 0x70;
pub const SC_ABORTED_BY_HOST: u8 = 0x71;

/// The description of a known generic command status code, or `None` for an unknown one.
pub open spec fn spec_generic_description(sc: u8) -> Option<&'static str> {
    match sc {
        SC_SUCCESS => Some("completed successfully"),
        SC_INVALID_OPCODE => Some("the command opcode is invalid"),
        SC_INVALID_FIELD => Some("an invalid or unsupported field is specified in the command parameters"),
        SC_COMMAND_ID_CONFLICT => Some("the command identifier is already in use"),
        SC_DATA_TRANSFER_ERROR => Some("an error occurred transferring the data or metadata associated with a command"),
        SC_ABORTED_POWER_LOSS => Some("the command was aborted due to a power loss notification"),
        SC_INTERNAL_DEVICE_ERROR => Some("the command was not completed due to an internal device error"),
        SC_ABORTED_BY_REQUEST => Some("the command was aborted by request"),
        SC_ABORTED_SQ_DELETION => Some("the command was aborted because its submission queue was deleted"),
        SC_ABORTED_FAILED_FUSED => Some("the command was aborted because its companion fused command failed"),
        SC_ABORTED_MISSING_FUSED => Some("the command was aborted because its companion fused command was not the next command in the submission queue"),
        SC_INVALID_NAMESPACE_OR_FORMAT => Some("the namespace or its format is invalid"),
        SC_COMMAND_SEQUENCE_ERROR => Some("the command was aborted due to a protocol violation in a multi-command sequence"),
        SC_INVALID_SGL_SEG_DESCRIPTOR => Some("the command includes an invalid SGL descriptor"),
        SC_INVALID_NUM_SGL_DESCIRPTORS => Some("the command includes a last SGL descriptor in the wrong position"),
        SC_DATA_SGL_LENGTH_INVALID => Some("the command includes a data SGL with an invalid length"),
        SC_METADATA_SGL_LENGTH_INVALID => Some("the command includes a metadata SGL with an invalid length"),
        SC_SGL_DESCRIPTOR_TYPE_INVALID => Some("the command includes an unsupported SGL type"),
        SC_INVALID_CONTROLLER_MEM_BUF => Some("use of the controller memory buffer is not supported"),
        SC_INVALID_PRP_OFFSET => Some("a PRP entry contains an invalid offset"),
        SC_ATOMIC_WRITE_UNIT_EXCEEDED => Some("the length exceeds the atomic write unit size"),
        SC_OPERATION_DENIED => Some("the command failed due to insufficient access rights"),
        SC_INVALID_SGL_OFFSET => Some("an SGL entry contains an invalid offset"),
        SC_HOSTID_INCONSISTENT_FORMAT => Some("inconsistent use of 64-bit and 128-bit host identifier values on different controllers"),
        SC_KEEP_ALIVE_EXPIRED => Some("the keep alive timer expired"),
        SC_KEEP_ALIVE_INVALID => Some("the keep alive timeout value is invalid"),
        SC_ABORTED_PREEMPT => Some("the command was preempted by a reservation command"),
        SC_SANITIZE_FAILED => Some("the sanitize operation failed with no recovery action successfully completed"),
        SC_SANITIZE_IN_PROGRESS => Some("the command failed because a sanitize operation is in progress"),
        SC_SGL_DATA_BLOCK_GRANULARITY_INVALID => Some("an data block SGL entry has an invalid address alignment or length granularity"),
        SC_COMMAND_INVALID_IN_CMB => Some("invalid command in the controller memory buffer"),
        SC_COMMAND_NAMESPACE_IS_PROTECTED => Some("the command namespace is protected"),
        SC_COMMAND_INTERRUPTED => Some("the command was interrupted"),
        SC_COMMAND_TRANSIENT_TRANSPORT_ERROR => Some("the command failed due to a transient transport error"),
        SC_COMMAND_PROHIBITED_BY_LOCKDOWN => Some("the command is prohibited by lockdown"),
        SC_ADMIN_COMMAND_MEDIA_NOT_READY => Some("the administration command failed because the media is not ready"),
        SC_FDP_DISABLED => Some("flexible data placement is disabled"),
        SC_INVALID_PLACEMENT_HANDLE_LIST => Some("invalid flexible data placement list"),
        SC_LBA_OUT_OF_RANGE => Some("the logical block address is out of range"),
        SC_CAPACITY_EXCEEDED => Some("the namespace capacity was exceeded"),
        SC_NAMESPACE_NOT_READY => Some("the namespace is not ready"),
        SC_RESERVATION_CONFLICT => Some("a reservation is held on the accessed namespace"),
        SC_FORMAT_IN_PROGRESS => Some("a format operation is in progress"),
        SC_INVALID_VALUE_SIZE => Some("the specified value size is invalid"),
        SC_INVALID_KEY_SIZE => Some("the specified key size is invalid"),
        SC_KV_KEY_DOES_NOT_EXIST => Some("the key does not exist"),
        SC_UNRECOVERED_ERROR => Some("an unrecoverable error occurred"),
        SC_KEY_EXISTS => Some("the key already exists"),
        _ => None,
    }
}

/// The description of a known command-specific status code, or `None` for an unknown one.
pub open spec fn spec_command_specific_description(sc: u8) -> Option<&'static str> {
    match sc {
        SC_COMPLETION_QUEUE_INVALID => Some("the specified completion queue identifier is invalid"),
        SC_INVALID_QUEUE_IDENTIFIER => Some("the specified queue identifier is invalid"),
        SC_INVALID_QUEUE_SIZE => Some("the specified queue size is invalid"),
        SC_ABORT_COMMAND_LIMIT_EXCEEDED => Some("there are too many outstanding abort commands"),
        SC_ASYNC_EVENT_REQUEST_LIMIT_EXCEEDED => Some("there are too many outstanding asynchronous event request commands"),
        SC_INVALID_FIRMWARE_SLOT => Some("the specified firmware slot is invalid or read-only"),
        SC_INVALID_FIRMWARE_IMAGE => Some("the specified firmware image is invalid"),
        SC_INVALID_INTERRUPT_VECTOR => Some("the specified interrupt vector is invalid"),
        SC_INVALID_LOG_PAGE => Some("the specified log page is invalid"),
        SC_INVALID_FORMAT => Some("the specified format is invalid"),
        SC_FIRMWARE_REQ_CONVENTIONAL_RESET => Some("the firmware was committed successfully but requires a conventional reset to activate"),
        SC_INVALID_QUEUE_DELETION => Some("the completion cannot be deleted while its submission queue exists"),
        SC_FEATURE_ID_NOT_SAVEABLE => Some("the feature identifier does not support a saveable value"),
        SC_FEATURE_NOT_CHANGEABLE => Some("the specified feature is not changeable"),
        SC_FEATURE_NOT_NAMESPACE_SPECIFIC => Some("the specified feature is not namespace-specific"),
        SC_FIRMWARE_REQ_NVM_RESET => Some("the firmware was committed successfully but requires an NVM subsystem reset to activate"),
        SC_FIRMWARE_REQ_RESET => Some("the firmware was committed successfully but requires an NVM controller reset to activate"),
        SC_FIRMWARE_REQ_MAX_TIME_VIOLATION => Some("activating the firmware image would exceed the maximum activation time"),
        SC_FIRMWARE_ACTIVATION_PROHIBITED => Some("the specified firmward image is prohibited from activation"),
        SC_OVERLAPPING_RANGE => Some("the command specifies overlapping ranges"),
        SC_NAMESPACE_INSUFFICIENT_CAPACITY => Some("there is insufficient free space to create the namespace"),
        SC_NAMESPACE_ID_UNAVAILABLE => Some("the number of supported namespaces has been exceeded"),
        SC_NAMESPACE_ALREADY_ATTACHED => Some("the controller is already attached to the specified namespace"),
        SC_NAMESPACE_IS_PRIVATE => Some("the specified namespace is private and attached to another controller"),
        SC_NAMESPACE_NOT_ATTACHED => Some("the specified namespace is not attached to the controller"),
        SC_THINPROVISIONING_NOT_SUPPORTED => Some("thin provisioning is not supported"),
        SC_CONTROLLER_LIST_INVALID => Some("the specified controller list is invalid"),
        SC_DEVICE_SELF_TEST_IN_PROGRESS => Some("a device self-test is in progress"),
        SC_BOOT_PARTITION_WRITE_PROHIBITED => Some("writing to the boot partition is prohibited"),
        SC_INVALID_CTRLR_ID => Some("the specified controller identifier is invalid"),
        SC_INVALID_SECONDARY_CTRLR_STATE => Some("the state of the secondary controller is invalid"),
        SC_INVALID_NUM_CTRLR_RESOURCES => Some("the specified number of controller resources is invalid"),
        SC_INVALID_RESOURCE_ID => Some("the specified resource identifier is invalid"),
        SC_SANITIZE_PROHIBITED => Some("a sanitize command is prohibited"),
        SC_ANA_GROUP_IDENTIFIER_INVALID => Some("the specified ANA group identifier is invalid"),
        SC_ANA_ATTACH_FAILED => Some("the controller could not be attached to the specified ANA group"),
        SC_INSUFFICIENT_CAPACITY => Some("there is insufficient capacity to perform the command"),
        SC_NAMESPACE_ATTACH_LIMIT_EXCEEDED => Some("the maximum number of namespace attachments has been exceeded"),
        SC_PROHIBIT_CMD_EXEC_NOT_SUPPORTED => Some("prohibiting command execution is not supported"),
        SC_IOCS_NOT_SUPPORTED => Some("the identify I/O command set command is not supported"),
        SC_IOCS_NOT_ENABLED => Some("the identify I/O command set command is not enabled"),
        SC_IOCS_COMBINATION_REJECTED => Some("the identify I/O command set command combination was rejected"),
        SC_INVALID_IOCS => Some("the specified command set is invalid"),
        SC_IDENTIFIER_UNAVAILABLE => Some("the specified identifier is not available"),
        SC_STREAM_RESOURCE_ALLOCATION_FAILED => Some("stream resource allocation failed"),
        SC_CONFLICTING_ATTRIBUTES => Some("conflicting attributes were specified"),
        SC_INVALID_PROTECTION_INFO => Some("the specified protection information was invalid"),
        SC_ATTEMPTED_WRITE_TO_RO_RANGE => Some("the range is read-only"),
        SC_CMD_SIZE_LIMIT_SIZE_EXCEEDED => Some("the command size limit was exceeded"),
        SC_ZONED_BOUNDARY_ERROR => Some("the specified LBA range overlaps multiple zones"),
        SC_ZONE_IS_FULL => Some("the zone is full"),
        SC_ZONE_IS_READ_ONLY => Some("the zone is read-only"),
        SC_ZONE_IS_OFFLINE => Some("the zone is offline"),
        SC_ZONE_INVALID_WRITE => Some("invalid write to zone"),
        SC_TOO_MANY_ACTIVE_ZONES => Some("there are too many active zones"),
        SC_TOO_MANY_OPEN_ZONES => Some("there are too many open zones"),
        SC_INVALID_ZONE_STATE_TRANSITION => Some("the requested zone state transition is invalid"),
        _ => None,
    }
}

/// The description of a known media error status code, or `None` for an unknown one.
pub open spec fn spec_media_error_description(sc: u8) -> Option<&'static str> {
    match sc {
        SC_WRITE_FAULTS => Some("the data could not be committed to the media"),
        SC_UNRECOVERED_READ_ERROR => Some("the data could not be recovered from the media"),
        SC_GUARD_CHECK_ERROR => Some("an end-to-end guard check failure"),
        SC_APPLICATION_TAG_CHECK_ERROR => Some("an end-to-end application tag check failed"),
        SC_REFERENCE_TAG_CHECK_ERROR => Some("an end-to-end reference tag check failed"),
        SC_COMPARE_FAILURE => Some("the data has changed"),
        SC_ACCESS_DENIED => Some("access to the namespace or LBA range was denied"),
        SC_DEALLOCATED_OR_UNWRITTEN_BLOCK => Some("an attempt was made to read from an LBA range containing an unwritten or deallocate logical block"),
        SC_END_TO_END_STORAGE_TAG_CHECK_ERROR => Some("an end-to-end storage tag check failed"),
        _ => None,
    }
}

/// The description of a known path related status code, or `None` for an unknown one.
pub open spec fn spec_path_description(sc: u8) -> Option<&'static str> {
    match sc {
        SC_INTERNAL_PATH_ERROR => Some("a multi-path internal error occurred at the controller"),
        SC_ASYMMETRIC_ACCESS_PERSISTENT_LOSS => Some("the multi-path relationship between the controller and namespace has been lost"),
        SC_ASYMMETRIC_ACCESS_INACCESSIBLE => Some("the multi-path relationship between the controller and namespace is inaccessible"),
        SC_ASYMMETRIC_ACCESS_TRANSITION => Some("the multi-path relationship between the controller and namespace is transitioning states"),
        SC_CONTROLLER_PATH_ERROR => Some("a multi-path error was detected by the controller"),
        SC_HOST_PATH_ERROR => Some("a multi-path error was detected by the host"),
        SC_ABORTED_BY_HOST => Some("the multi-path command was aborted by the host"),
        _ => None,
    }
}

/// Looks up the description of a generic command status code.
pub fn generic_description(sc: u8) -> (d: Option<&'static str>)
    ensures
        d == spec_generic_description(sc),
{
    match sc {
        SC_SUCCESS => Some("completed successfully"),
        SC_INVALID_OPCODE => Some("the command opcode is invalid"),
        SC_INVALID_FIELD => Some("an invalid or unsupported field is specified in the command parameters"),
        SC_COMMAND_ID_CONFLICT => Some("the command identifier is already in use"),
        SC_DATA_TRANSFER_ERROR => Some("an error occurred transferring the data or metadata associated with a command"),
        SC_ABORTED_POWER_LOSS => Some("the command was aborted due to a power loss notification"),
        SC_INTERNAL_DEVICE_ERROR => Some("the command was not completed due to an internal device error"),
        SC_ABORTED_BY_REQUEST => Some("the command was aborted by request"),
        SC_ABORTED_SQ_DELETION => Some("the command was aborted because its submission queue was deleted"),
        SC_ABORTED_FAILED_FUSED => Some("the command was aborted because its companion fused command failed"),
        SC_ABORTED_MISSING_FUSED => Some("the command was aborted because its companion fused command was not the next command in the submission queue"),
        SC_INVALID_NAMESPACE_OR_FORMAT => Some("the namespace or its format is invalid"),
        SC_COMMAND_SEQUENCE_ERROR => Some("the command was aborted due to a protocol violation in a multi-command sequence"),
        SC_INVALID_SGL_SEG_DESCRIPTOR => Some("the command includes an invalid SGL descriptor"),
        SC_INVALID_NUM_SGL_DESCIRPTORS => Some("the command includes a last SGL descriptor in the wrong position"),
        SC_DATA_SGL_LENGTH_INVALID => Some("the command includes a data SGL with an invalid length"),
        SC_METADATA_SGL_LENGTH_INVALID => Some("the command includes a metadata SGL with an invalid length"),
        SC_SGL_DESCRIPTOR_TYPE_INVALID => Some("the command includes an unsupported SGL type"),
        SC_INVALID_CONTROLLER_MEM_BUF => Some("use of the controller memory buffer is not supported"),
        SC_INVALID_PRP_OFFSET => Some("a PRP entry contains an invalid offset"),
        SC_ATOMIC_WRITE_UNIT_EXCEEDED => Some("the length exceeds the atomic write unit size"),
        SC_OPERATION_DENIED => Some("the command failed due to insufficient access rights"),
        SC_INVALID_SGL_OFFSET => Some("an SGL entry contains an invalid offset"),
        SC_HOSTID_INCONSISTENT_FORMAT => Some("inconsistent use of 64-bit and 128-bit host identifier values on different controllers"),
        SC_KEEP_ALIVE_EXPIRED => Some("the keep alive timer expired"),
        SC_KEEP_ALIVE_INVALID => Some("the keep alive timeout value is invalid"),
        SC_ABORTED_PREEMPT => Some("the command was preempted by a reservation command"),
        SC_SANITIZE_FAILED => Some("the sanitize operation failed with no recovery action successfully completed"),
        SC_SANITIZE_IN_PROGRESS => Some("the command failed because a sanitize operation is in progress"),
        SC_SGL_DATA_BLOCK_GRANULARITY_INVALID => Some("an data block SGL entry has an invalid address alignment or length granularity"),
        SC_COMMAND_INVALID_IN_CMB => Some("invalid command in the controller memory buffer"),
        SC_COMMAND_NAMESPACE_IS_PROTECTED => Some("the command namespace is protected"),
        SC_COMMAND_INTERRUPTED => Some("the command was interrupted"),
        SC_COMMAND_TRANSIENT_TRANSPORT_ERROR => Some("the command failed due to a transient transport error"),
        SC_COMMAND_PROHIBITED_BY_LOCKDOWN => Some("the command is prohibited by lockdown"),
        SC_ADMIN_COMMAND_MEDIA_NOT_READY => Some("the administration command failed because the media is not ready"),
        SC_FDP_DISABLED => Some("flexible data placement is disabled"),
        SC_INVALID_PLACEMENT_HANDLE_LIST => Some("invalid flexible data placement list"),
        SC_LBA_OUT_OF_RANGE => Some("the logical block address is out of range"),
        SC_CAPACITY_EXCEEDED => Some("the namespace capacity was exceeded"),
        SC_NAMESPACE_NOT_READY => Some("the namespace is not ready"),
        SC_RESERVATION_CONFLICT => Some("a reservation is held on the accessed namespace"),
        SC_FORMAT_IN_PROGRESS => Some("a format operation is in progress"),
        SC_INVALID_VALUE_SIZE => Some("the specified value size is invalid"),
        SC_INVALID_KEY_SIZE => Some("the specified key size is invalid"),
        SC_KV_KEY_DOES_NOT_EXIST => Some("the key does not exist"),
        SC_UNRECOVERED_ERROR => Some("an unrecoverable error occurred"),
        SC_KEY_EXISTS => Some("the key already exists"),
        _ => None,
    }
}

/// Looks up the description of a command-specific status code.
pub fn command_specific_description(sc: u8) -> (d: Option<&'static str>)
    ensures
        d == spec_command_specific_description(sc),
{
    match sc {
        SC_COMPLETION_QUEUE_INVALID => Some("the specified completion queue identifier is invalid"),
        SC_INVALID_QUEUE_IDENTIFIER => Some("the specified queue identifier is invalid"),
        SC_INVALID_QUEUE_SIZE => Some("the specified queue size is invalid"),
        SC_ABORT_COMMAND_LIMIT_EXCEEDED => Some("there are too many outstanding abort commands"),
        SC_ASYNC_EVENT_REQUEST_LIMIT_EXCEEDED => Some("there are too many outstanding asynchronous event request commands"),
        SC_INVALID_FIRMWARE_SLOT => Some("the specified firmware slot is invalid or read-only"),
        SC_INVALID_FIRMWARE_IMAGE => Some("the specified firmware image is invalid"),
        SC_INVALID_INTERRUPT_VECTOR => Some("the specified interrupt vector is invalid"),
        SC_INVALID_LOG_PAGE => Some("the specified log page is invalid"),
        SC_INVALID_FORMAT => Some("the specified format is invalid"),
        SC_FIRMWARE_REQ_CONVENTIONAL_RESET => Some("the firmware was committed successfully but requires a conventional reset to activate"),
        SC_INVALID_QUEUE_DELETION => Some("the completion cannot be deleted while its submission queue exists"),
        SC_FEATURE_ID_NOT_SAVEABLE => Some("the feature identifier does not support a saveable value"),
        SC_FEATURE_NOT_CHANGEABLE => Some("the specified feature is not changeable"),
        SC_FEATURE_NOT_NAMESPACE_SPECIFIC => Some("the specified feature is not namespace-specific"),
        SC_FIRMWARE_REQ_NVM_RESET => Some("the firmware was committed successfully but requires an NVM subsystem reset to activate"),
        SC_FIRMWARE_REQ_RESET => Some("the firmware was committed successfully but requires an NVM controller reset to activate"),
        SC_FIRMWARE_REQ_MAX_TIME_VIOLATION => Some("activating the firmware image would exceed the maximum activation time"),
        SC_FIRMWARE_ACTIVATION_PROHIBITED => Some("the specified firmward image is prohibited from activation"),
        SC_OVERLAPPING_RANGE => Some("the command specifies overlapping ranges"),
        SC_NAMESPACE_INSUFFICIENT_CAPACITY => Some("there is insufficient free space to create the namespace"),
        SC_NAMESPACE_ID_UNAVAILABLE => Some("the number of supported namespaces has been exceeded"),
        SC_NAMESPACE_ALREADY_ATTACHED => Some("the controller is already attached to the specified namespace"),
        SC_NAMESPACE_IS_PRIVATE => Some("the specified namespace is private and attached to another controller"),
        SC_NAMESPACE_NOT_ATTACHED => Some("the specified namespace is not attached to the controller"),
        SC_THINPROVISIONING_NOT_SUPPORTED => Some("thin provisioning is not supported"),
        SC_CONTROLLER_LIST_INVALID => Some("the specified controller list is invalid"),
        SC_DEVICE_SELF_TEST_IN_PROGRESS => Some("a device self-test is in progress"),
        SC_BOOT_PARTITION_WRITE_PROHIBITED => Some("writing to the boot partition is prohibited"),
        SC_INVALID_CTRLR_ID => Some("the specified controller identifier is invalid"),
        SC_INVALID_SECONDARY_CTRLR_STATE => Some("the state of the secondary controller is invalid"),
        SC_INVALID_NUM_CTRLR_RESOURCES => Some("the specified number of controller resources is invalid"),
        SC_INVALID_RESOURCE_ID => Some("the specified resource identifier is invalid"),
        SC_SANITIZE_PROHIBITED => Some("a sanitize command is prohibited"),
        SC_ANA_GROUP_IDENTIFIER_INVALID => Some("the specified ANA group identifier is invalid"),
        SC_ANA_ATTACH_FAILED => Some("the controller could not be attached to the specified ANA group"),
        SC_INSUFFICIENT_CAPACITY => Some("there is insufficient capacity to perform the command"),
        SC_NAMESPACE_ATTACH_LIMIT_EXCEEDED => Some("the maximum number of namespace attachments has been exceeded"),
        SC_PROHIBIT_CMD_EXEC_NOT_SUPPORTED => Some("prohibiting command execution is not supported"),
        SC_IOCS_NOT_SUPPORTED => Some("the identify I/O command set command is not supported"),
        SC_IOCS_NOT_ENABLED => Some("the identify I/O command set command is not enabled"),
        SC_IOCS_COMBINATION_REJECTED => Some("the identify I/O command set command combination was rejected"),
        SC_INVALID_IOCS => Some("the specified command set is invalid"),
        SC_IDENTIFIER_UNAVAILABLE => Some("the specified identifier is not available"),
        SC_STREAM_RESOURCE_ALLOCATION_FAILED => Some("stream resource allocation failed"),
        SC_CONFLICTING_ATTRIBUTES => Some("conflicting attributes were specified"),
        SC_INVALID_PROTECTION_INFO => Some("the specified protection information was invalid"),
        SC_ATTEMPTED_WRITE_TO_RO_RANGE => Some("the range is read-only"),
        SC_CMD_SIZE_LIMIT_SIZE_EXCEEDED => Some("the command size limit was exceeded"),
        SC_ZONED_BOUNDARY_ERROR => Some("the specified LBA range overlaps multiple zones"),
        SC_ZONE_IS_FULL => Some("the zone is full"),
        SC_ZONE_IS_READ_ONLY => Some("the zone is read-only"),
        SC_ZONE_IS_OFFLINE => Some("the zone is offline"),
        SC_ZONE_INVALID_WRITE => Some("invalid write to zone"),
        SC_TOO_MANY_ACTIVE_ZONES => Some("there are too many active zones"),
        SC_TOO_MANY_OPEN_ZONES => Some("there are too many open zones"),
        SC_INVALID_ZONE_STATE_TRANSITION => Some("the requested zone state transition is invalid"),
        _ => None,
    }
}

/// Looks up the description of a media error status code.
pub fn media_error_description(sc: u8) -> (d: Option<&'static str>)
    ensures
        d == spec_media_error_description(sc),
{
    match sc {
        SC_WRITE_FAULTS => Some("the data could not be committed to the media"),
        SC_UNRECOVERED_READ_ERROR => Some("the data could not be recovered from the media"),
        SC_GUARD_CHECK_ERROR => Some("an end-to-end guard check failure"),
        SC_APPLICATION_TAG_CHECK_ERROR => Some("an end-to-end application tag check failed"),
        SC_REFERENCE_TAG_CHECK_ERROR => Some("an end-to-end reference tag check failed"),
        SC_COMPARE_FAILURE => Some("the data has changed"),
        SC_ACCESS_DENIED => Some("access to the namespace or LBA range was denied"),
        SC_DEALLOCATED_OR_UNWRITTEN_BLOCK => Some("an attempt was made to read from an LBA range containing an unwritten or deallocate logical block"),
        SC_END_TO_END_STORAGE_TAG_CHECK_ERROR => Some("an end-to-end storage tag check failed"),
        _ => None,
    }
}

/// Looks up the description of a path related status code.
pub fn path_description(sc: u8) -> (d: Option<&'static str>)
    ensures
        d == spec_path_description(sc),
{
    match sc {
        SC_INTERNAL_PATH_ERROR => Some("a multi-path internal error occurred at the controller"),
        SC_ASYMMETRIC_ACCESS_PERSISTENT_LOSS => Some("the multi-path relationship between the controller and namespace has been lost"),
        SC_ASYMMETRIC_ACCESS_INACCESSIBLE => Some("the multi-path relationship between the controller and namespace is inaccessible"),
        SC_ASYMMETRIC_ACCESS_TRANSITION => Some("the multi-path relationship between the controller and namespace is transitioning states"),
        SC_CONTROLLER_PATH_ERROR => Some("a multi-path error was detected by the controller"),
        SC_HOST_PATH_ERROR => Some("a multi-path error was detected by the host"),
        SC_ABORTED_BY_HOST => Some("the multi-path command was aborted by the host"),
        _ => None,
    }
}

/// The description if there is one, otherwise the fallback text.
pub open spec fn known_or(d: Option<&'static str>, fallback: Seq<char>) -> Seq<char> {
    match d {
        Some(s) => s@,
        None => fallback,
    }
}

/// `prefix`, the code in `{:#x}` form, then a closing parenthesis.
pub open spec fn with_code(prefix: Seq<char>, code: u8) -> Seq<char> {
    prefix + hex_prefixed(code as nat) + ")"@
}

/// The human readable message for the NVMe status code type `sct` and status code `sc`.
pub open spec fn status_message(sct: u8, sc: u8) -> Seq<char> {
    if sct == SCT_GENERIC {
        known_or(
            spec_generic_description(sc),
            with_code("an unknown generic NVMe error occurred (code "@, sc),
        )
    } else if sct == SCT_COMMAND_SPECIFIC {
        known_or(
            spec_command_specific_description(sc),
            with_code("an unknown NVMe command-specific error occurred (code "@, sc),
        )
    } else if sct == SCT_MEDIA_ERROR {
        known_or(
            spec_media_error_description(sc),
            with_code("an unknown NVMe media error occurred (code "@, sc),
        )
    } else if sct == SCT_PATH {
        known_or(
            spec_path_description(sc),
            with_code("an unknown NVME multi-path error occurred (code "@, sc),
        )
    } else if sct == SCT_VENDOR_SPECIFIC {
        with_code("a vendor-specific NVMe error occurred (code "@, sc)
    } else {
        "an unknown NVMe error occurred (type "@ + hex_prefixed(sct as nat) + ", code "@
            + hex_prefixed(sc as nat) + ")"@
    }
}

/// Renders `prefix`, the code in `{:#x}` form, then a closing parenthesis.
fn render_with_code(prefix: &str, code: u8) -> (s: String)
    ensures
        s@ == with_code(prefix@, code),
{
    let mut s = String::from_str(prefix);
    let hex = to_hex_prefixed(code as u64);
    s.append(hex.as_str());
    s.append(")");
    s
}

/// Renders the description if there is one, otherwise `prefix` with the code.
fn render_known_or(d: Option<&'static str>, prefix: &str, code: u8) -> (s: String)
    ensures
        s@ == known_or(d, with_code(prefix@, code)),
{
    match d {
        Some(text) => String::from_str(text),
        None => render_with_code(prefix, code),
    }
}

/// A type containing NVMe status information.
#[derive(Clone, Copy, Debug)]
pub struct NvmeStatus {
    /// NVMe command dword 0
    pub cdw0: u32,
    /// NVMe status code type
    pub sct: u8,
    /// NVMe status code
    pub sc: u8,
}

impl NvmeStatus {
    /// Returns the human readable message describing this status.
    pub fn to_string(&self) -> (s: String)
        ensures
            s@ == status_message(self.sct, self.sc),
    {
        let sct = self.sct;
        let sc = self.sc;
        if sct == SCT_GENERIC {
            render_known_or(
                generic_description(sc),
                "an unknown generic NVMe error occurred (code ",
                sc,
            )
        } else if sct == SCT_COMMAND_SPECIFIC {
            render_known_or(
                command_specific_description(sc),
                "an unknown NVMe command-specific error occurred (code ",
                sc,
            )
        } else if sct == SCT_MEDIA_ERROR {
            render_known_or(
                media_error_description(sc),
                "an unknown NVMe media error occurred (code ",
                sc,
            )
        } else if sct == SCT_PATH {
            render_known_or(
                path_description(sc),
                "an unknown NVME multi-path error occurred (code ",
                sc,
            )
        } else if sct == SCT_VENDOR_SPECIFIC {
            render_with_code("a vendor-specific NVMe error occurred (code ", sc)
        } else {
            let mut s = String::from_str("an unknown NVMe error occurred (type ");
            let t = to_hex_prefixed(sct as u64);
            s.append(t.as_str());
            s.append(", code ");
            let c = to_hex_prefixed(sc as u64);
            s.append(c.as_str());
            s.append(")");
            s
        }
    }
}

/// Every generic command status code that the NVMe specification defines and the library knows is
/// described by its message, and every other code by the unknown-code message with the
/// code in hexadecimal.
pub proof fn lemma_generic_messages(sc: u8)
    ensures
        sc == 0x00 ==> status_message(0x0, sc) == "completed successfully"@,
        sc == 0x01 ==> status_message(0x0, sc) == "the command opcode is invalid"@,
        sc == 0x02 ==> status_message(0x0, sc) == "an invalid or unsupported field is specified in the command parameters"@,
        sc == 0x03 ==> status_message(0x0, sc) == "the command identifier is already in use"@,
        sc == 0x04 ==> status_message(0x0, sc) == "an error occurred transferring the data or metadata associated with a command"@,
        sc == 0x05 ==> status_message(0x0, sc) == "the command was aborted due to a power loss notification"@,
        sc == 0x06 ==> status_message(0x0, sc) == "the command was not completed due to an internal device error"@,
        sc == 0x07 ==> status_message(0x0, sc) == "the command was aborted by request"@,
        sc == 0x08 ==> status_message(0x0, sc) == "the command was aborted because its submission queue was deleted"@,
        sc == 0x09 ==> status_message(0x0, sc) == "the command was aborted because its companion fused command failed"@,
        sc == 0x0a ==> status_message(0x0, sc) == "the command was aborted because its companion fused command was not the next command in the submission queue"@,
        sc == 0x0b ==> status_message(0x0, sc) == "the namespace or its format is invalid"@,
        sc == 0x0c ==> status_message(0x0, sc) == "the command was aborted due to a protocol violation in a multi-command sequence"@,
        sc == 0x0d ==> status_message(0x0, sc) == "the command includes an invalid SGL descriptor"@,
        sc == 0x0e ==> status_message(0x0, sc) == "the command includes a last SGL descriptor in the wrong position"@,
        sc == 0x0f ==> status_message(0x0, sc) == "the command includes a data SGL with an invalid length"@,
        sc == 0x10 ==> status_message(0x0, sc) == "the command includes a metadata SGL with an invalid length"@,
        sc == 0x11 ==> status_message(0x0, sc) == "the command includes an unsupported SGL type"@,
        sc == 0x12 ==> status_message(0x0, sc) == "use of the controller memory buffer is not supported"@,
        sc == 0x13 ==> status_message(0x0, sc) == "a PRP entry contains an invalid offset"@,
        sc == 0x14 ==> status_message(0x0, sc) == "the length exceeds the atomic write unit size"@,
        sc == 0x15 ==> status_message(0x0, sc) == "the command failed due to insufficient access rights"@,
        sc == 0x16 ==> status_message(0x0, sc) == "an SGL entry contains an invalid offset"@,
        sc == 0x18 ==> status_message(0x0, sc) == "inconsistent use of 64-bit and 128-bit host identifier values on different controllers"@,
        sc == 0x19 ==> status_message(0x0, sc) == "the keep alive timer expired"@,
        sc == 0x1a ==> status_message(0x0, sc) == "the keep alive timeout value is invalid"@,
        sc == 0x1b ==> status_message(0x0, sc) == "the command was preempted by a reservation command"@,
        sc == 0x1c ==> status_message(0x0, sc) == "the sanitize operation failed with no recovery action successfully completed"@,
        sc == 0x1d ==> status_message(0x0, sc) == "the command failed because a sanitize operation is in progress"@,
        sc == 0x1e ==> status_message(0x0, sc) == "an data block SGL entry has an invalid address alignment or length granularity"@,
        sc == 0x1f ==> status_message(0x0, sc) == "invalid command in the controller memory buffer"@,
        sc == 0x20 ==> status_message(0x0, sc) == "the command namespace is protected"@,
        sc == 0x21 ==> status_message(0x0, sc) == "the command was interrupted"@,
        sc == 0x22 ==> status_message(0x0, sc) == "the command failed due to a transient transport error"@,
        sc == 0x23 ==> status_message(0x0, sc) == "the command is prohibited by lockdown"@,
        sc == 0x24 ==> status_message(0x0, sc) == "the administration command failed because the media is not ready"@,
        sc == 0x29 ==> status_message(0x0, sc) == "flexible data placement is disabled"@,
        sc == 0x2a ==> status_message(0x0, sc) == "invalid flexible data placement list"@,
        sc == 0x80 ==> status_message(0x0, sc) == "the logical block address is out of range"@,
        sc == 0x81 ==> status_message(0x0, sc) == "the namespace capacity was exceeded"@,
        sc == 0x82 ==> status_message(0x0, sc) == "the namespace is not ready"@,
        sc == 0x83 ==> status_message(0x0, sc) == "a reservation is held on the accessed namespace"@,
        sc == 0x84 ==> status_message(0x0, sc) == "a format operation is in progress"@,
        sc == 0x85 ==> status_message(0x0, sc) == "the specified value size is invalid"@,
        sc == 0x86 ==> status_message(0x0, sc) == "the specified key size is invalid"@,
        sc == 0x87 ==> status_message(0x0, sc) == "the key does not exist"@,
        sc == 0x88 ==> status_message(0x0, sc) == "an unrecoverable error occurred"@,
        sc == 0x89 ==> status_message(0x0, sc) == "the key already exists"@,
        !(sc == 0x00 || sc == 0x01 || sc == 0x02 || sc == 0x03 || sc == 0x04 || sc == 0x05 || sc == 0x06 || sc == 0x07 || sc == 0x08 || sc == 0x09 || sc == 0x0a || sc == 0x0b || sc == 0x0c || sc == 0x0d || sc == 0x0e || sc == 0x0f || sc == 0x10 || sc == 0x11 || sc == 0x12 || sc == 0x13 || sc == 0x14 || sc == 0x15 || sc == 0x16 || sc == 0x18 || sc == 0x19 || sc == 0x1a || sc == 0x1b || sc == 0x1c || sc == 0x1d || sc == 0x1e || sc == 0x1f || sc == 0x20 || sc == 0x21 || sc == 0x22 || sc == 0x23 || sc == 0x24 || sc == 0x29 || sc == 0x2a || sc == 0x80 || sc == 0x81 || sc == 0x82 || sc == 0x83 || sc == 0x84 || sc == 0x85 || sc == 0x86 || sc == 0x87 || sc == 0x88 || sc == 0x89) ==> status_message(0x0, sc) == "an unknown generic NVMe error occurred (code "@ + hex_prefixed(sc as nat) + ")"@,
{
}

/// Every command-specific status code that the NVMe specification defines and the library knows is
/// described by its message, and every other code by the unknown-code message with the
/// code in hexadecimal.
pub proof fn lemma_command_specific_messages(sc: u8)
    ensures
        sc == 0x00 ==> status_message(0x1, sc) == "the specified completion queue identifier is invalid"@,
        sc == 0x01 ==> status_message(0x1, sc) == "the specified queue identifier is invalid"@,
        sc == 0x02 ==> status_message(0x1, sc) == "the specified queue size is invalid"@,
        sc == 0x03 ==> status_message(0x1, sc) == "there are too many outstanding abort commands"@,
        sc == 0x05 ==> status_message(0x1, sc) == "there are too many outstanding asynchronous event request commands"@,
        sc == 0x06 ==> status_message(0x1, sc) == "the specified firmware slot is invalid or read-only"@,
        sc == 0x07 ==> status_message(0x1, sc) == "the specified firmware image is invalid"@,
        sc == 0x08 ==> status_message(0x1, sc) == "the specified interrupt vector is invalid"@,
        sc == 0x09 ==> status_message(0x1, sc) == "the specified log page is invalid"@,
        sc == 0x0a ==> status_message(0x1, sc) == "the specified format is invalid"@,
        sc == 0x0b ==> status_message(0x1, sc) == "the firmware was committed successfully but requires a conventional reset to activate"@,
        sc == 0x0c ==> status_message(0x1, sc) == "the completion cannot be deleted while its submission queue exists"@,
        sc == 0x0d ==> status_message(0x1, sc) == "the feature identifier does not support a saveable value"@,
        sc == 0x0e ==> status_message(0x1, sc) == "the specified feature is not changeable"@,
        sc == 0x0f ==> status_message(0x1, sc) == "the specified feature is not namespace-specific"@,
        sc == 0x10 ==> status_message(0x1, sc) == "the firmware was committed successfully but requires an NVM subsystem reset to activate"@,
        sc == 0x11 ==> status_message(0x1, sc) == "the firmware was committed successfully but requires an NVM controller reset to activate"@,
        sc == 0x12 ==> status_message(0x1, sc) == "activating the firmware image would exceed the maximum activation time"@,
        sc == 0x13 ==> status_message(0x1, sc) == "the specified firmward image is prohibited from activation"@,
        sc == 0x14 ==> status_message(0x1, sc) == "the command specifies overlapping ranges"@,
        sc == 0x15 ==> status_message(0x1, sc) == "there is insufficient free space to create the namespace"@,
        sc == 0x16 ==> status_message(0x1, sc) == "the number of supported namespaces has been exceeded"@,
        sc == 0x18 ==> status_message(0x1, sc) == "the controller is already attached to the specified namespace"@,
        sc == 0x19 ==> status_message(0x1, sc) == "the specified namespace is private and attached to another controller"@,
        sc == 0x1a ==> status_message(0x1, sc) == "the specified namespace is not attached to the controller"@,
        sc == 0x1b ==> status_message(0x1, sc) == "thin provisioning is not supported"@,
        sc == 0x1c ==> status_message(0x1, sc) == "the specified controller list is invalid"@,
        sc == 0x1d ==> status_message(0x1, sc) == "a device self-test is in progress"@,
        sc == 0x1e ==> status_message(0x1, sc) == "writing to the boot partition is prohibited"@,
        sc == 0x1f ==> status_message(0x1, sc) == "the specified controller identifier is invalid"@,
        sc == 0x20 ==> status_message(0x1, sc) == "the state of the secondary controller is invalid"@,
        sc == 0x21 ==> status_message(0x1, sc) == "the specified number of controller resources is invalid"@,
        sc == 0x22 ==> status_message(0x1, sc) == "the specified resource identifier is invalid"@,
        sc == 0x23 ==> status_message(0x1, sc) == "a sanitize command is prohibited"@,
        sc == 0x24 ==> status_message(0x1, sc) == "the specified ANA group identifier is invalid"@,
        sc == 0x25 ==> status_message(0x1, sc) == "the controller could not be attached to the specified ANA group"@,
        sc == 0x26 ==> status_message(0x1, sc) == "there is insufficient capacity to perform the command"@,
        sc == 0x27 ==> status_message(0x1, sc) == "the maximum number of namespace attachments has been exceeded"@,
        sc == 0x28 ==> status_message(0x1, sc) == "prohibiting command execution is not supported"@,
        sc == 0x29 ==> status_message(0x1, sc) == "the identify I/O command set command is not supported"@,
        sc == 0x2a ==> status_message(0x1, sc) == "the identify I/O command set command is not enabled"@,
        sc == 0x2b ==> status_message(0x1, sc) == "the identify I/O command set command combination was rejected"@,
        sc == 0x2c ==> status_message(0x1, sc) == "the specified command set is invalid"@,
        sc == 0x2d ==> status_message(0x1, sc) == "the specified identifier is not available"@,
        sc == 0x7f ==> status_message(0x1, sc) == "stream resource allocation failed"@,
        sc == 0x80 ==> status_message(0x1, sc) == "conflicting attributes were specified"@,
        sc == 0x81 ==> status_message(0x1, sc) == "the specified protection information was invalid"@,
        sc == 0x82 ==> status_message(0x1, sc) == "the range is read-only"@,
        sc == 0x83 ==> status_message(0x1, sc) == "the command size limit was exceeded"@,
        sc == 0xb8 ==> status_message(0x1, sc) == "the specified LBA range overlaps multiple zones"@,
        sc == 0xb9 ==> status_message(0x1, sc) == "the zone is full"@,
        sc == 0xba ==> status_message(0x1, sc) == "the zone is read-only"@,
        sc == 0xbb ==> status_message(0x1, sc) == "the zone is offline"@,
        sc == 0xbc ==> status_message(0x1, sc) == "invalid write to zone"@,
        sc == 0xbd ==> status_message(0x1, sc) == "there are too many active zones"@,
        sc == 0xbe ==> status_message(0x1, sc) == "there are too many open zones"@,
        sc == 0xbf ==> status_message(0x1, sc) == "the requested zone state transition is invalid"@,
        !(sc == 0x00 || sc == 0x01 || sc == 0x02 || sc == 0x03 || sc == 0x05 || sc == 0x06 || sc == 0x07 || sc == 0x08 || sc == 0x09 || sc == 0x0a || sc == 0x0b || sc == 0x0c || sc == 0x0d || sc == 0x0e || sc == 0x0f || sc == 0x10 || sc == 0x11 || sc == 0x12 || sc == 0x13 || sc == 0x14 || sc == 0x15 || sc == 0x16 || sc == 0x18 || sc == 0x19 || sc == 0x1a || sc == 0x1b || sc == 0x1c || sc == 0x1d || sc == 0x1e || sc == 0x1f || sc == 0x20 || sc == 0x21 || sc == 0x22 || sc == 0x23 || sc == 0x24 || sc == 0x25 || sc == 0x26 || sc == 0x27 || sc == 0x28 || sc == 0x29 || sc == 0x2a || sc == 0x2b || sc == 0x2c || sc == 0x2d || sc == 0x7f || sc == 0x80 || sc == 0x81 || sc == 0x82 || sc == 0x83 || sc == 0xb8 || sc == 0xb9 || sc == 0xba || sc == 0xbb || sc == 0xbc || sc == 0xbd || sc == 0xbe || sc == 0xbf) ==> status_message(0x1, sc) == "an unknown NVMe command-specific error occurred (code "@ + hex_prefixed(sc as nat) + ")"@,
{
}

/// Every media and data integrity error code that the NVMe specification defines and the library knows is
/// described by its message, and every other code by the unknown-code message with the
/// code in hexadecimal.
pub proof fn lemma_media_error_messages(sc: u8)
    ensures
        sc == 0x80 ==> status_message(0x2, sc) == "the data could not be committed to the media"@,
        sc == 0x81 ==> status_message(0x2, sc) == "the data could not be recovered from the media"@,
        sc == 0x82 ==> status_message(0x2, sc) == "an end-to-end guard check failure"@,
        sc == 0x83 ==> status_message(0x2, sc) == "an end-to-end application tag check failed"@,
        sc == 0x84 ==> status_message(0x2, sc) == "an end-to-end reference tag check failed"@,
        sc == 0x85 ==> status_message(0x2, sc) == "the data has changed"@,
        sc == 0x86 ==> status_message(0x2, sc) == "access to the namespace or LBA range was denied"@,
        sc == 0x87 ==> status_message(0x2, sc) == "an attempt was made to read from an LBA range containing an unwritten or deallocate logical block"@,
        sc == 0x88 ==> status_message(0x2, sc) == "an end-to-end storage tag check failed"@,
        !(sc == 0x80 || sc == 0x81 || sc == 0x82 || sc == 0x83 || sc == 0x84 || sc == 0x85 || sc == 0x86 || sc == 0x87 || sc == 0x88) ==> status_message(0x2, sc) == "an unknown NVMe media error occurred (code "@ + hex_prefixed(sc as nat) + ")"@,
{
}

/// Every path related status code that the NVMe specification defines and the library knows is
/// described by its message, and every other code by the unknown-code message with the
/// code in hexadecimal.
pub proof fn lemma_path_messages(sc: u8)
    ensures
        sc == 0x00 ==> status_message(0x3, sc) == "a multi-path internal error occurred at the controller"@,
        sc == 0x01 ==> status_message(0x3, sc) == "the multi-path relationship between the controller and namespace has been lost"@,
        sc == 0x02 ==> status_message(0x3, sc) == "the multi-path relationship between the controller and namespace is inaccessible"@,
        sc == 0x03 ==> status_message(0x3, sc) == "the multi-path relationship between the controller and namespace is transitioning states"@,
        sc == 0x60 ==> status_message(0x3, sc) == "a multi-path error was detected by the controller"@,
        sc == 0x70 ==> status_message(0x3, sc) == "a multi-path error was detected by the host"@,
        sc == 0x71 ==> status_message(0x3, sc) == "the multi-path command was aborted by the host"@,
        !(sc == 0x00 || sc == 0x01 || sc == 0x02 || sc == 0x03 || sc == 0x60 || sc == 0x70 || sc == 0x71) ==> status_message(0x3, sc) == "an unknown NVME multi-path error occurred (code "@ + hex_prefixed(sc as nat) + ")"@,
{
}

/// A vendor-specific status is described by its code in hexadecimal, and a status of an
/// unknown code type by its type and code in hexadecimal.
pub proof fn lemma_other_type_messages(sct: u8, sc: u8)
    ensures
        sct == 0x7 ==> status_message(sct, sc) == "a vendor-specific NVMe error occurred (code "@
            + hex_prefixed(sc as nat) + ")"@,
        !(sct <= 0x3 || sct == 0x7) ==> status_message(sct, sc)
            == "an unknown NVMe error occurred (type "@ + hex_prefixed(sct as nat) + ", code "@
            + hex_prefixed(sc as nat) + ")"@,
{
}

} // verus!
