//! The records exchanged with the controller and handed to callers.
use vstd::prelude::*;

verus! {

/// Index of the one kernel entry point every call goes through.
pub const KERNEL_INDEX_SMC: u32 = 2;

/// Command: fetch the payload of a key.
pub const SMC_CMD_READ_BYTES: u8 = 5;

/// Command: store a payload under a key.
pub const SMC_CMD_WRITE_BYTES: u8 = 6;

/// Command: map a 0-based index to a key.
pub const SMC_CMD_READ_INDEX: u8 = 8;

/// Command: fetch the metadata of a key.
pub const SMC_CMD_READ_KEYINFO: u8 = 9;

/// Value of `result` with which the controller refuses a metadata lookup.
pub const SMC_RESULT_NOT_SUPPORTED: u8 = 132;

/// Maximum size in bytes for SMC data.
pub const SMC_BYTES_LEN: usize = 32;

/// Byte array type for SMC data.
pub type SMCBytes = [u8; 32];

/// Version block of the wire record.  The protocol engine never reads it and
/// always sends it zeroed.
#[derive(Clone, Copy, Debug, PartialEq, Eq, Structural)]
pub struct SMCKeyData_vers {
    pub major: u8,
    pub minor: u8,
    pub build: u8,
    pub reserved: u8,
    pub release: u16,
}

/// Power-limit block of the wire record.  The protocol engine never reads it
/// and always sends it zeroed.
#[derive(Clone, Copy, Debug, PartialEq, Eq, Structural)]
pub struct SMCKeyData_plimitData {
    pub version: u16,
    pub length: u16,
    pub cpu_plimit: u32,
    pub gpu_plimit: u32,
    pub mem_plimit: u32,
}

/// Metadata about a SMC key.
///
/// Contains information about the data type, size, and attributes
/// of a SMC key without including the actual value.
#[derive(Clone, Copy, Debug, PartialEq, Eq, Structural)]
pub struct SMCKeyData_keyInfo {
    pub data_size: u32,
    /// The type tag: four ASCII characters, first character in the most
    /// significant byte.
    pub data_type: u32,
    pub data_attributes: u8,
}

/// The wire record: the one structure sent and received in every call.
#[derive(Clone, Copy, Debug, PartialEq, Eq)]
pub struct SMCKeyData {
    /// Key identifier: four ASCII characters, first character in the most
    /// significant byte.
    pub key: u32,
    pub vers: SMCKeyData_vers,
    pub plimit_data: SMCKeyData_plimitData,
    pub key_info: SMCKeyData_keyInfo,
    /// Set by the controller.
    pub result: u8,
    pub status: u8,
    /// The command.
    pub data8: u8,
    /// The index, for the command that maps an index to a key.
    pub data32: u32,
    /// The payload.
    pub bytes: SMCBytes,
}

/// Represents a SMC key-value pair.
///
/// Only the first `data_size` bytes of `bytes` are meaningful.
#[derive(Clone, Copy, Debug, PartialEq, Eq)]
pub struct SMCVal {
    pub key: [u8; 4],
    pub data_size: u32,
    pub data_type: [u8; 4],
    pub bytes: SMCBytes,
}

/// The payload buffer with every byte zero.
pub open spec fn zero_bytes() -> SMCBytes {
    vstd::array::spec_array_fill_for_copy_type::<u8, 32>(0u8)
}

impl SMCKeyData_vers {
    /// The all-zero version block.
    pub open spec fn zero() -> Self {
        SMCKeyData_vers { major: 0, minor: 0, build: 0, reserved: 0, release: 0 }
    }
}

impl Default for SMCKeyData_vers {
    fn default() -> (r: Self)
        ensures
            r == Self::zero(),
    {
        SMCKeyData_vers { major: 0, minor: 0, build: 0, reserved: 0, release: 0 }
    }
}

impl SMCKeyData_plimitData {
    /// The all-zero power-limit block.
    pub open spec fn zero() -> Self {
        SMCKeyData_plimitData { version: 0, length: 0, cpu_plimit: 0, gpu_plimit: 0, mem_plimit: 0 }
    }
}

impl Default for SMCKeyData_plimitData {
    fn default() -> (r: Self)
        ensures
            r == Self::zero(),
    {
        SMCKeyData_plimitData { version: 0, length: 0, cpu_plimit: 0, gpu_plimit: 0, mem_plimit: 0 }
    }
}

impl SMCKeyData_keyInfo {
    /// Metadata with every field zero.
    pub open spec fn zero() -> Self {
        SMCKeyData_keyInfo { data_size: 0, data_type: 0, data_attributes: 0 }
    }
}

impl Default for SMCKeyData_keyInfo {
    fn default() -> (r: Self)
        ensures
            r == Self::zero(),
    {
        SMCKeyData_keyInfo { data_size: 0, data_type: 0, data_attributes: 0 }
    }
}

impl SMCKeyData {
    /// The record with every field zero.
    pub open spec fn zero() -> Self {
        SMCKeyData {
            key: 0,
            vers: SMCKeyData_vers::zero(),
            plimit_data: SMCKeyData_plimitData::zero(),
            key_info: SMCKeyData_keyInfo::zero(),
            result: 0,
            status: 0,
            data8: 0,
            data32: 0,
            bytes: zero_bytes(),
        }
    }
}

impl Default for SMCKeyData {
    fn default() -> (r: Self)
        ensures
            r == Self::zero(),
    {
        SMCKeyData {
            key: 0,
            vers: SMCKeyData_vers::default(),
            plimit_data: SMCKeyData_plimitData::default(),
            key_info: SMCKeyData_keyInfo::default(),
            result: 0,
            status: 0,
            data8: 0,
            data32: 0,
            bytes: [0u8; 32],
        }
    }
}

impl SMCVal {
    /// The value with an empty key, no data and a zeroed buffer.
    pub open spec fn zero() -> Self {
        SMCVal {
            key: [0u8, 0u8, 0u8, 0u8],
            data_size: 0,
            data_type: [0u8, 0u8, 0u8, 0u8],
            bytes: zero_bytes(),
        }
    }
}

impl Default for SMCVal {
    fn default() -> (r: Self)
        ensures
            r == Self::zero(),
    {
        let r = SMCVal { key: [0u8; 4], data_size: 0, data_type: [0u8; 4], bytes: [0u8; 32] };
        assert(r.key =~= Self::zero().key);
        assert(r.data_type =~= Self::zero().data_type);
        r
    }
}

} // verus!
