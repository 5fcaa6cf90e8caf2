//! The key protocol: which records to send, in which order, and what the
//! replies mean.
//!
//! Nothing here performs a call.  Each operation is a value that holds the
//! record to send next ([`call`](ReadKey::call)) and is advanced with the
//! channel's reply ([`advance`](ReadKey::advance)) until it is finished.  The
//! owner of the connection makes the calls; it needs no knowledge of the
//! protocol beyond this loop.
//!
//! An operation begins with a record that is zero in every field it does not
//! set.  Where it takes several calls, each request is made from the one
//! before: what a reply taught is written into it, and nothing else of the
//! reply is.  What an operation comes to, for any replies, is stated once
//! more in closed form ([`read_outcome`], [`write_outcome`],
//! [`count_result`], [`index_outcome`]) and proved to be what its steps
//! arrive at.
use vstd::prelude::*;
use crate::endian::{
    be_bytes, be_u32, lemma_be_bytes_of_be_u32, u32_from_be_bytes, u32_to_be_bytes,
};
use crate::structs::{
    zero_bytes, SMCBytes, SMCKeyData, SMCKeyData_keyInfo, SMCKeyData_plimitData, SMCKeyData_vers,
    SMCVal, KERNEL_INDEX_SMC, SMC_BYTES_LEN, SMC_CMD_READ_BYTES, SMC_CMD_READ_INDEX,
    SMC_CMD_READ_KEYINFO, SMC_CMD_WRITE_BYTES, SMC_RESULT_NOT_SUPPORTED,
};

verus! {

/// Status code: a caller-supplied payload is too long, or its length differs
/// from the declared size of the key.
pub const KERN_INVALID_ARGUMENT: i32 = 4;

/// Status code: the controller answered, but not as the protocol demands.
pub const KERN_FAILURE: i32 = 5;

/// Status code: the controller knows no metadata for the key.
pub const KERN_NOT_SUPPORTED: i32 = 46;

/// What the channel hands back for one call: the record that the controller
/// wrote, or the channel's own status code where the call failed.
pub type Reply = Result<SMCKeyData, i32>;

/// One call to make over the channel.
#[derive(Clone, Copy, Debug, PartialEq, Eq)]
pub struct Call {
    /// The kernel entry point; always [`KERNEL_INDEX_SMC`].
    pub selector: u32,
    /// The record to send.
    pub input: SMCKeyData,
}

/// Where an operation stands once a reply has been taken in.
#[derive(Debug, PartialEq, Eq)]
pub enum Progress<S, T> {
    /// Another call is needed: the state names it and awaits its reply.
    Pending(S),
    /// The operation is over, with this result.  No further call is made.
    Finished(T),
}

/// Error information for failed SMC key operations during enumeration.
///
/// A lookup by index passes through three calls.  The fields are filled as
/// far as the lookup got: a failure of the first call leaves only `index`,
/// one of the second adds `key`, one of the third adds `data_size` and
/// `data_type`.
#[derive(Clone, Copy, Debug, PartialEq, Eq, Structural)]
pub struct ValError {
    pub err_code: i32,
    pub index: u32,
    pub key: Option<u32>,
    pub data_size: Option<u32>,
    pub data_type: Option<u32>,
}

impl Default for ValError {
    fn default() -> (r: Self)
        ensures
            r == (ValError { err_code: 0, index: 0, key: None, data_size: None, data_type: None }),
    {
        ValError { err_code: 0, index: 0, key: None, data_size: None, data_type: None }
    }
}

/// The record that asks for `command`: every field zero but the command and
/// the four that a command may carry.
pub open spec fn request(
    command: u8,
    key: u32,
    index: u32,
    data_size: u32,
    data_type: u32,
) -> SMCKeyData {
    SMCKeyData {
        key,
        vers: SMCKeyData_vers::zero(),
        plimit_data: SMCKeyData_plimitData::zero(),
        key_info: SMCKeyData_keyInfo { data_size, data_type, data_attributes: 0 },
        result: 0,
        status: 0,
        data8: command,
        data32: index,
        bytes: zero_bytes(),
    }
}

/// The call that sends `input` through the one entry point of the protocol.
pub open spec fn call_with(input: SMCKeyData) -> Call {
    Call { selector: KERNEL_INDEX_SMC, input }
}

/// What a reply to a metadata request means: the channel's code where the
/// call failed, "not supported" where the controller set the sentinel result,
/// and otherwise the metadata it filled in.
pub open spec fn key_info_outcome(reply: Reply) -> Result<SMCKeyData_keyInfo, i32> {
    match reply {
        Err(code) => Err(code),
        Ok(output) => if output.result == SMC_RESULT_NOT_SUPPORTED {
            Err(KERN_NOT_SUPPORTED)
        } else {
            Ok(output.key_info)
        },
    }
}

/// The value read for `key`: it carries the key, the size and type that the
/// metadata declared, and the payload that came back.
pub open spec fn value_of(key: u32, data_size: u32, data_type: u32, bytes: SMCBytes) -> SMCVal {
    SMCVal { key: be_bytes(key), data_size, data_type: be_bytes(data_type), bytes }
}

/// The request for the metadata of the key that a reply has named: the
/// record sent before, with that key and the command set.
pub open spec fn with_key(input: SMCKeyData, key: u32) -> SMCKeyData {
    SMCKeyData { key, data8: SMC_CMD_READ_KEYINFO, ..input }
}

/// The request for the payload of a key whose metadata is known: the record
/// sent before, with the declared size and type echoed and the command set.
pub open spec fn with_metadata(input: SMCKeyData, found: SMCKeyData_keyInfo) -> SMCKeyData {
    SMCKeyData {
        key_info: SMCKeyData_keyInfo {
            data_size: found.data_size,
            data_type: found.data_type,
            data_attributes: input.key_info.data_attributes,
        },
        data8: SMC_CMD_READ_BYTES,
        ..input
    }
}

/// The value that a read ends with: the key, size and type of the payload
/// request, and the payload of its reply.
pub open spec fn value_read(input: SMCKeyData, output: SMCKeyData) -> SMCVal {
    value_of(input.key, input.key_info.data_size, input.key_info.data_type, output.bytes)
}

/// Builds the record that asks for `command`.
fn make_request(command: u8, key: u32, index: u32) -> (r: SMCKeyData)
    ensures
        r == request(command, key, index, 0, 0),
{
    let mut r = SMCKeyData::default();
    r.key = key;
    r.data8 = command;
    r.data32 = index;
    r
}

/// Reads a reply to a metadata request.
fn read_key_info(reply: &Reply) -> (r: Result<SMCKeyData_keyInfo, i32>)
    ensures
        r == key_info_outcome(*reply),
{
    match reply {
        Err(code) => Err(*code),
        Ok(output) => {
            if output.result == SMC_RESULT_NOT_SUPPORTED {
                Err(KERN_NOT_SUPPORTED)
            } else {
                Ok(output.key_info)
            }
        },
    }
}

/// Turns a request into the request for the payload: the declared size and
/// type are echoed, and every other field stays as it was sent before.
fn echo_metadata(input: SMCKeyData, found: &SMCKeyData_keyInfo) -> (r: SMCKeyData)
    ensures
        r == with_metadata(input, *found),
{
    let mut r = input;
    r.key_info.data_size = found.data_size;
    r.key_info.data_type = found.data_type;
    r.data8 = SMC_CMD_READ_BYTES;
    r
}

/// Assembles the value that a read ends with.
fn make_value(input: &SMCKeyData, output: &SMCKeyData) -> (val: SMCVal)
    ensures
        val == value_read(*input, *output),
{
    SMCVal {
        key: u32_to_be_bytes(input.key),
        data_size: input.key_info.data_size,
        data_type: u32_to_be_bytes(input.key_info.data_type),
        bytes: output.bytes,
    }
}

/// The lookup of a key's metadata: a single call.
#[derive(Clone, Copy, Debug, PartialEq, Eq)]
pub struct GetKeyInfo {
    /// The record to send.
    pub input: SMCKeyData,
}

impl GetKeyInfo {
    /// The lookup for the key with the given four characters.
    pub open spec fn spec_start(key: [u8; 4]) -> Self {
        GetKeyInfo { input: request(SMC_CMD_READ_KEYINFO, be_u32(key@) as u32, 0, 0, 0) }
    }

    /// The call that the lookup awaits the reply of.
    pub open spec fn spec_call(self) -> Call {
        call_with(self.input)
    }

    /// Where the lookup stands after `reply`: it is over, with the metadata
    /// or the reason why there is none.
    pub open spec fn next(self, reply: Reply) -> Progress<
        GetKeyInfo,
        Result<SMCKeyData_keyInfo, i32>,
    > {
        Progress::Finished(key_info_outcome(reply))
    }

    /// Begins the lookup of the metadata of `key`.
    pub fn start(key: &[u8; 4]) -> (op: Self)
        ensures
            op == Self::spec_start(*key),
    {
        GetKeyInfo { input: make_request(SMC_CMD_READ_KEYINFO, u32_from_be_bytes(key), 0) }
    }

    /// The call to make next.
    pub fn call(&self) -> (c: Call)
        ensures
            c == self.spec_call(),
    {
        Call { selector: KERNEL_INDEX_SMC, input: self.input }
    }

    /// Takes in the reply to [`call`](Self::call).
    pub fn advance(self, reply: Reply) -> (p: Progress<GetKeyInfo, Result<SMCKeyData_keyInfo, i32>>)
        ensures
            p == self.next(reply),
    {
        Progress::Finished(read_key_info(&reply))
    }
}

/// Which request of a read is out.
#[derive(Clone, Copy, Debug, PartialEq, Eq, Structural)]
pub enum ReadPhase {
    /// The metadata request.
    Info,
    /// The payload request.
    Bytes,
}

/// The read of a key: its metadata is fetched first, and the payload is then
/// asked for with the size and type that the metadata declared.
///
/// One request record serves both calls: the payload request is the metadata
/// request with the size, the type and the command changed, never a record
/// begun anew.
#[derive(Clone, Copy, Debug, PartialEq, Eq)]
pub struct ReadKey {
    pub phase: ReadPhase,
    /// The record to send.
    pub input: SMCKeyData,
}

impl ReadKey {
    /// The read of the key with the given four characters.
    pub open spec fn spec_start(key: [u8; 4]) -> Self {
        ReadKey {
            phase: ReadPhase::Info,
            input: request(SMC_CMD_READ_KEYINFO, be_u32(key@) as u32, 0, 0, 0),
        }
    }

    /// The call that the read awaits the reply of.
    pub open spec fn spec_call(self) -> Call {
        call_with(self.input)
    }

    /// Where the read stands after `reply`.
    pub open spec fn next(self, reply: Reply) -> Progress<ReadKey, Result<SMCVal, i32>> {
        match self.phase {
            ReadPhase::Info => match key_info_outcome(reply) {
                Err(code) => Progress::Finished(Err(code)),
                Ok(found) => Progress::Pending(
                    ReadKey { phase: ReadPhase::Bytes, input: with_metadata(self.input, found) },
                ),
            },
            ReadPhase::Bytes => match reply {
                Err(code) => Progress::Finished(Err(code)),
                Ok(output) => Progress::Finished(Ok(value_read(self.input, output))),
            },
        }
    }

    /// Begins the read of `key`.
    pub fn start(key: &[u8; 4]) -> (op: Self)
        ensures
            op == Self::spec_start(*key),
    {
        ReadKey {
            phase: ReadPhase::Info,
            input: make_request(SMC_CMD_READ_KEYINFO, u32_from_be_bytes(key), 0),
        }
    }

    /// The call to make next.
    pub fn call(&self) -> (c: Call)
        ensures
            c == self.spec_call(),
    {
        Call { selector: KERNEL_INDEX_SMC, input: self.input }
    }

    /// Takes in the reply to [`call`](Self::call).
    pub fn advance(self, reply: Reply) -> (p: Progress<ReadKey, Result<SMCVal, i32>>)
        ensures
            p == self.next(reply),
    {
        match self.phase {
            ReadPhase::Info => match read_key_info(&reply) {
                Err(code) => Progress::Finished(Err(code)),
                Ok(found) => Progress::Pending(
                    ReadKey { phase: ReadPhase::Bytes, input: echo_metadata(self.input, &found) },
                ),
            },
            ReadPhase::Bytes => match reply {
                Err(code) => Progress::Finished(Err(code)),
                Ok(output) => Progress::Finished(Ok(make_value(&self.input, &output))),
            },
        }
    }
}

/// Which request of a lookup by position is out.
#[derive(Clone, Copy, Debug, PartialEq, Eq, Structural)]
pub enum IndexPhase {
    /// The request that maps the position to a key.
    Index,
    /// The metadata request.
    Info,
    /// The payload request.
    Bytes,
}

/// The read of the key at a position of the controller's key table: the
/// position is mapped to a key, and the key is then read as by [`ReadKey`].
///
/// One request record serves all three calls: each request is the one
/// before with what the reply taught added and the command changed, so the
/// position stays in every request of the lookup.
#[derive(Clone, Copy, Debug, PartialEq, Eq)]
pub struct IndexRead {
    pub phase: IndexPhase,
    /// The record to send.
    pub input: SMCKeyData,
}

impl IndexRead {
    /// The position that is being read.
    pub open spec fn index(self) -> u32 {
        self.input.data32
    }

    /// What is known of a lookup that failed with `err_code`: the position,
    /// and what the calls before the failure taught.
    pub open spec fn failure(self, err_code: i32) -> ValError {
        match self.phase {
            IndexPhase::Index => ValError {
                err_code,
                index: self.input.data32,
                key: None,
                data_size: None,
                data_type: None,
            },
            IndexPhase::Info => ValError {
                err_code,
                index: self.input.data32,
                key: Some(self.input.key),
                data_size: None,
                data_type: None,
            },
            IndexPhase::Bytes => ValError {
                err_code,
                index: self.input.data32,
                key: Some(self.input.key),
                data_size: Some(self.input.key_info.data_size),
                data_type: Some(self.input.key_info.data_type),
            },
        }
    }

    /// The lookup of position `index`.
    pub open spec fn spec_start(index: u32) -> Self {
        IndexRead { phase: IndexPhase::Index, input: request(SMC_CMD_READ_INDEX, 0, index, 0, 0) }
    }

    /// The call that the lookup awaits the reply of.
    pub open spec fn spec_call(self) -> Call {
        call_with(self.input)
    }

    /// Where the lookup stands after `reply`.
    pub open spec fn next(self, reply: Reply) -> Progress<IndexRead, Result<SMCVal, ValError>> {
        match self.phase {
            IndexPhase::Index => match reply {
                Err(code) => Progress::Finished(Err(self.failure(code))),
                Ok(output) => Progress::Pending(
                    IndexRead { phase: IndexPhase::Info, input: with_key(self.input, output.key) },
                ),
            },
            IndexPhase::Info => match key_info_outcome(reply) {
                Err(code) => Progress::Finished(Err(self.failure(code))),
                Ok(found) => Progress::Pending(
                    IndexRead { phase: IndexPhase::Bytes, input: with_metadata(self.input, found) },
                ),
            },
            IndexPhase::Bytes => match reply {
                Err(code) => Progress::Finished(Err(self.failure(code))),
                Ok(output) => Progress::Finished(Ok(value_read(self.input, output))),
            },
        }
    }

    /// Begins the lookup of position `index`.
    pub fn start(index: u32) -> (op: Self)
        ensures
            op == Self::spec_start(index),
    {
        IndexRead { phase: IndexPhase::Index, input: make_request(SMC_CMD_READ_INDEX, 0, index) }
    }

    /// The call to make next.
    pub fn call(&self) -> (c: Call)
        ensures
            c == self.spec_call(),
    {
        Call { selector: KERNEL_INDEX_SMC, input: self.input }
    }

    /// Says what is known of the lookup as it fails.
    fn fail(&self, err_code: i32) -> (e: ValError)
        ensures
            e == self.failure(err_code),
    {
        let index = self.input.data32;
        match self.phase {
            IndexPhase::Index => ValError {
                err_code,
                index,
                key: None,
                data_size: None,
                data_type: None,
            },
            IndexPhase::Info => ValError {
                err_code,
                index,
                key: Some(self.input.key),
                data_size: None,
                data_type: None,
            },
            IndexPhase::Bytes => ValError {
                err_code,
                index,
                key: Some(self.input.key),
                data_size: Some(self.input.key_info.data_size),
                data_type: Some(self.input.key_info.data_type),
            },
        }
    }

    /// Takes in the reply to [`call`](Self::call).
    pub fn advance(self, reply: Reply) -> (p: Progress<IndexRead, Result<SMCVal, ValError>>)
        ensures
            p == self.next(reply),
    {
        match self.phase {
            IndexPhase::Index => match reply {
                Err(code) => Progress::Finished(Err(self.fail(code))),
                Ok(output) => {
                    let mut input = self.input;
                    input.key = output.key;
                    input.data8 = SMC_CMD_READ_KEYINFO;
                    Progress::Pending(IndexRead { phase: IndexPhase::Info, input })
                },
            },
            IndexPhase::Info => match read_key_info(&reply) {
                Err(code) => Progress::Finished(Err(self.fail(code))),
                Ok(found) => Progress::Pending(
                    IndexRead {
                        phase: IndexPhase::Bytes,
                        input: echo_metadata(self.input, &found),
                    },
                ),
            },
            IndexPhase::Bytes => match reply {
                Err(code) => Progress::Finished(Err(self.fail(code))),
                Ok(output) => Progress::Finished(Ok(make_value(&self.input, &output))),
            },
        }
    }
}

/// A payload as it is sent: the bytes to write, followed by zeros up to the
/// size of the buffer.
pub open spec fn padded(value: Seq<u8>) -> Seq<u8> {
    Seq::new(
        32,
        |i: int|
            if i < value.len() {
                value[i]
            } else {
                0u8
            },
    )
}

/// The record that stores `len` bytes of `bytes` under `key`.
pub open spec fn write_request(key: u32, len: u32, bytes: SMCBytes) -> SMCKeyData {
    SMCKeyData { bytes, ..request(SMC_CMD_WRITE_BYTES, key, 0, len, 0) }
}

/// The write of a key.  The key is read first, and the payload is sent only
/// if its length is exactly the size that the key declares.
#[derive(Clone, Copy, Debug, PartialEq, Eq)]
pub enum WriteKey {
    /// The key is being read, to learn its declared size.
    Check { read: ReadKey, len: u32, bytes: SMCBytes },
    /// The write request is out.
    Store { input: SMCKeyData },
}

impl WriteKey {
    /// The call that the write awaits the reply of.
    pub open spec fn spec_call(self) -> Call {
        match self {
            WriteKey::Check { read, .. } => read.spec_call(),
            WriteKey::Store { input } => call_with(input),
        }
    }

    /// What the size check says once the key has been read: the write goes
    /// ahead if the declared size is the payload's length, and is refused
    /// otherwise.
    pub open spec fn checked(key: u32, len: u32, bytes: SMCBytes, val: SMCVal) -> Progress<
        WriteKey,
        Result<(), i32>,
    > {
        if val.data_size != len {
            Progress::Finished(Err(KERN_INVALID_ARGUMENT))
        } else {
            Progress::Pending(WriteKey::Store { input: write_request(key, len, bytes) })
        }
    }

    /// Where the write stands after `reply`.
    pub open spec fn next(self, reply: Reply) -> Progress<WriteKey, Result<(), i32>> {
        match self {
            WriteKey::Check { read, len, bytes } => match read.next(reply) {
                Progress::Pending(read) => Progress::Pending(WriteKey::Check { read, len, bytes }),
                Progress::Finished(Err(code)) => Progress::Finished(Err(code)),
                Progress::Finished(Ok(val)) => Self::checked(read.input.key, len, bytes, val),
            },
            WriteKey::Store { .. } => match reply {
                Err(code) => Progress::Finished(Err(code)),
                Ok(_) => Progress::Finished(Ok(())),
            },
        }
    }

    /// True when `p` is where the write of `value` under `key` begins: a
    /// payload of more than 32 bytes is refused before any call; any other
    /// is padded with zeros and set aside while the key is read.
    pub open spec fn begins(p: Progress<WriteKey, Result<(), i32>>, key: [u8; 4], value: Seq<u8>)
        -> bool {
        if value.len() > 32 {
            p == Progress::<WriteKey, Result<(), i32>>::Finished(Err(KERN_INVALID_ARGUMENT))
        } else {
            &&& p matches Progress::Pending(WriteKey::Check { read, len, bytes })
            &&& read == ReadKey::spec_start(key)
            &&& len == value.len()
            &&& bytes@ == padded(value)
        }
    }

    /// Begins the write of `value` under `key`.
    pub fn start(key: &[u8; 4], value: &[u8]) -> (p: Progress<WriteKey, Result<(), i32>>)
        ensures
            Self::begins(p, *key, value@),
    {
        let val_len = value.len();
        if val_len > SMC_BYTES_LEN {
            return Progress::Finished(Err(KERN_INVALID_ARGUMENT));
        }
        let mut bytes: SMCBytes = [0u8; 32];
        let mut i: usize = 0;
        while i < val_len
            invariant
                i <= val_len <= 32,
                val_len == value@.len(),
                forall|j: int| 0 <= j < i ==> bytes@[j] == value@[j],
                forall|j: int| i <= j < 32 ==> bytes@[j] == 0,
            decreases val_len - i,
        {
            bytes[i] = value[i];
            i += 1;
        }
        assert(bytes@ =~= padded(value@));
        Progress::Pending(
            WriteKey::Check { read: ReadKey::start(key), len: val_len as u32, bytes },
        )
    }

    /// The call to make next.
    pub fn call(&self) -> (c: Call)
        ensures
            c == self.spec_call(),
    {
        match self {
            WriteKey::Check { read, .. } => read.call(),
            WriteKey::Store { input } => Call { selector: KERNEL_INDEX_SMC, input: *input },
        }
    }

    /// Takes in the reply to [`call`](Self::call).
    pub fn advance(self, reply: Reply) -> (p: Progress<WriteKey, Result<(), i32>>)
        ensures
            p == self.next(reply),
    {
        match self {
            WriteKey::Check { read, len, bytes } => {
                let key = read.input.key;
                match read.advance(reply) {
                    Progress::Pending(read) => Progress::Pending(
                        WriteKey::Check { read, len, bytes },
                    ),
                    Progress::Finished(Err(code)) => Progress::Finished(Err(code)),
                    Progress::Finished(Ok(val)) => {
                        if val.data_size != len {
                            Progress::Finished(Err(KERN_INVALID_ARGUMENT))
                        } else {
                            let mut input = make_request(SMC_CMD_WRITE_BYTES, key, 0);
                            input.key_info.data_size = len;
                            input.bytes = bytes;
                            Progress::Pending(WriteKey::Store { input })
                        }
                    },
                }
            },
            WriteKey::Store { .. } => match reply {
                Err(code) => Progress::Finished(Err(code)),
                Ok(_) => Progress::Finished(Ok(())),
            },
        }
    }
}

/// The reserved key under which the controller keeps the number of its
/// keys: the four characters `#KEY`.
pub const SMC_KEY_COUNT: [u8; 4] = [0x23, 0x4B, 0x45, 0x59];

/// The number of keys that a read of the reserved key reports: its four
/// payload bytes, most significant first.  A declared size other than four
/// breaks the protocol.
pub open spec fn count_outcome(val: SMCVal) -> Result<u32, i32> {
    if val.data_size == 4 {
        Ok(be_u32(val.bytes@) as u32)
    } else {
        Err(KERN_FAILURE)
    }
}

/// The query for the number of keys: a read of the reserved key.
#[derive(Clone, Copy, Debug, PartialEq, Eq)]
pub struct KeysCount {
    pub read: ReadKey,
}

impl KeysCount {
    /// The query before any call.
    pub open spec fn spec_start() -> Self {
        KeysCount { read: ReadKey::spec_start(SMC_KEY_COUNT) }
    }

    /// The call that the query awaits the reply of.
    pub open spec fn spec_call(self) -> Call {
        self.read.spec_call()
    }

    /// Where the query stands after `reply`.
    pub open spec fn next(self, reply: Reply) -> Progress<KeysCount, Result<u32, i32>> {
        match self.read.next(reply) {
            Progress::Pending(read) => Progress::Pending(KeysCount { read }),
            Progress::Finished(Err(code)) => Progress::Finished(Err(code)),
            Progress::Finished(Ok(val)) => Progress::Finished(count_outcome(val)),
        }
    }

    /// Begins the query.
    pub fn start() -> (op: Self)
        ensures
            op == Self::spec_start(),
    {
        KeysCount { read: ReadKey::start(&SMC_KEY_COUNT) }
    }

    /// The call to make next.
    pub fn call(&self) -> (c: Call)
        ensures
            c == self.spec_call(),
    {
        self.read.call()
    }

    /// Takes in the reply to [`call`](Self::call).
    pub fn advance(self, reply: Reply) -> (p: Progress<KeysCount, Result<u32, i32>>)
        ensures
            p == self.next(reply),
    {
        match self.read.advance(reply) {
            Progress::Pending(read) => Progress::Pending(KeysCount { read }),
            Progress::Finished(Err(code)) => Progress::Finished(Err(code)),
            Progress::Finished(Ok(val)) => {
                if val.data_size == 4 {
                    let bytes: [u8; 4] = [val.bytes[0], val.bytes[1], val.bytes[2], val.bytes[3]];
                    Progress::Finished(Ok(u32_from_be_bytes(&bytes)))
                } else {
                    Progress::Finished(Err(KERN_FAILURE))
                }
            },
        }
    }
}

/// The result of reading `key` when the controller answers the metadata
/// request with `info` and the payload request, if it comes to one, with
/// `payload`.
pub open spec fn read_outcome(key: u32, info: Reply, payload: Reply) -> Result<SMCVal, i32> {
    match key_info_outcome(info) {
        Err(code) => Err(code),
        Ok(found) => match payload {
            Err(code) => Err(code),
            Ok(output) => Ok(value_of(key, found.data_size, found.data_type, output.bytes)),
        },
    }
}

/// What the channel's reply to the write request makes of the write.
pub open spec fn store_outcome(store: Reply) -> Result<(), i32> {
    match store {
        Err(code) => Err(code),
        Ok(_) => Ok(()),
    }
}

/// A read is over after one reply where the metadata lookup fails, and after
/// two otherwise.  Its second request repeats the key with the size and type
/// that the metadata declared, and its result is [`read_outcome`].
pub proof fn lemma_read_key_runs(key: [u8; 4], info: Reply, payload: Reply)
    ensures
        ({
            let id = be_u32(key@) as u32;
            let first = ReadKey::spec_start(key);
            let result = Progress::<ReadKey, _>::Finished(read_outcome(id, info, payload));
            &&& first.spec_call() == call_with(request(SMC_CMD_READ_KEYINFO, id, 0, 0, 0))
            &&& match key_info_outcome(info) {
                Err(_) => first.next(info) == result,
                Ok(found) => {
                    let second = first.next(info)->Pending_0;
                    &&& first.next(info) is Pending
                    &&& second.spec_call() == call_with(
                        request(SMC_CMD_READ_BYTES, id, 0, found.data_size, found.data_type),
                    )
                    &&& second.next(payload) == result
                },
            }
        }),
{
}

/// A value that was read carries the key that was asked for.
pub proof fn lemma_read_key_keeps_key(key: [u8; 4], info: Reply, payload: Reply)
    ensures
        read_outcome(be_u32(key@) as u32, info, payload) matches Ok(val) ==> val.key == key,
{
    lemma_be_bytes_of_be_u32(key);
}

/// Asking twice for the metadata of one key gives the same answer where the
/// controller answers alike: the lookup keeps nothing from one call to the
/// next, and reads nothing of a reply but its status, its result byte and
/// its metadata.
pub proof fn lemma_get_key_info_repeatable(key: [u8; 4], first: Reply, second: Reply)
    requires
        match (first, second) {
            (Ok(a), Ok(b)) => a.result == b.result && a.key_info == b.key_info,
            (Err(a), Err(b)) => a == b,
            _ => false,
        },
    ensures
        GetKeyInfo::spec_start(key).next(first) == GetKeyInfo::spec_start(key).next(second),
{
}

/// The result of writing a payload of `len` bytes under `key` when the
/// controller answers the two requests of the read with `info` and `payload`
/// and the write request with `store`, each as far as it comes to it.
pub open spec fn write_outcome(
    key: u32,
    len: nat,
    info: Reply,
    payload: Reply,
    store: Reply,
) -> Result<(), i32> {
    if len > 32 {
        Err(KERN_INVALID_ARGUMENT)
    } else {
        match read_outcome(key, info, payload) {
            Err(code) => Err(code),
            Ok(val) => if val.data_size != len {
                Err(KERN_INVALID_ARGUMENT)
            } else {
                store_outcome(store)
            },
        }
    }
}

/// How many calls the write of a payload of `len` bytes makes: none where
/// the payload is too long, one where the metadata lookup fails, two where
/// the read of the payload fails or the declared size is not `len`, and
/// three, the last of them the write request, otherwise.
pub open spec fn write_calls(key: u32, len: nat, info: Reply, payload: Reply) -> int {
    if len > 32 {
        0
    } else if key_info_outcome(info) is Err {
        1
    } else if !(read_outcome(key, info, payload) matches Ok(val) && val.data_size == len) {
        2
    } else {
        3
    }
}

/// A write is over after [`write_calls`] replies, with [`write_outcome`] as
/// its result.  Its first two calls are those of the read of the key, and
/// only a third call is a write request: it carries the key, the length and
/// the payload padded with zeros.
pub proof fn lemma_write_key_runs(
    begin: Progress<WriteKey, Result<(), i32>>,
    key: [u8; 4],
    value: Seq<u8>,
    info: Reply,
    payload: Reply,
    store: Reply,
)
    requires
        WriteKey::begins(begin, key, value),
    ensures
        ({
            let id = be_u32(key@) as u32;
            let calls = write_calls(id, value.len(), info, payload);
            let result = Progress::<WriteKey, _>::Finished(
                write_outcome(id, value.len(), info, payload, store),
            );
            let first = begin->Pending_0;
            let second = first.next(info)->Pending_0;
            let third = second.next(payload)->Pending_0;
            let sent = third.spec_call().input;
            &&& calls == 0 ==> begin == result
            &&& calls >= 1 ==> begin is Pending && first.spec_call() == ReadKey::spec_start(
                key,
            ).spec_call()
            &&& calls == 1 ==> first.next(info) == result
            &&& calls >= 2 ==> first.next(info) is Pending && second.spec_call() == call_with(
                request(
                    SMC_CMD_READ_BYTES,
                    id,
                    0,
                    key_info_outcome(info)->Ok_0.data_size,
                    key_info_outcome(info)->Ok_0.data_type,
                ),
            )
            &&& calls == 2 ==> second.next(payload) == result
            &&& calls == 3 ==> second.next(payload) is Pending && sent == write_request(
                id,
                value.len() as u32,
                sent.bytes,
            ) && sent.bytes@ == padded(value) && third.next(store) == result
        }),
{
}

/// A payload of at most 32 bytes whose length is the size that the key
/// declares passes the size check: the write request goes out, and the write
/// ends as that call ends, in success or with the channel's code.
pub proof fn lemma_write_of_declared_size(
    key: u32,
    len: nat,
    info: Reply,
    payload: Reply,
    store: Reply,
)
    requires
        len <= 32,
        read_outcome(key, info, payload) matches Ok(val) && val.data_size == len,
    ensures
        write_calls(key, len, info, payload) == 3,
        write_outcome(key, len, info, payload, store) == store_outcome(store),
{
}

/// A key is read and then written with a payload of the size that the read
/// declared, of at most 32 bytes, while the controller declares the same
/// metadata as before.  The write then fails only as one of its calls fails,
/// with the code of the channel, and never over the size of the payload.
pub proof fn lemma_write_after_read(
    key: u32,
    len: nat,
    earlier_info: Reply,
    earlier_payload: Reply,
    info: Reply,
    payload: Reply,
    store: Reply,
)
    requires
        len <= 32,
        read_outcome(key, earlier_info, earlier_payload) matches Ok(val) && val.data_size == len,
        key_info_outcome(info) == key_info_outcome(earlier_info),
    ensures
        write_outcome(key, len, info, payload, store) == (match payload {
            Err(code) => Err(code),
            Ok(_) => store_outcome(store),
        }),
{
}

/// A payload whose length is not the size that the key declares is refused
/// as an invalid argument, and no write request is made: the write is over
/// before a third call.
pub proof fn lemma_write_refuses_other_sizes(
    key: u32,
    len: nat,
    info: Reply,
    payload: Reply,
    store: Reply,
)
    requires
        read_outcome(key, info, payload) matches Ok(val) && val.data_size != len,
    ensures
        write_outcome(key, len, info, payload, store) == Err::<(), i32>(KERN_INVALID_ARGUMENT),
        write_calls(key, len, info, payload) < 3,
{
}

/// The result of the query for the number of keys when the controller
/// answers the metadata request with `info` and the payload request, if it
/// comes to one, with `payload`.
pub open spec fn count_result(info: Reply, payload: Reply) -> Result<u32, i32> {
    match read_outcome(be_u32(SMC_KEY_COUNT@) as u32, info, payload) {
        Err(code) => Err(code),
        Ok(val) => count_outcome(val),
    }
}

/// The query for the number of keys makes the calls of a read of the
/// reserved key and is over when the read is, with [`count_result`] as its
/// result: the payload read as four bytes with the most significant first
/// where the key declares a size of four, a breach of the protocol where it
/// declares any other size, and the code of the read where the read fails.
pub proof fn lemma_keys_count_runs(info: Reply, payload: Reply)
    ensures
        ({
            let read = ReadKey::spec_start(SMC_KEY_COUNT);
            let first = KeysCount::spec_start();
            let second = first.next(info)->Pending_0;
            let result = Progress::<KeysCount, _>::Finished(count_result(info, payload));
            &&& first.spec_call() == read.spec_call()
            &&& if key_info_outcome(info) is Err {
                first.next(info) == result
            } else {
                &&& first.next(info) is Pending
                &&& second.spec_call() == read.next(info)->Pending_0.spec_call()
                &&& second.next(payload) == result
            }
        }),
{
}

/// Where the reserved key declares a size other than four, the query for
/// the number of keys fails as a breach of the protocol, though both of its
/// calls succeeded.
pub proof fn lemma_keys_count_needs_four_bytes(info: Reply, payload: Reply)
    requires
        read_outcome(be_u32(SMC_KEY_COUNT@) as u32, info, payload) matches Ok(val)
            && val.data_size != 4,
    ensures
        count_result(info, payload) == Err::<u32, i32>(KERN_FAILURE),
{
}

/// How many calls a lookup by position makes: one where the call that maps
/// the position to a key fails, two where the metadata lookup fails, three
/// otherwise.
pub open spec fn index_calls(named: Reply, info: Reply) -> int {
    if named is Err {
        1
    } else if key_info_outcome(info) is Err {
        2
    } else {
        3
    }
}

/// The result of the lookup of position `index` when the controller answers
/// its calls, as far as it comes to them, with `named`, `info` and
/// `payload`.  A failure tells how far the lookup got.
pub open spec fn index_outcome(index: u32, named: Reply, info: Reply, payload: Reply) -> Result<
    SMCVal,
    ValError,
> {
    match named {
        Err(err_code) => Err(
            ValError { err_code, index, key: None, data_size: None, data_type: None },
        ),
        Ok(found_key) => match key_info_outcome(info) {
            Err(err_code) => Err(
                ValError {
                    err_code,
                    index,
                    key: Some(found_key.key),
                    data_size: None,
                    data_type: None,
                },
            ),
            Ok(found) => match payload {
                Err(err_code) => Err(
                    ValError {
                        err_code,
                        index,
                        key: Some(found_key.key),
                        data_size: Some(found.data_size),
                        data_type: Some(found.data_type),
                    },
                ),
                Ok(output) => Ok(
                    value_of(found_key.key, found.data_size, found.data_type, output.bytes),
                ),
            },
        },
    }
}

/// A lookup by position is over after [`index_calls`] replies, at most
/// three, with [`index_outcome`] as its result.  Its requests all carry the
/// position; the second adds the key that the first reply named, the third
/// the size and type that the second reply declared.
pub proof fn lemma_index_read_runs(index: u32, named: Reply, info: Reply, payload: Reply)
    ensures
        ({
            let first = IndexRead::spec_start(index);
            let second = first.next(named)->Pending_0;
            let third = second.next(info)->Pending_0;
            let result = Progress::<IndexRead, _>::Finished(
                index_outcome(index, named, info, payload),
            );
            &&& first.spec_call() == call_with(request(SMC_CMD_READ_INDEX, 0, index, 0, 0))
            &&& index_calls(named, info) == 1 ==> first.next(named) == result
            &&& index_calls(named, info) >= 2 ==> first.next(named) is Pending
                && second.spec_call() == call_with(
                request(SMC_CMD_READ_KEYINFO, named->Ok_0.key, index, 0, 0),
            )
            &&& index_calls(named, info) == 2 ==> second.next(info) == result
            &&& index_calls(named, info) == 3 ==> second.next(info) is Pending
                && third.spec_call() == call_with(
                request(
                    SMC_CMD_READ_BYTES,
                    named->Ok_0.key,
                    index,
                    key_info_outcome(info)->Ok_0.data_size,
                    key_info_outcome(info)->Ok_0.data_type,
                ),
            ) && third.next(payload) == result
        }),
{
}

} // verus!
