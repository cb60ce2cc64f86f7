//! Constants and packed record layouts of the binder kernel interface
//! (protocol version 8: 64-bit sizes and pointers).
use crate::wire::{le32, le64, push_u32, push_u64, read_u32, read_u64, u32_at, u64_at, zeros};
use vstd::prelude::*;

verus! {

/// Protocol version this library speaks.
pub const BINDER_PROTOCOL_VERSION: i32 = 8;

/// Size in bytes of an encoded `BinderTransactionData`.
pub const TRANSACTION_DATA_SIZE: usize = 64;

/// Size in bytes of an encoded `FlatBinderObject`.
pub const FLAT_OBJECT_SIZE: usize = 24;

pub const TYPE_BINDER: u32 = 0x73622a85;
pub const TYPE_WEAK_BINDER: u32 = 0x77622a85;
pub const TYPE_HANDLE: u32 = 0x73682a85;
pub const TYPE_WEAK_HANDLE: u32 = 0x77682a85;
pub const TYPE_FD: u32 = 0x66642a85;
pub const TYPE_FDA: u32 = 0x66646185;
pub const TYPE_PTR: u32 = 0x70742a85;

pub const BC_TRANSACTION: u32 = 0x40406300;
pub const BC_REPLY: u32 = 0x40406301;
pub const BC_ENTER_LOOPER: u32 = 0x630c;
pub const BC_EXIT_LOOPER: u32 = 0x630d;

pub const BR_ERROR: u32 = 0x7f007200;
pub const BR_OK: u32 = 0x7201;
pub const BR_TRANSACTION: u32 = 0x80407202;
pub const BR_REPLY: u32 = 0x80407203;
pub const BR_DEAD_REPLY: u32 = 0x7205;
pub const BR_TRANSACTION_COMPLETE: u32 = 0x7206;
pub const BR_NOOP: u32 = 0x720c;
pub const BR_SPAWN_LOOPER: u32 = 0x720d;
pub const BR_FINISHED: u32 = 0x720e;
pub const BR_FAILED_REPLY: u32 = 0x7211;

/// Flag of a transaction whose reply carries a status code instead of data.
pub const STATUS_CODE_FLAG: u32 = 8;

/// Flags of an outgoing flat object.
#[derive(Debug, Clone, Copy, PartialEq, Eq)]
pub enum FlatBinderFlags {
    PriorityMask,
    AcceptFds,
}

impl FlatBinderFlags {
    pub open spec fn spec_code(self) -> u32 {
        match self {
            FlatBinderFlags::PriorityMask => 0xff,
            FlatBinderFlags::AcceptFds => 0x100,
        }
    }

    pub fn code(&self) -> (r: u32)
        ensures
            r == self.spec_code(),
    {
        match self {
            FlatBinderFlags::PriorityMask => 0xff,
            FlatBinderFlags::AcceptFds => 0x100,
        }
    }
}

/// The type tag of a flat object; a tag the kernel may send that is none of
/// the known ones is kept as `Unknown`.
#[derive(Debug, Clone, Copy, PartialEq, Eq)]
pub enum BinderType {
    Binder,
    WeakBinder,
    Handle,
    WeakHandle,
    Fd,
    Fda,
    Ptr,
    Unknown(u32),
}

impl BinderType {
    pub open spec fn spec_code(self) -> u32 {
        match self {
            BinderType::Binder => TYPE_BINDER,
            BinderType::WeakBinder => TYPE_WEAK_BINDER,
            BinderType::Handle => TYPE_HANDLE,
            BinderType::WeakHandle => TYPE_WEAK_HANDLE,
            BinderType::Fd => TYPE_FD,
            BinderType::Fda => TYPE_FDA,
            BinderType::Ptr => TYPE_PTR,
            BinderType::Unknown(v) => v,
        }
    }

    pub open spec fn spec_from(v: u32) -> BinderType {
        if v == TYPE_BINDER {
            BinderType::Binder
        } else if v == TYPE_WEAK_BINDER {
            BinderType::WeakBinder
        } else if v == TYPE_HANDLE {
            BinderType::Handle
        } else if v == TYPE_WEAK_HANDLE {
            BinderType::WeakHandle
        } else if v == TYPE_FD {
            BinderType::Fd
        } else if v == TYPE_FDA {
            BinderType::Fda
        } else if v == TYPE_PTR {
            BinderType::Ptr
        } else {
            BinderType::Unknown(v)
        }
    }

    pub fn code(&self) -> (r: u32)
        ensures
            r == self.spec_code(),
    {
        match self {
            BinderType::Binder => TYPE_BINDER,
            BinderType::WeakBinder => TYPE_WEAK_BINDER,
            BinderType::Handle => TYPE_HANDLE,
            BinderType::WeakHandle => TYPE_WEAK_HANDLE,
            BinderType::Fd => TYPE_FD,
            BinderType::Fda => TYPE_FDA,
            BinderType::Ptr => TYPE_PTR,
            BinderType::Unknown(v) => *v,
        }
    }
}

impl From<u32> for BinderType {
    fn from(v: u32) -> (r: BinderType) {
        if v == TYPE_BINDER {
            BinderType::Binder
        } else if v == TYPE_WEAK_BINDER {
            BinderType::WeakBinder
        } else if v == TYPE_HANDLE {
            BinderType::Handle
        } else if v == TYPE_WEAK_HANDLE {
            BinderType::WeakHandle
        } else if v == TYPE_FD {
            BinderType::Fd
        } else if v == TYPE_FDA {
            BinderType::Fda
        } else if v == TYPE_PTR {
            BinderType::Ptr
        } else {
            BinderType::Unknown(v)
        }
    }
}

impl vstd::std_specs::convert::FromSpecImpl<u32> for BinderType {
    open spec fn obeys_from_spec() -> bool {
        true
    }

    open spec fn from_spec(v: u32) -> BinderType {
        BinderType::spec_from(v)
    }
}


#[allow(non_camel_case_types)]
/// Commands written to the driver.
#[derive(Debug, Clone, Copy, PartialEq, Eq)]
pub enum BinderDriverCommandProtocol {
    BC_TRANSACTION,
    BC_REPLY,
    BC_ACQUIRE_RESULT,
    BC_FREE_BUFFER,
    BC_INCREFS,
    BC_ACQUIRE,
    BC_RELEASE,
    BC_DECREFS,
    BC_INCREFS_DONE,
    BC_ACQUIRE_DONE,
    BC_ATTEMPT_ACQUIRE,
    BC_REGISTER_LOOPER,
    BC_ENTER_LOOPER,
    BC_EXIT_LOOPER,
    BC_REQUEST_DEATH_NOTIFICATION,
    BC_CLEAR_DEATH_NOTIFICATION,
    BC_DEAD_BINDER_DONE,
}

impl BinderDriverCommandProtocol {
    pub open spec fn spec_code(self) -> u32 {
        match self {
            BinderDriverCommandProtocol::BC_TRANSACTION => 0x40406300,
            BinderDriverCommandProtocol::BC_REPLY => 0x40406301,
            BinderDriverCommandProtocol::BC_ACQUIRE_RESULT => 0x40046302,
            BinderDriverCommandProtocol::BC_FREE_BUFFER => 0x40046303,
            BinderDriverCommandProtocol::BC_INCREFS => 0x40046304,
            BinderDriverCommandProtocol::BC_ACQUIRE => 0x40046305,
            BinderDriverCommandProtocol::BC_RELEASE => 0x40046306,
            BinderDriverCommandProtocol::BC_DECREFS => 0x40046307,
            BinderDriverCommandProtocol::BC_INCREFS_DONE => 0x40086308,
            BinderDriverCommandProtocol::BC_ACQUIRE_DONE => 0x40086309,
            BinderDriverCommandProtocol::BC_ATTEMPT_ACQUIRE => 0x4008630a,
            BinderDriverCommandProtocol::BC_REGISTER_LOOPER => 0x630b,
            BinderDriverCommandProtocol::BC_ENTER_LOOPER => 0x630c,
            BinderDriverCommandProtocol::BC_EXIT_LOOPER => 0x630d,
            BinderDriverCommandProtocol::BC_REQUEST_DEATH_NOTIFICATION => 0x4008630e,
            BinderDriverCommandProtocol::BC_CLEAR_DEATH_NOTIFICATION => 0x4008630f,
            BinderDriverCommandProtocol::BC_DEAD_BINDER_DONE => 0x40046310,
        }
    }

    pub fn code(&self) -> (r: u32)
        ensures
            r == self.spec_code(),
    {
        match self {
            BinderDriverCommandProtocol::BC_TRANSACTION => 0x40406300,
            BinderDriverCommandProtocol::BC_REPLY => 0x40406301,
            BinderDriverCommandProtocol::BC_ACQUIRE_RESULT => 0x40046302,
            BinderDriverCommandProtocol::BC_FREE_BUFFER => 0x40046303,
            BinderDriverCommandProtocol::BC_INCREFS => 0x40046304,
            BinderDriverCommandProtocol::BC_ACQUIRE => 0x40046305,
            BinderDriverCommandProtocol::BC_RELEASE => 0x40046306,
            BinderDriverCommandProtocol::BC_DECREFS => 0x40046307,
            BinderDriverCommandProtocol::BC_INCREFS_DONE => 0x40086308,
            BinderDriverCommandProtocol::BC_ACQUIRE_DONE => 0x40086309,
            BinderDriverCommandProtocol::BC_ATTEMPT_ACQUIRE => 0x4008630a,
            BinderDriverCommandProtocol::BC_REGISTER_LOOPER => 0x630b,
            BinderDriverCommandProtocol::BC_ENTER_LOOPER => 0x630c,
            BinderDriverCommandProtocol::BC_EXIT_LOOPER => 0x630d,
            BinderDriverCommandProtocol::BC_REQUEST_DEATH_NOTIFICATION => 0x4008630e,
            BinderDriverCommandProtocol::BC_CLEAR_DEATH_NOTIFICATION => 0x4008630f,
            BinderDriverCommandProtocol::BC_DEAD_BINDER_DONE => 0x40046310,
        }
    }
}

#[allow(non_camel_case_types)]
/// Codes the driver returns; any other value is kept as `Unknown`.
#[derive(Debug, Clone, Copy, PartialEq, Eq)]
pub enum BinderDriverReturnProtocol {
    BR_ERROR,
    BR_OK,
    BR_TRANSACTION,
    BR_REPLY,
    BR_ACQUIRE_RESULT,
    BR_DEAD_REPLY,
    BR_TRANSACTION_COMPLETE,
    BR_INCREFS,
    BR_ACQUIRE,
    BR_RELEASE,
    BR_DECREFS,
    BR_ATTEMPT_ACQUIRE,
    BR_NOOP,
    BR_SPAWN_LOOPER,
    BR_FINISHED,
    BR_DEAD_BINDER,
    BR_CLEAR_DEATH_NOTIFICATION_DONE,
    BR_FAILED_REPLY,
    Unknown(u32),
}

impl BinderDriverReturnProtocol {
    pub open spec fn spec_code(self) -> u32 {
        match self {
            BinderDriverReturnProtocol::BR_ERROR => 0x7f007200,
            BinderDriverReturnProtocol::BR_OK => 0x7201,
            BinderDriverReturnProtocol::BR_TRANSACTION => 0x80407202,
            BinderDriverReturnProtocol::BR_REPLY => 0x80407203,
            BinderDriverReturnProtocol::BR_ACQUIRE_RESULT => 0x80047204,
            BinderDriverReturnProtocol::BR_DEAD_REPLY => 0x7205,
            BinderDriverReturnProtocol::BR_TRANSACTION_COMPLETE => 0x7206,
            BinderDriverReturnProtocol::BR_INCREFS => 0x80087207,
            BinderDriverReturnProtocol::BR_ACQUIRE => 0x80087208,
            BinderDriverReturnProtocol::BR_RELEASE => 0x80087209,
            BinderDriverReturnProtocol::BR_DECREFS => 0x8008720a,
            BinderDriverReturnProtocol::BR_ATTEMPT_ACQUIRE => 0x800c720b,
            BinderDriverReturnProtocol::BR_NOOP => 0x720c,
            BinderDriverReturnProtocol::BR_SPAWN_LOOPER => 0x720d,
            BinderDriverReturnProtocol::BR_FINISHED => 0x720e,
            BinderDriverReturnProtocol::BR_DEAD_BINDER => 0x8004720f,
            BinderDriverReturnProtocol::BR_CLEAR_DEATH_NOTIFICATION_DONE => 0x80047210,
            BinderDriverReturnProtocol::BR_FAILED_REPLY => 0x7211,
            BinderDriverReturnProtocol::Unknown(v) => v,
        }
    }

    pub open spec fn spec_from(v: u32) -> BinderDriverReturnProtocol {
        if v == 0x7f007200 {
            BinderDriverReturnProtocol::BR_ERROR
        } else if v == 0x7201 {
            BinderDriverReturnProtocol::BR_OK
        } else if v == 0x80407202 {
            BinderDriverReturnProtocol::BR_TRANSACTION
        } else if v == 0x80407203 {
            BinderDriverReturnProtocol::BR_REPLY
        } else if v == 0x80047204 {
            BinderDriverReturnProtocol::BR_ACQUIRE_RESULT
        } else if v == 0x7205 {
            BinderDriverReturnProtocol::BR_DEAD_REPLY
        } else if v == 0x7206 {
            BinderDriverReturnProtocol::BR_TRANSACTION_COMPLETE
        } else if v == 0x80087207 {
            BinderDriverReturnProtocol::BR_INCREFS
        } else if v == 0x80087208 {
            BinderDriverReturnProtocol::BR_ACQUIRE
        } else if v == 0x80087209 {
            BinderDriverReturnProtocol::BR_RELEASE
        } else if v == 0x8008720a {
            BinderDriverReturnProtocol::BR_DECREFS
        } else if v == 0x800c720b {
            BinderDriverReturnProtocol::BR_ATTEMPT_ACQUIRE
        } else if v == 0x720c {
            BinderDriverReturnProtocol::BR_NOOP
        } else if v == 0x720d {
            BinderDriverReturnProtocol::BR_SPAWN_LOOPER
        } else if v == 0x720e {
            BinderDriverReturnProtocol::BR_FINISHED
        } else if v == 0x8004720f {
            BinderDriverReturnProtocol::BR_DEAD_BINDER
        } else if v == 0x80047210 {
            BinderDriverReturnProtocol::BR_CLEAR_DEATH_NOTIFICATION_DONE
        } else if v == 0x7211 {
            BinderDriverReturnProtocol::BR_FAILED_REPLY
        }  else {
            BinderDriverReturnProtocol::Unknown(v)
        }
    }

    pub fn code(&self) -> (r: u32)
        ensures
            r == self.spec_code(),
    {
        match self {
            BinderDriverReturnProtocol::BR_ERROR => 0x7f007200,
            BinderDriverReturnProtocol::BR_OK => 0x7201,
            BinderDriverReturnProtocol::BR_TRANSACTION => 0x80407202,
            BinderDriverReturnProtocol::BR_REPLY => 0x80407203,
            BinderDriverReturnProtocol::BR_ACQUIRE_RESULT => 0x80047204,
            BinderDriverReturnProtocol::BR_DEAD_REPLY => 0x7205,
            BinderDriverReturnProtocol::BR_TRANSACTION_COMPLETE => 0x7206,
            BinderDriverReturnProtocol::BR_INCREFS => 0x80087207,
            BinderDriverReturnProtocol::BR_ACQUIRE => 0x80087208,
            BinderDriverReturnProtocol::BR_RELEASE => 0x80087209,
            BinderDriverReturnProtocol::BR_DECREFS => 0x8008720a,
            BinderDriverReturnProtocol::BR_ATTEMPT_ACQUIRE => 0x800c720b,
            BinderDriverReturnProtocol::BR_NOOP => 0x720c,
            BinderDriverReturnProtocol::BR_SPAWN_LOOPER => 0x720d,
            BinderDriverReturnProtocol::BR_FINISHED => 0x720e,
            BinderDriverReturnProtocol::BR_DEAD_BINDER => 0x8004720f,
            BinderDriverReturnProtocol::BR_CLEAR_DEATH_NOTIFICATION_DONE => 0x80047210,
            BinderDriverReturnProtocol::BR_FAILED_REPLY => 0x7211,
            BinderDriverReturnProtocol::Unknown(v) => *v,
        }
    }
}

impl From<u32> for BinderDriverReturnProtocol {
    fn from(v: u32) -> (r: BinderDriverReturnProtocol) {
        if v == 0x7f007200 {
            BinderDriverReturnProtocol::BR_ERROR
        } else if v == 0x7201 {
            BinderDriverReturnProtocol::BR_OK
        } else if v == 0x80407202 {
            BinderDriverReturnProtocol::BR_TRANSACTION
        } else if v == 0x80407203 {
            BinderDriverReturnProtocol::BR_REPLY
        } else if v == 0x80047204 {
            BinderDriverReturnProtocol::BR_ACQUIRE_RESULT
        } else if v == 0x7205 {
            BinderDriverReturnProtocol::BR_DEAD_REPLY
        } else if v == 0x7206 {
            BinderDriverReturnProtocol::BR_TRANSACTION_COMPLETE
        } else if v == 0x80087207 {
            BinderDriverReturnProtocol::BR_INCREFS
        } else if v == 0x80087208 {
            BinderDriverReturnProtocol::BR_ACQUIRE
        } else if v == 0x80087209 {
            BinderDriverReturnProtocol::BR_RELEASE
        } else if v == 0x8008720a {
            BinderDriverReturnProtocol::BR_DECREFS
        } else if v == 0x800c720b {
            BinderDriverReturnProtocol::BR_ATTEMPT_ACQUIRE
        } else if v == 0x720c {
            BinderDriverReturnProtocol::BR_NOOP
        } else if v == 0x720d {
            BinderDriverReturnProtocol::BR_SPAWN_LOOPER
        } else if v == 0x720e {
            BinderDriverReturnProtocol::BR_FINISHED
        } else if v == 0x8004720f {
            BinderDriverReturnProtocol::BR_DEAD_BINDER
        } else if v == 0x80047210 {
            BinderDriverReturnProtocol::BR_CLEAR_DEATH_NOTIFICATION_DONE
        } else if v == 0x7211 {
            BinderDriverReturnProtocol::BR_FAILED_REPLY
        }  else {
            BinderDriverReturnProtocol::Unknown(v)
        }
    }
}

impl vstd::std_specs::convert::FromSpecImpl<u32> for BinderDriverReturnProtocol {
    open spec fn obeys_from_spec() -> bool {
        true
    }

    open spec fn from_spec(v: u32) -> BinderDriverReturnProtocol {
        BinderDriverReturnProtocol::spec_from(v)
    }
}

#[allow(non_camel_case_types)]
/// Flags of a transaction.
#[derive(Debug, Clone, Copy, PartialEq, Eq, Hash)]
pub enum TransactionFlags {
    ONE_WAY,
    ROOT_OBJECT,
    STATUS_CODE,
    ACCEPT_FDS,
}

impl TransactionFlags {
    pub open spec fn spec_code(self) -> u32 {
        match self {
            TransactionFlags::ONE_WAY => 1,
            TransactionFlags::ROOT_OBJECT => 4,
            TransactionFlags::STATUS_CODE => 8,
            TransactionFlags::ACCEPT_FDS => 16,
        }
    }

    pub fn code(&self) -> (r: u32)
        ensures
            r == self.spec_code(),
    {
        match self {
            TransactionFlags::ONE_WAY => 1,
            TransactionFlags::ROOT_OBJECT => 4,
            TransactionFlags::STATUS_CODE => 8,
            TransactionFlags::ACCEPT_FDS => 16,
        }
    }
}

/// Well-known transaction codes.
#[derive(Debug, Clone, Copy, PartialEq, Eq, Hash)]
pub enum Transaction {
    FirstCall,
    LastCall,
    Ping,
    Dump,
    Interface,
    Sysprops,
}

impl Transaction {
    pub open spec fn spec_code(self) -> u32 {
        match self {
            Transaction::FirstCall => 1,
            Transaction::LastCall => 0xffffff,
            Transaction::Ping => 0x5f504e47,
            Transaction::Dump => 0x5f444d50,
            Transaction::Interface => 0x5f4e5446,
            Transaction::Sysprops => 0x5f535052,
        }
    }

    pub fn code(&self) -> (r: u32)
        ensures
            r == self.spec_code(),
    {
        match self {
            Transaction::FirstCall => 1,
            Transaction::LastCall => 0xffffff,
            Transaction::Ping => 0x5f504e47,
            Transaction::Dump => 0x5f444d50,
            Transaction::Interface => 0x5f4e5446,
            Transaction::Sysprops => 0x5f535052,
        }
    }
}
/// Argument of the version ioctl.
#[derive(Debug, Clone, Copy, PartialEq, Eq)]
pub struct BinderVersion {
    pub protocol_version: i32,
}

impl Default for BinderVersion {
    fn default() -> (r: BinderVersion)
        ensures
            r.protocol_version == 0,
    {
        BinderVersion { protocol_version: 0 }
    }
}

/// Argument of the write/read ioctl.
#[derive(Debug, Clone, Copy, PartialEq, Eq)]
pub struct BinderWriteRead {
    pub write_size: u64,
    pub write_consumed: u64,
    pub write_buffer: u64,
    pub read_size: u64,
    pub read_consumed: u64,
    pub read_buffer: u64,
}

impl Default for BinderWriteRead {
    fn default() -> (r: BinderWriteRead)
        ensures
            r.write_size == 0 && r.write_consumed == 0 && r.write_buffer == 0,
            r.read_size == 0 && r.read_consumed == 0 && r.read_buffer == 0,
    {
        BinderWriteRead {
            write_size: 0,
            write_consumed: 0,
            write_buffer: 0,
            read_size: 0,
            read_consumed: 0,
            read_buffer: 0,
        }
    }
}

/// The transaction record that follows a transaction command or a reply code.
#[derive(Debug, Clone, Copy, PartialEq, Eq)]
pub struct BinderTransactionData {
    pub target: u32,
    pub cookie: u64,
    pub code: u32,
    pub flags: u32,
    pub sender_pid: i32,
    pub sender_euid: u32,
    pub data_size: u64,
    pub offsets_size: u64,
    pub data: u64,
    pub offsets: u64,
}

/// The 64 bytes of a transaction record: the target in an 8-byte slot, then
/// the remaining fields in declaration order.
pub open spec fn transaction_data_bytes(t: BinderTransactionData) -> Seq<u8> {
    le32(t.target) + zeros(4) + le64(t.cookie) + le32(t.code) + le32(t.flags) + le32(
        t.sender_pid as u32,
    ) + le32(t.sender_euid) + le64(t.data_size) + le64(t.offsets_size) + le64(t.data) + le64(
        t.offsets,
    )
}

/// The transaction record stored at offset `i` of `s`.
pub open spec fn transaction_data_at(s: Seq<u8>, i: int) -> BinderTransactionData {
    BinderTransactionData {
        target: u32_at(s, i),
        cookie: u64_at(s, i + 8),
        code: u32_at(s, i + 16),
        flags: u32_at(s, i + 20),
        sender_pid: u32_at(s, i + 24) as i32,
        sender_euid: u32_at(s, i + 28),
        data_size: u64_at(s, i + 32),
        offsets_size: u64_at(s, i + 40),
        data: u64_at(s, i + 48),
        offsets: u64_at(s, i + 56),
    }
}

impl BinderTransactionData {
    /// Encodes the record as the driver reads it.
    pub fn to_bytes(&self) -> (r: Vec<u8>)
        ensures
            r@ == transaction_data_bytes(*self),
            r@.len() == TRANSACTION_DATA_SIZE,
    {
        let mut v: Vec<u8> = Vec::new();
        push_u32(&mut v, self.target);
        crate::wire::push_zeros(&mut v, 4);
        push_u64(&mut v, self.cookie);
        push_u32(&mut v, self.code);
        push_u32(&mut v, self.flags);
        push_u32(&mut v, self.sender_pid as u32);
        push_u32(&mut v, self.sender_euid);
        push_u64(&mut v, self.data_size);
        push_u64(&mut v, self.offsets_size);
        push_u64(&mut v, self.data);
        push_u64(&mut v, self.offsets);
        proof {
            vstd::bytes::lemma_auto_spec_u32_to_from_le_bytes();
            vstd::bytes::lemma_auto_spec_u64_to_from_le_bytes();
        }
        v
    }

    /// Decodes the record stored at offset `i` of `s`.
    pub fn read_from(s: &[u8], i: usize) -> (r: BinderTransactionData)
        requires
            i + TRANSACTION_DATA_SIZE <= s@.len(),
        ensures
            r == transaction_data_at(s@, i as int),
    {
        let _n = s.len();
        BinderTransactionData {
            target: read_u32(s, i),
            cookie: read_u64(s, i + 8),
            code: read_u32(s, i + 16),
            flags: read_u32(s, i + 20),
            sender_pid: read_u32(s, i + 24) as i32,
            sender_euid: read_u32(s, i + 28),
            data_size: read_u64(s, i + 32),
            offsets_size: read_u64(s, i + 40),
            data: read_u64(s, i + 48),
            offsets: read_u64(s, i + 56),
        }
    }
}

/// A flat object embedded in a parcel: a remote handle, or a local binder
/// pointer and its cookie.
#[derive(Debug, Clone, Copy, PartialEq, Eq)]
pub struct FlatBinderObject {
    pub type_: u32,
    pub flags: u32,
    pub handle_binder: u64,
    pub cookie: u64,
}

/// The 24 bytes of a flat object.
pub open spec fn flat_object_bytes(o: FlatBinderObject) -> Seq<u8> {
    le32(o.type_) + le32(o.flags) + le64(o.handle_binder) + le64(o.cookie)
}

/// The flat object stored at offset `i` of `s`.
pub open spec fn flat_object_at(s: Seq<u8>, i: int) -> FlatBinderObject {
    FlatBinderObject {
        type_: u32_at(s, i),
        flags: u32_at(s, i + 4),
        handle_binder: u64_at(s, i + 8),
        cookie: u64_at(s, i + 16),
    }
}

impl FlatBinderObject {
    /// Encodes the object as it stands in a parcel.
    pub fn to_bytes(&self) -> (r: Vec<u8>)
        ensures
            r@ == flat_object_bytes(*self),
            r@.len() == FLAT_OBJECT_SIZE,
    {
        let mut v: Vec<u8> = Vec::new();
        push_u32(&mut v, self.type_);
        push_u32(&mut v, self.flags);
        push_u64(&mut v, self.handle_binder);
        push_u64(&mut v, self.cookie);
        proof {
            vstd::bytes::lemma_auto_spec_u32_to_from_le_bytes();
            vstd::bytes::lemma_auto_spec_u64_to_from_le_bytes();
        }
        v
    }

    /// Decodes the object stored at offset `i` of `s`.
    pub fn read_from(s: &[u8], i: usize) -> (r: FlatBinderObject)
        requires
            i + FLAT_OBJECT_SIZE <= s@.len(),
        ensures
            r == flat_object_at(s@, i as int),
    {
        let _n = s.len();
        FlatBinderObject {
            type_: read_u32(s, i),
            flags: read_u32(s, i + 4),
            handle_binder: read_u64(s, i + 8),
            cookie: read_u64(s, i + 16),
        }
    }
}

} // verus!
