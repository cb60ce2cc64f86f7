//! The driver protocol of one session: the commands written to the driver,
//! the interpretation of the codes it returns, and the copy of a reply out of
//! the receive region.
use crate::error::Error;
use crate::types::{
    transaction_data_at, transaction_data_bytes, BinderDriverCommandProtocol, BinderTransactionData,
    BinderVersion, BinderWriteRead, BINDER_PROTOCOL_VERSION, BR_ERROR, BR_FAILED_REPLY, BR_NOOP,
    BR_REPLY, BR_SPAWN_LOOPER, BR_TRANSACTION_COMPLETE, BC_ENTER_LOOPER, BC_EXIT_LOOPER,
    BC_TRANSACTION, STATUS_CODE_FLAG, TRANSACTION_DATA_SIZE,
};
use crate::wire::{le32, push_all, push_u32, read_u32, u32_at};
use vstd::prelude::*;

verus! {

/// Path of the binder device.
pub const DEVICE: &'static str = "/dev/binder";

/// Magic byte of the binder ioctls.
pub const BINDER_IOC_MAGIC: u8 = 0x62;

/// Request numbers of the binder ioctls.
pub const IOCTL_WRITE_READ: u32 = 1;
pub const IOCTL_SET_MAX_THREADS: u32 = 5;
pub const IOCTL_THREAD_EXIT: u32 = 8;
pub const IOCTL_VERSION: u32 = 9;

/// Size of the buffer that receives return codes.
pub const READ_SIZE: usize = 128;

/// Number of looper threads the driver is told it may ask for.
pub const MAX_THREADS: usize = 15;

/// Size of the receive region mapped from the device.
pub const MAP_SIZE: usize = 1040384;

/// `errno` of an interrupted system call.
pub const EINTR: i32 = 4;

/// A reply: its data copied out of the receive region, or a status code.
#[derive(Debug, PartialEq, Eq)]
pub enum Reply {
    Data(Vec<u8>),
    StatusCode(u32),
}

/// What a call returns: nothing (a one-way call), or a reply.
#[derive(Debug, PartialEq, Eq)]
pub enum CallResult {
    Noop,
    Reply(Reply),
}

/// A reply as values.
pub enum ReplyView {
    Data(Seq<u8>),
    StatusCode(u32),
}

/// A call result as values.
pub enum CallView {
    Noop,
    Reply(ReplyView),
}

impl View for Reply {
    type V = ReplyView;

    open spec fn view(&self) -> ReplyView {
        match self {
            Reply::Data(d) => ReplyView::Data(d@),
            Reply::StatusCode(c) => ReplyView::StatusCode(*c),
        }
    }
}

impl View for CallResult {
    type V = CallView;

    open spec fn view(&self) -> CallView {
        match self {
            CallResult::Noop => CallView::Noop,
            CallResult::Reply(r) => CallView::Reply(r@),
        }
    }
}

/// A call's result as values.
pub open spec fn call_view(r: Result<CallResult, Error>) -> Result<CallView, Error> {
    match r {
        Ok(c) => Ok(c@),
        Err(e) => Err(e),
    }
}

/// Where the return stream of a call leads: no reply, or the transaction
/// record of the reply.
#[derive(Debug, Clone, Copy, PartialEq, Eq)]
pub enum Step {
    Noop,
    Reply(BinderTransactionData),
}

/// The command block of a transaction: the command code and the record.
#[derive(Debug, Clone, Copy)]
pub struct WriteBuffer {
    pub command: BinderDriverCommandProtocol,
    pub transaction: BinderTransactionData,
}

/// The bytes written to the driver for a transaction of `data_size` bytes at
/// address `data`.
pub open spec fn transaction_command_bytes(
    target: u32,
    code: u32,
    flags: u32,
    data_size: u64,
    data: u64,
) -> Seq<u8> {
    le32(BC_TRANSACTION) + transaction_data_bytes(
        BinderTransactionData {
            target,
            cookie: 0,
            code,
            flags,
            sender_pid: 0,
            sender_euid: 0,
            data_size,
            offsets_size: 0,
            data,
            offsets: 0,
        },
    )
}

impl WriteBuffer {
    /// The command block of a transaction of `data_size` bytes at address
    /// `data` to `target`.
    pub fn transaction(target: u32, code: u32, flags: u32, data_size: u64, data: u64) -> (r:
        WriteBuffer)
        ensures
            r.command == BinderDriverCommandProtocol::BC_TRANSACTION,
            r.transaction == (BinderTransactionData {
                target,
                cookie: 0,
                code,
                flags,
                sender_pid: 0,
                sender_euid: 0,
                data_size,
                offsets_size: 0,
                data,
                offsets: 0,
            }),
    {
        WriteBuffer {
            command: BinderDriverCommandProtocol::BC_TRANSACTION,
            transaction: BinderTransactionData {
                target,
                cookie: 0,
                code,
                flags,
                sender_pid: 0,
                sender_euid: 0,
                data_size,
                offsets_size: 0,
                data,
                offsets: 0,
            },
        }
    }

    /// The bytes of the block: the command code then the record.
    pub fn to_bytes(&self) -> (r: Vec<u8>)
        ensures
            r@ == le32(self.command.spec_code()) + transaction_data_bytes(self.transaction),
            r@.len() == 4 + TRANSACTION_DATA_SIZE,
    {
        let mut v: Vec<u8> = Vec::new();
        push_u32(&mut v, self.command.code());
        let t = self.transaction.to_bytes();
        push_all(&mut v, &t);
        proof {
            vstd::bytes::lemma_auto_spec_u32_to_from_le_bytes();
        }
        v
    }
}

/// The bytes written to the driver for a transaction of `data_size` bytes at
/// address `data`.
pub fn transaction_command(target: u32, code: u32, flags: u32, data_size: u64, data: u64) -> (r:
    Vec<u8>)
    ensures
        r@ == transaction_command_bytes(target, code, flags, data_size, data),
{
    WriteBuffer::transaction(target, code, flags, data_size, data).to_bytes()
}

/// The command that makes the calling thread a looper.
pub fn enter_looper_command() -> (r: Vec<u8>)
    ensures
        r@ == le32(BC_ENTER_LOOPER),
{
    let mut v: Vec<u8> = Vec::new();
    push_u32(&mut v, BC_ENTER_LOOPER);
    v
}

/// The command that ends the calling thread's looper.
pub fn exit_looper_command() -> (r: Vec<u8>)
    ensures
        r@ == le32(BC_EXIT_LOOPER),
{
    let mut v: Vec<u8> = Vec::new();
    push_u32(&mut v, BC_EXIT_LOOPER);
    v
}

/// Accepts the driver only when it speaks this library's protocol version.
pub fn check_version(v: &BinderVersion) -> (r: Result<(), Error>)
    ensures
        r == (if v.protocol_version == BINDER_PROTOCOL_VERSION {
            Ok::<(), Error>(())
        } else {
            Err::<(), Error>(Error::VersionMismatch)
        }),
{
    if v.protocol_version == BINDER_PROTOCOL_VERSION {
        Ok(())
    } else {
        Err(Error::VersionMismatch)
    }
}

/// The error of a failed ioctl with request number `nr` and error number
/// `errno`.
pub fn ioctl_error(nr: u32, errno: i32) -> (r: Error)
    ensures
        r == (if errno == EINTR {
            Error::Interrupted
        } else {
            Error::IoctlFailed(nr)
        }),
{
    if errno == EINTR {
        Error::Interrupted
    } else {
        Error::IoctlFailed(nr)
    }
}

/// The write/read argument of a call: it writes `write_size` bytes at
/// `write_buffer` and reads up to `read_size` bytes into `read_buffer`.
pub fn write_read_args(write_size: u64, write_buffer: u64, read_size: u64, read_buffer: u64) -> (r:
    BinderWriteRead)
    ensures
        r == (BinderWriteRead {
            write_size,
            write_consumed: 0,
            write_buffer,
            read_size,
            read_consumed: 0,
            read_buffer,
        }),
{
    BinderWriteRead { write_size, write_consumed: 0, write_buffer, read_size, read_consumed: 0, read_buffer }
}

/// Return codes that only inform and are passed over.
pub open spec fn is_ignorable(c: u32) -> bool {
    c == BR_NOOP || c == BR_TRANSACTION_COMPLETE || c == BR_SPAWN_LOOPER
}

/// Where the return stream `s` of a call leads.
pub open spec fn return_stream(s: Seq<u8>) -> Result<Step, Error>
    decreases s.len(),
{
    if s.len() < 4 {
        Err(Error::ShortRead)
    } else {
        let c = u32_at(s, 0);
        if is_ignorable(c) {
            if s.len() == 4 {
                Ok(Step::Noop)
            } else {
                return_stream(s.skip(4))
            }
        } else if c == BR_REPLY {
            if s.len() < 4 + TRANSACTION_DATA_SIZE {
                Err(Error::TruncatedPayload)
            } else {
                Ok(Step::Reply(transaction_data_at(s, 4)))
            }
        } else if c == BR_ERROR {
            Err(Error::DriverError)
        } else if c == BR_FAILED_REPLY {
            Err(Error::TransactionFailed)
        } else {
            Err(Error::UnexpectedReturn(c))
        }
    }
}

/// Interprets the bytes the driver returned for a call (the first
/// `read_consumed` bytes of the read buffer).
pub fn read_return_stream(buf: &[u8]) -> (r: Result<Step, Error>)
    ensures
        r == return_stream(buf@),
{
    let len = buf.len();
    let mut pos: usize = 0;
    assert(buf@.skip(0) =~= buf@);
    loop
        invariant
            pos <= len,
            len == buf@.len(),
            return_stream(buf@.skip(pos as int)) == return_stream(buf@),
        decreases len - pos,
    {
        proof {
            crate::wire::lemma_at_skip(buf@, pos as int);
        }
        if len - pos < 4 {
            return Err(Error::ShortRead);
        }
        let c = read_u32(buf, pos);
        assert(u32_at(buf@.skip(pos as int), 0) == c);
        if c == BR_NOOP || c == BR_TRANSACTION_COMPLETE || c == BR_SPAWN_LOOPER {
            if len - pos == 4 {
                return Ok(Step::Noop);
            }
            assert(buf@.skip(pos as int).skip(4) =~= buf@.skip(pos + 4));
            pos = pos + 4;
        } else if c == BR_REPLY {
            if len - pos < 4 + TRANSACTION_DATA_SIZE {
                return Err(Error::TruncatedPayload);
            }
            let td = BinderTransactionData::read_from(buf, pos + 4);
            assert(transaction_data_at(buf@.skip(pos as int), 4) == td);
            return Ok(Step::Reply(td));
        } else if c == BR_ERROR {
            return Err(Error::DriverError);
        } else if c == BR_FAILED_REPLY {
            return Err(Error::TransactionFailed);
        } else {
            return Err(Error::UnexpectedReturn(c));
        }
    }
}

/// Whether `size` bytes at address `ptr` lie inside a region of `region_len`
/// bytes mapped at address `base`.
pub open spec fn in_region(ptr: u64, size: int, region_len: int, base: u64) -> bool {
    base <= ptr && ptr - base + size <= region_len
}

/// The reply that transaction record `td` describes, read from `region`, the
/// receive region mapped at address `base`.
pub open spec fn reply_of(td: BinderTransactionData, region: Seq<u8>, base: u64) -> Result<
    ReplyView,
    Error,
> {
    if td.flags & STATUS_CODE_FLAG != 0 {
        if in_region(td.data, 4, region.len() as int, base) {
            Ok(ReplyView::StatusCode(u32_at(region, td.data - base)))
        } else {
            Err(Error::TruncatedPayload)
        }
    } else if td.data_size == 0 {
        Ok(ReplyView::Data(Seq::empty()))
    } else if in_region(td.data, td.data_size as int, region.len() as int, base) {
        Ok(ReplyView::Data(region.subrange(td.data - base, td.data - base + td.data_size)))
    } else {
        Err(Error::TruncatedPayload)
    }
}

/// A reply as values.
pub open spec fn reply_view(r: Result<Reply, Error>) -> Result<ReplyView, Error> {
    match r {
        Ok(c) => Ok(c@),
        Err(e) => Err(e),
    }
}

/// Copies the reply that `td` describes out of `region`, the receive region
/// mapped at address `base`: the status code when the record carries the
/// status flag, else its data.
pub fn copy_reply(td: &BinderTransactionData, region: &[u8], base: u64) -> (r: Result<
    Reply,
    Error,
>)
    ensures
        reply_view(r) == reply_of(*td, region@, base),
{
    let len = region.len();
    if td.flags & STATUS_CODE_FLAG != 0 {
        if td.data < base || td.data - base > len as u64 || (len as u64) - (td.data - base) < 4 {
            return Err(Error::TruncatedPayload);
        }
        let off = (td.data - base) as usize;
        let c = read_u32(region, off);
        Ok(Reply::StatusCode(c))
    } else if td.data_size == 0 {
        let r = Reply::Data(Vec::new());
        assert(r@ == ReplyView::Data(Seq::empty()));
        Ok(r)
    } else {
        if td.data < base || td.data - base > len as u64 || (len as u64) - (td.data - base)
            < td.data_size {
            return Err(Error::TruncatedPayload);
        }
        let off = (td.data - base) as usize;
        let end = off + td.data_size as usize;
        let part = vstd::slice::slice_subrange(region, off, end);
        Ok(Reply::Data(vstd::slice::slice_to_vec(part)))
    }
}

/// What a call returns when the driver answered with the return stream
/// `read` and the receive region mapped at `base` holds `region`.
pub open spec fn call_outcome(read: Seq<u8>, region: Seq<u8>, base: u64) -> Result<CallView, Error> {
    match return_stream(read) {
        Err(e) => Err(e),
        Ok(Step::Noop) => Ok(CallView::Noop),
        Ok(Step::Reply(td)) => match reply_of(td, region, base) {
            Ok(rv) => Ok(CallView::Reply(rv)),
            Err(e) => Err(e),
        },
    }
}

/// Completes a call from the driver's return stream and the receive region.
pub fn complete_call(read: &[u8], region: &[u8], base: u64) -> (r: Result<CallResult, Error>)
    ensures
        call_view(r) == call_outcome(read@, region@, base),
{
    match read_return_stream(read) {
        Err(e) => Err(e),
        Ok(Step::Noop) => Ok(CallResult::Noop),
        Ok(Step::Reply(td)) => match copy_reply(&td, region, base) {
            Ok(rep) => Ok(CallResult::Reply(rep)),
            Err(e) => Err(e),
        },
    }
}

/// A return stream that starts with a failed reply fails the call with
/// `TransactionFailed`, whatever bytes follow and whatever the receive
/// region holds.
pub proof fn lemma_failed_reply_first(rest: Seq<u8>, region: Seq<u8>, base: u64)
    ensures
        return_stream(le32(BR_FAILED_REPLY) + rest) == Err::<Step, Error>(Error::TransactionFailed),
        call_outcome(le32(BR_FAILED_REPLY) + rest, region, base) == Err::<CallView, Error>(
            Error::TransactionFailed,
        ),
{
    crate::wire::lemma_le32_round_trip(BR_FAILED_REPLY, rest);
}

/// Whether a looper may go on after reading the return stream `s`: every
/// code is passed over (a reply with its record) up to the end of the stream.
pub open spec fn looper_stream(s: Seq<u8>) -> Result<(), Error>
    decreases s.len(),
{
    if s.len() == 0 {
        Ok(())
    } else if s.len() < 4 {
        Err(Error::ShortRead)
    } else {
        let c = u32_at(s, 0);
        if is_ignorable(c) {
            looper_stream(s.skip(4))
        } else if c == BR_REPLY {
            if s.len() < 4 + TRANSACTION_DATA_SIZE {
                Err(Error::TruncatedPayload)
            } else {
                looper_stream(s.skip(4 + TRANSACTION_DATA_SIZE))
            }
        } else if c == BR_ERROR {
            Err(Error::DriverError)
        } else if c == BR_FAILED_REPLY {
            Err(Error::TransactionFailed)
        } else {
            Err(Error::UnexpectedReturn(c))
        }
    }
}

/// Reads one return stream of a looper.
pub fn scan_looper_stream(buf: &[u8]) -> (r: Result<(), Error>)
    ensures
        r == looper_stream(buf@),
{
    let len = buf.len();
    let mut pos: usize = 0;
    assert(buf@.skip(0) =~= buf@);
    while pos < len
        invariant
            pos <= len,
            len == buf@.len(),
            looper_stream(buf@.skip(pos as int)) == looper_stream(buf@),
        decreases len - pos,
    {
        proof {
            crate::wire::lemma_at_skip(buf@, pos as int);
        }
        if len - pos < 4 {
            return Err(Error::ShortRead);
        }
        let c = read_u32(buf, pos);
        assert(u32_at(buf@.skip(pos as int), 0) == c);
        if c == BR_NOOP || c == BR_TRANSACTION_COMPLETE || c == BR_SPAWN_LOOPER {
            assert(buf@.skip(pos as int).skip(4) =~= buf@.skip(pos + 4));
            pos = pos + 4;
        } else if c == BR_REPLY {
            if len - pos < 4 + TRANSACTION_DATA_SIZE {
                return Err(Error::TruncatedPayload);
            }
            assert(buf@.skip(pos as int).skip(4 + TRANSACTION_DATA_SIZE) =~= buf@.skip(
                pos + 4 + TRANSACTION_DATA_SIZE,
            ));
            pos = pos + 4 + TRANSACTION_DATA_SIZE;
        } else if c == BR_ERROR {
            return Err(Error::DriverError);
        } else if c == BR_FAILED_REPLY {
            return Err(Error::TransactionFailed);
        } else {
            return Err(Error::UnexpectedReturn(c));
        }
    }
    assert(buf@.skip(len as int) =~= Seq::<u8>::empty());
    Ok(())
}

} // verus!
