use android_binder::binder::{
    check_version, complete_call, copy_reply, enter_looper_command, ioctl_error,
    read_return_stream, scan_looper_stream, transaction_command, CallResult, Reply, Step,
    IOCTL_WRITE_READ,
};
use android_binder::error::Error;
use android_binder::types::{
    BinderDriverCommandProtocol, BinderWriteRead, FlatBinderFlags, Transaction, TransactionFlags,
    BinderDriverReturnProtocol, BinderTransactionData, BinderType, BinderVersion, BR_ERROR,
    BR_FAILED_REPLY, BR_NOOP, BR_REPLY, BR_SPAWN_LOOPER, BR_TRANSACTION_COMPLETE,
};

const BASE: u64 = 0x7000_0000;

fn reply_record(flags: u32, data: u64, data_size: u64) -> BinderTransactionData {
    BinderTransactionData {
        target: 0,
        cookie: 0,
        code: 0,
        flags,
        sender_pid: 0,
        sender_euid: 0,
        data_size,
        offsets_size: 0,
        data,
        offsets: 0,
    }
}

fn stream(codes: &[u32], record: Option<BinderTransactionData>) -> Vec<u8> {
    let mut v = Vec::new();
    for c in codes {
        v.extend_from_slice(&c.to_le_bytes());
    }
    if let Some(r) = record {
        v.extend_from_slice(&r.to_bytes());
    }
    v
}

#[test]
fn noop_then_reply_gives_data() {
    let mut region = vec![0u8; 64];
    region[16..21].copy_from_slice(b"HELLO");
    let s = stream(&[BR_NOOP, BR_REPLY], Some(reply_record(0, BASE + 16, 5)));
    let r = complete_call(&s, &region, BASE);
    assert_eq!(r, Ok(CallResult::Reply(Reply::Data(b"HELLO".to_vec()))));
}

#[test]
fn status_flag_gives_status_code() {
    let mut region = vec![0u8; 64];
    region[8..12].copy_from_slice(&0xDEADBEEFu32.to_le_bytes());
    let s = stream(&[BR_NOOP, BR_REPLY], Some(reply_record(8, BASE + 8, 4)));
    let r = complete_call(&s, &region, BASE);
    assert_eq!(r, Ok(CallResult::Reply(Reply::StatusCode(0xDEADBEEF))));
}

#[test]
fn transaction_complete_alone_is_noop() {
    let s = stream(&[BR_TRANSACTION_COMPLETE], None);
    assert_eq!(complete_call(&s, &[], BASE), Ok(CallResult::Noop));
}

#[test]
fn failed_reply_first_wins_over_later_bytes() {
    let s = stream(&[BR_FAILED_REPLY, BR_REPLY, 0xFFFF_FFFF], None);
    assert_eq!(complete_call(&s, &[], BASE), Err(Error::TransactionFailed));
}

#[test]
fn ignorable_codes_in_any_order_before_reply() {
    let s = stream(
        &[BR_SPAWN_LOOPER, BR_TRANSACTION_COMPLETE, BR_NOOP, BR_REPLY],
        Some(reply_record(0, 0, 0)),
    );
    assert_eq!(complete_call(&s, &[], BASE), Ok(CallResult::Reply(Reply::Data(vec![]))));
}

#[test]
fn short_stream_is_short_read() {
    assert_eq!(read_return_stream(&[]), Err(Error::ShortRead));
    assert_eq!(read_return_stream(&[0x0c, 0x72]), Err(Error::ShortRead));
}

#[test]
fn reply_without_whole_record_is_truncated() {
    let mut s = stream(&[BR_REPLY], None);
    s.extend_from_slice(&[0u8; 10]);
    assert_eq!(read_return_stream(&s), Err(Error::TruncatedPayload));
}

#[test]
fn driver_error_and_unknown_codes() {
    assert_eq!(read_return_stream(&stream(&[BR_ERROR], None)), Err(Error::DriverError));
    assert_eq!(
        read_return_stream(&stream(&[BR_NOOP, 0x1234], None)),
        Err(Error::UnexpectedReturn(0x1234))
    );
}

#[test]
fn reply_record_is_decoded() {
    let rec = reply_record(8, 0x1122334455667788, 99);
    let s = stream(&[BR_REPLY], Some(rec));
    assert_eq!(read_return_stream(&s), Ok(Step::Reply(rec)));
}

#[test]
fn payload_outside_region_is_truncated() {
    let region = vec![0u8; 16];
    assert_eq!(copy_reply(&reply_record(0, BASE + 12, 5), &region, BASE), Err(Error::TruncatedPayload));
    assert_eq!(copy_reply(&reply_record(0, BASE - 1, 1), &region, BASE), Err(Error::TruncatedPayload));
    assert_eq!(copy_reply(&reply_record(8, BASE + 13, 4), &region, BASE), Err(Error::TruncatedPayload));
}

#[test]
fn transaction_command_layout() {
    let c = transaction_command(3, 4, 0x10, 12, 0x0102030405060708);
    assert_eq!(c.len(), 68);
    assert_eq!(&c[0..4], &0x40406300u32.to_le_bytes());
    assert_eq!(&c[4..8], &3u32.to_le_bytes());
    assert_eq!(&c[8..20], &[0u8; 12]);
    assert_eq!(&c[20..24], &4u32.to_le_bytes());
    assert_eq!(&c[24..28], &0x10u32.to_le_bytes());
    assert_eq!(&c[36..44], &12u64.to_le_bytes());
    assert_eq!(&c[52..60], &0x0102030405060708u64.to_le_bytes());
    assert_eq!(&c[60..68], &[0u8; 8]);
}

#[test]
fn enter_looper_command_bytes() {
    assert_eq!(enter_looper_command(), vec![0x0c, 0x63, 0, 0]);
}

#[test]
fn version_mismatch_is_refused() {
    assert_eq!(check_version(&BinderVersion { protocol_version: 6 }), Err(Error::VersionMismatch));
    assert_eq!(check_version(&BinderVersion { protocol_version: 8 }), Ok(()));
}

#[test]
fn interrupted_ioctl_is_reported() {
    assert_eq!(ioctl_error(IOCTL_WRITE_READ, 4), Error::Interrupted);
    assert_eq!(ioctl_error(IOCTL_WRITE_READ, 22), Error::IoctlFailed(1));
}

#[test]
fn looper_stream_passes_over_replies() {
    let s = stream(&[BR_NOOP, BR_REPLY], Some(reply_record(0, 0, 0)));
    assert_eq!(scan_looper_stream(&s), Ok(()));
    let s = stream(&[BR_NOOP, BR_FAILED_REPLY], None);
    assert_eq!(scan_looper_stream(&s), Err(Error::TransactionFailed));
}

#[test]
fn codes_map_to_named_variants() {
    assert_eq!(BinderType::from(0x73682a85), BinderType::Handle);
    assert_eq!(BinderType::from(1), BinderType::Unknown(1));
    assert_eq!(BinderType::Binder.code(), 0x73622a85);
    assert_eq!(BinderDriverReturnProtocol::from(0x720c), BinderDriverReturnProtocol::BR_NOOP);
    assert_eq!(BinderDriverReturnProtocol::from(5), BinderDriverReturnProtocol::Unknown(5));
}

#[test]
fn code_tables_match_the_kernel_interface() {
    assert_eq!(Transaction::Ping.code(), 0x5F504E47);
    assert_eq!(TransactionFlags::STATUS_CODE.code(), 8);
    assert_eq!(TransactionFlags::ONE_WAY.code(), 1);
    assert_eq!(BinderDriverCommandProtocol::BC_TRANSACTION.code(), 0x40406300);
    assert_eq!(BinderDriverCommandProtocol::BC_ENTER_LOOPER.code(), 0x630C);
    assert_eq!(FlatBinderFlags::AcceptFds.code() | 0x7F, 0x17F);
    assert_eq!(BinderDriverReturnProtocol::BR_REPLY.code(), 0x80407203);
}

#[test]
fn write_read_default_is_zero() {
    let d = BinderWriteRead::default();
    assert_eq!(
        (d.write_size, d.write_consumed, d.write_buffer, d.read_size, d.read_consumed, d.read_buffer),
        (0, 0, 0, 0, 0, 0)
    );
    let a = android_binder::binder::write_read_args(68, 0x1000, 128, 0x2000);
    assert_eq!((a.write_size, a.write_buffer, a.read_size, a.read_buffer), (68, 0x1000, 128, 0x2000));
    assert_eq!((a.write_consumed, a.read_consumed), (0, 0));
}
