use android_binder::binder::{complete_call, CallResult, Reply};
use android_binder::error::Error;
use android_binder::parcel::Parcel;
use android_binder::service_manager::{
    add_service_reply, add_service_request, get_service_reply, get_service_request, list_request,
    list_step, ping_reply, service_reply,
};
use android_binder::types::{
    BinderTransactionData, FlatBinderObject, BR_FAILED_REPLY, BR_NOOP, BR_REPLY,
    BR_TRANSACTION_COMPLETE, TYPE_HANDLE,
};

fn token() -> Vec<u8> {
    let mut p = Parcel::default();
    p.put_interface_token("android.os.IServiceManager").unwrap();
    p.as_bytes().to_vec()
}

fn data_reply(d: &[u8]) -> Result<CallResult, Error> {
    Ok(CallResult::Reply(Reply::Data(d.to_vec())))
}

fn str16(s: &str) -> Vec<u8> {
    let mut p = Parcel::default();
    p.put_str16(s).unwrap();
    p.as_bytes().to_vec()
}

#[test]
fn token_starts_with_strict_mode_word() {
    let t = token();
    assert_eq!(&t[..8], &[0, 0, 0x40, 0, 26, 0, 0, 0]);
    assert_eq!(t.len(), 64);
}

#[test]
fn add_service_request_layout() {
    for allow in [false, true] {
        let p = add_service_request("x", allow);
        let b = p.as_bytes();
        let t = token();
        assert_eq!(&b[..t.len()], &t[..]);
        let name = str16("x");
        assert_eq!(&b[t.len()..t.len() + 8], &name[..]);
        let obj = &b[t.len() + 8..t.len() + 32];
        assert_eq!(&obj[..8], &[0x85, 0x2a, 0x62, 0x73, 0x7f, 0x01, 0, 0]);
        let tail = if allow { [1, 0, 0, 0] } else { [0, 0, 0, 0] };
        assert_eq!(&b[t.len() + 32..], &tail);
    }
}

#[test]
fn get_service_request_layout() {
    let p = get_service_request("activity");
    let mut expected = token();
    expected.extend(str16("activity"));
    assert_eq!(p.as_bytes(), &expected[..]);
}

#[test]
fn list_request_layout() {
    let p = list_request(2);
    let mut expected = token();
    expected.extend_from_slice(&[2, 0, 0, 0]);
    assert_eq!(p.as_bytes(), &expected[..]);
}

#[test]
fn ping_with_empty_reply_succeeds() {
    let mut s = Vec::new();
    for c in [BR_NOOP, BR_TRANSACTION_COMPLETE, BR_REPLY] {
        s.extend_from_slice(&c.to_le_bytes());
    }
    let rec = BinderTransactionData {
        target: 0,
        cookie: 0,
        code: 0,
        flags: 0,
        sender_pid: 0,
        sender_euid: 0,
        data_size: 0,
        offsets_size: 0,
        data: 0,
        offsets: 0,
    };
    s.extend(rec.to_bytes());
    let r = complete_call(&s, &[], 0);
    assert_eq!(ping_reply(r), Ok(()));
    assert_eq!(ping_reply(Err(Error::Interrupted)), Err(Error::ServiceManagerUnreachable));
}

#[test]
fn list_two_services() {
    let mut replies = vec![
        data_reply(&str16("activity")),
        data_reply(&str16("package")),
        complete_call(&BR_FAILED_REPLY.to_le_bytes(), &[], 0),
    ]
    .into_iter();
    let mut names = Vec::new();
    let mut n: u32 = 0;
    loop {
        let r = replies.next().unwrap();
        if !list_step(&mut names, r).unwrap() {
            break;
        }
        n += 1;
    }
    assert_eq!(n, 2);
    assert_eq!(names, vec!["activity".to_string(), "package".to_string()]);
}

#[test]
fn list_stops_on_status_code_and_skips_noop() {
    let mut names = Vec::new();
    assert_eq!(list_step(&mut names, Ok(CallResult::Noop)), Ok(true));
    assert_eq!(list_step(&mut names, data_reply(&str16("a"))), Ok(true));
    assert_eq!(list_step(&mut names, Ok(CallResult::Reply(Reply::StatusCode(1)))), Ok(false));
    assert_eq!(names, vec!["a".to_string()]);
}

#[test]
fn list_fails_on_undecodable_name() {
    let mut names = Vec::new();
    assert_eq!(list_step(&mut names, data_reply(&[1, 0])), Err(Error::DecodeError));
    assert!(names.is_empty());
}

#[test]
fn get_service_reads_handle() {
    let o = FlatBinderObject { type_: TYPE_HANDLE, flags: 0x17f, handle_binder: 42, cookie: 0 };
    assert_eq!(get_service_reply(data_reply(&o.to_bytes())), Ok(42));
    assert_eq!(get_service_reply(Ok(CallResult::Noop)), Err(Error::InvalidReply));
    assert_eq!(get_service_reply(data_reply(&[0; 4])), Err(Error::DecodeError));
}

#[test]
fn add_service_denied() {
    let r = Ok(CallResult::Reply(Reply::StatusCode(0xFFFF_FFFE)));
    assert_eq!(add_service_reply(r), Err(Error::AddServiceFailed(0xFFFF_FFFE)));
    assert_eq!(add_service_reply(Ok(CallResult::Reply(Reply::StatusCode(0)))), Ok(()));
    assert_eq!(add_service_reply(data_reply(&[])), Ok(()));
}

#[test]
fn service_reply_wraps_data() {
    let p = service_reply(data_reply(&[1, 2, 3, 4])).unwrap();
    assert_eq!(p.as_bytes(), &[1, 2, 3, 4][..]);
    assert_eq!(service_reply(Ok(CallResult::Noop)).err(), Some(Error::InvalidReply));
}
