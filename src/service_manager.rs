//! Requests to the servicemanager (handle 0) and the reading of its replies.
use crate::binder::{call_view, CallResult, CallView, Reply, ReplyView};
use crate::error::Error;
use crate::parcel::{
    aligned, le16, str16_frame, str16_units_at, units_le, utf16_decode, utf16_units, with_binder,
    with_str16, Object, Parcel, BINDER_OBJECT_FLAGS, STRICT_MODE_PENALTY_GATHER,
};
use crate::types::{flat_object_at, flat_object_bytes, FlatBinderObject, FLAT_OBJECT_SIZE, TYPE_BINDER, TYPE_HANDLE};
use crate::wire::{le32, zeros};
use vstd::prelude::*;

verus! {

/// Handle of the servicemanager.
pub const BINDER_SERVICE_MANAGER: u32 = 0;

pub const SVC_MGR_GET_SERVICE: u32 = 1;
pub const SVC_MGR_CHECK_SERVICE: u32 = 2;
pub const SVC_MGR_ADD_SERVICE: u32 = 3;
pub const SVC_MGR_LIST_SERVICES: u32 = 4;

/// Flags of the ping transaction.
pub const PING_FLAGS: u32 = 0x10;

/// Interface name that opens every servicemanager request.
pub const INTERFACE_SERVICE_MANAGER: &'static str = "android.os.IServiceManager";

/// Pointer and cookie of the local binder sent with a registration.
pub const ADD_SERVICE_BINDER: u64 = 0xABABABAB;
pub const ADD_SERVICE_COOKIE: u64 = 0xCACACACA;

/// The interface token of the servicemanager.
pub open spec fn token_bytes() -> Seq<u8> {
    le32(STRICT_MODE_PENALTY_GATHER as u32) + str16_frame(utf16_units(INTERFACE_SERVICE_MANAGER@))
}

/// The flat object sent with a registration.
pub open spec fn add_service_object() -> FlatBinderObject {
    FlatBinderObject {
        type_: TYPE_BINDER,
        flags: BINDER_OBJECT_FLAGS,
        handle_binder: ADD_SERVICE_BINDER,
        cookie: ADD_SERVICE_COOKIE,
    }
}

/// A string frame written at a word boundary is the frame on its own, and
/// ends at a word boundary.
proof fn lemma_str16_at_word(b: Seq<u8>, u: Seq<u16>)
    requires
        b.len() % 4 == 0,
    ensures
        with_str16(b, u) == b + str16_frame(u),
        (b + str16_frame(u)).len() % 4 == 0,
{
    let x = le32(u.len() as u32) + units_le(u) + le16(0);
    assert(Seq::<u8>::empty() + le32(u.len() as u32) =~= le32(u.len() as u32));
    assert(b + le32(u.len() as u32) + units_le(u) + le16(0) =~= b + x);
    assert((b + x).len() % 4 == x.len() % 4);
    assert(str16_frame(u) =~= aligned(x));
    assert(with_str16(b, u) =~= b + aligned(x));
}

/// A flat object written at a word boundary ends at a word boundary.
proof fn lemma_binder_at_word(b: Seq<u8>, binder: u64, cookie: u64)
    requires
        b.len() % 4 == 0,
    ensures
        with_binder(b, binder, cookie) == b + flat_object_bytes(
            FlatBinderObject { type_: TYPE_BINDER, flags: BINDER_OBJECT_FLAGS, handle_binder: binder, cookie },
        ),
{
    vstd::bytes::lemma_auto_spec_u32_to_from_le_bytes();
    vstd::bytes::lemma_auto_spec_u64_to_from_le_bytes();
    let o = FlatBinderObject { type_: TYPE_BINDER, flags: BINDER_OBJECT_FLAGS, handle_binder: binder, cookie };
    assert(flat_object_bytes(o).len() == 24);
    assert(zeros(0) =~= Seq::<u8>::empty());
    assert(b + flat_object_bytes(o) + zeros(0) =~= b + flat_object_bytes(o));
}

/// Appends the servicemanager's interface token.
fn put_token(p: &mut Parcel)
    requires
        old(p)@.len() % 4 == 0,
    ensures
        final(p)@ == old(p)@ + token_bytes(),
        final(p)@.len() % 4 == 0,
{
    proof {
        reveal_strlit("android.os.IServiceManager");
        vstd::bytes::lemma_auto_spec_u32_to_from_le_bytes();
    }
    let ghost b = p@;
    let _ = p.put_interface_token(INTERFACE_SERVICE_MANAGER);
    proof {
        let b1 = b + le32(STRICT_MODE_PENALTY_GATHER as u32);
        lemma_str16_at_word(b1, utf16_units(INTERFACE_SERVICE_MANAGER@));
        assert(b1 + str16_frame(utf16_units(INTERFACE_SERVICE_MANAGER@)) =~= b + token_bytes());
    }
}

/// The request of the ping transaction: an empty parcel.
pub fn ping_request() -> (r: Parcel)
    ensures
        r@ == Seq::<u8>::empty(),
{
    Parcel::default()
}

/// The servicemanager is reachable when its ping completes without error.
pub fn ping_reply(r: Result<CallResult, Error>) -> (o: Result<(), Error>)
    ensures
        o == (if r is Ok {
            Ok::<(), Error>(())
        } else {
            Err::<(), Error>(Error::ServiceManagerUnreachable)
        }),
{
    match r {
        Ok(_) => Ok(()),
        Err(_) => Err(Error::ServiceManagerUnreachable),
    }
}

/// The request that looks a service up by name: the interface token and the
/// name.
pub fn get_service_request(name: &str) -> (r: Parcel)
    requires
        2 * name@.len() <= i32::MAX,
    ensures
        r@ == token_bytes() + str16_frame(utf16_units(name@)),
{
    let mut p = Parcel::default();
    put_token(&mut p);
    let ghost b = p@;
    let _ = p.put_str16(name);
    proof {
        lemma_str16_at_word(b, utf16_units(name@));
    }
    p
}

/// The handle a lookup reply gives, as values.
pub open spec fn get_service_outcome(r: Result<CallView, Error>) -> Result<u32, Error> {
    match r {
        Err(e) => Err(e),
        Ok(CallView::Reply(ReplyView::Data(d))) => if d.len() < FLAT_OBJECT_SIZE {
            Err(Error::DecodeError)
        } else if flat_object_at(d, 0).type_ == TYPE_HANDLE {
            Ok(flat_object_at(d, 0).handle_binder as u32)
        } else {
            Err(Error::UnsupportedObject)
        },
        Ok(_) => Err(Error::InvalidReply),
    }
}

/// Reads the handle out of the reply to a lookup.
pub fn get_service_reply(r: Result<CallResult, Error>) -> (o: Result<u32, Error>)
    ensures
        o == get_service_outcome(call_view(r)),
{
    match r {
        Err(e) => Err(e),
        Ok(CallResult::Reply(Reply::Data(d))) => {
            let mut p = Parcel::from_buf(d.as_slice());
            match p.get_obj() {
                Ok(Object::Handle(h)) => Ok(h),
                Ok(Object::Binder(_)) => Err(Error::UnsupportedObject),
                Err(e) => Err(e),
            }
        },
        Ok(_) => Err(Error::InvalidReply),
    }
}

/// The request that registers a service: the interface token, the name, a
/// local binder object, and whether isolated processes may use it.
pub fn add_service_request(name: &str, allow_isolated: bool) -> (r: Parcel)
    requires
        2 * name@.len() <= i32::MAX,
    ensures
        r@ == token_bytes() + str16_frame(utf16_units(name@)) + flat_object_bytes(
            add_service_object(),
        ) + le32(
            if allow_isolated {
                1
            } else {
                0
            },
        ),
{
    let mut p = Parcel::default();
    put_token(&mut p);
    let ghost b = p@;
    let _ = p.put_str16(name);
    proof {
        lemma_str16_at_word(b, utf16_units(name@));
    }
    let ghost b2 = p@;
    let _ = p.put_binder(ADD_SERVICE_BINDER, ADD_SERVICE_COOKIE);
    proof {
        lemma_binder_at_word(b2, ADD_SERVICE_BINDER, ADD_SERVICE_COOKIE);
    }
    let _ = p.put_i32(if allow_isolated { 1 } else { 0 });
    p
}

/// The outcome of a registration, as values.
pub open spec fn add_service_outcome(r: Result<CallView, Error>) -> Result<(), Error> {
    match r {
        Err(e) => Err(e),
        Ok(CallView::Reply(ReplyView::StatusCode(c))) => if c != 0 {
            Err(Error::AddServiceFailed(c))
        } else {
            Ok(())
        },
        Ok(CallView::Reply(ReplyView::Data(_))) => Ok(()),
        Ok(CallView::Noop) => Err(Error::InvalidReply),
    }
}

/// Reads the reply to a registration: a nonzero status code is a refusal.
pub fn add_service_reply(r: Result<CallResult, Error>) -> (o: Result<(), Error>)
    ensures
        o == add_service_outcome(call_view(r)),
{
    match r {
        Err(e) => Err(e),
        Ok(CallResult::Reply(Reply::StatusCode(c))) => if c != 0 {
            Err(Error::AddServiceFailed(c))
        } else {
            Ok(())
        },
        Ok(CallResult::Reply(Reply::Data(_))) => Ok(()),
        Ok(CallResult::Noop) => Err(Error::InvalidReply),
    }
}

/// The request for the name of the `n`-th service: the interface token and
/// `n`.
pub fn list_request(n: u32) -> (r: Parcel)
    ensures
        r@ == token_bytes() + le32(n),
{
    let mut p = Parcel::default();
    put_token(&mut p);
    let _ = p.put_u32(n);
    p
}

/// What one reply of a listing does.
pub enum ListStep {
    /// Appends a name and asks for the next one.
    Next(Seq<char>),
    /// Asks for the next one without a name.
    Skip,
    /// Ends the listing.
    Stop,
    /// Fails the listing.
    Fail(Error),
}

/// What the reply `r` to a listing request does.
pub open spec fn list_step_of(r: Result<CallView, Error>) -> ListStep {
    match r {
        Ok(CallView::Reply(ReplyView::Data(d))) => match str16_units_at(d) {
            None => ListStep::Fail(Error::DecodeError),
            Some((u, _)) => match utf16_decode(u) {
                None => ListStep::Fail(Error::DecodeError),
                Some(t) => ListStep::Next(t),
            },
        },
        Ok(CallView::Noop) => ListStep::Skip,
        _ => ListStep::Stop,
    }
}

/// Takes the reply to one listing request: appends the name it carries to
/// `names`. Returns whether the listing goes on.
pub fn list_step(names: &mut Vec<String>, r: Result<CallResult, Error>) -> (o: Result<bool, Error>)
    ensures
        match list_step_of(call_view(r)) {
            ListStep::Next(t) => o == Ok::<bool, Error>(true) && final(names)@.len() == old(names)@.len()
                + 1 && final(names)@.take(old(names)@.len() as int) == old(names)@ && final(names)@.last()@
                == t,
            ListStep::Skip => o == Ok::<bool, Error>(true) && final(names)@ == old(names)@,
            ListStep::Stop => o == Ok::<bool, Error>(false) && final(names)@ == old(names)@,
            ListStep::Fail(e) => o == Err::<bool, Error>(e) && final(names)@ == old(names)@,
        },
{
    match r {
        Ok(CallResult::Reply(Reply::Data(d))) => {
            let mut p = Parcel::from_buf(d.as_slice());
            match p.get_str16() {
                Ok(s) => {
                    names.push(s);
                    assert(names@.take(old(names)@.len() as int) =~= old(names)@);
                    Ok(true)
                },
                Err(e) => Err(e),
            }
        },
        Ok(CallResult::Noop) => Ok(true),
        _ => Ok(false),
    }
}

/// The names a listing collects from the replies `rs`, taken in order, or
/// its error.
pub open spec fn list_run(rs: Seq<Result<CallView, Error>>) -> Result<Seq<Seq<char>>, Error>
    decreases rs.len(),
{
    if rs.len() == 0 {
        Ok(Seq::empty())
    } else {
        match list_step_of(rs[0]) {
            ListStep::Next(t) => match list_run(rs.skip(1)) {
                Ok(l) => Ok(seq![t] + l),
                Err(e) => Err(e),
            },
            ListStep::Skip => list_run(rs.skip(1)),
            ListStep::Stop => Ok(Seq::empty()),
            ListStep::Fail(e) => Err(e),
        }
    }
}

/// The number of replies in `rs` that carry a name, before the first that
/// ends the listing.
pub open spec fn data_replies(rs: Seq<Result<CallView, Error>>) -> nat
    decreases rs.len(),
{
    if rs.len() == 0 {
        0
    } else {
        match list_step_of(rs[0]) {
            ListStep::Next(_) => 1 + data_replies(rs.skip(1)),
            ListStep::Skip => data_replies(rs.skip(1)),
            _ => 0,
        }
    }
}

/// A listing that succeeds holds one name for each reply that carried one
/// before the listing ended.
pub proof fn lemma_list_length(rs: Seq<Result<CallView, Error>>)
    ensures
        list_run(rs) is Ok ==> list_run(rs)->Ok_0.len() == data_replies(rs),
    decreases rs.len(),
{
    if rs.len() > 0 {
        lemma_list_length(rs.skip(1));
    }
}

/// The parcel of a service's data reply; any other reply is an error.
pub fn service_reply(r: Result<CallResult, Error>) -> (o: Result<Parcel, Error>)
    ensures
        match call_view(r) {
            Ok(CallView::Reply(ReplyView::Data(d))) => o is Ok && o->Ok_0@ == d,
            Ok(_) => o is Err && o->Err_0 == Error::InvalidReply,
            Err(e) => o is Err && o->Err_0 == e,
        },
{
    match r {
        Ok(CallResult::Reply(Reply::Data(d))) => Ok(Parcel::from_buf(d.as_slice())),
        Ok(_) => Err(Error::InvalidReply),
        Err(e) => Err(e),
    }
}

} // verus!
