//! The parcel format: an append-only encoder and a front-consuming decoder.
use crate::error::Error;
use crate::types::{flat_object_at, flat_object_bytes, FlatBinderObject, FLAT_OBJECT_SIZE, TYPE_BINDER, TYPE_HANDLE};
use crate::wire::{le32, push_all, push_u32, push_zeros, read_u32, u32_at, zeros};
use vstd::prelude::*;

verus! {

/// The strict-mode word that opens an interface token.
pub const STRICT_MODE_PENALTY_GATHER: i32 = 0x400000;

/// Flags of a local binder written into a parcel: priority mask and
/// "accepts file descriptors".
pub const BINDER_OBJECT_FLAGS: u32 = 0x17f;

/// The UTF-16 code units of a string.
pub uninterp spec fn utf16_units(s: Seq<char>) -> Seq<u16>;

/// The string that a sequence of UTF-16 code units encodes, if it is valid.
pub uninterp spec fn utf16_decode(u: Seq<u16>) -> Option<Seq<char>>;

/// Relies on `str::encode_utf16`: the code units of `s`, one or two per
/// character, which `String::from_utf16` decodes back to `s`.
#[verifier::external_body]
fn encode_utf16(s: &str) -> (r: Vec<u16>)
    ensures
        r@ == utf16_units(s@),
        s@.len() <= r@.len() <= 2 * s@.len(),
        utf16_decode(r@) == Some(s@),
{
    s.encode_utf16().collect()
}

/// Relies on `String::from_utf16`: the decoded string, or nothing when the
/// code units are not valid UTF-16.
#[verifier::external_body]
fn decode_utf16(u: &[u16]) -> (r: Option<String>)
    ensures
        match r {
            Some(t) => utf16_decode(u@) == Some(t@),
            None => utf16_decode(u@) is None,
        },
{
    String::from_utf16(u).ok()
}

/// The little-endian bytes of a 16-bit value.
pub open spec fn le16(x: u16) -> Seq<u8> {
    seq![(x % 256) as u8, (x / 256) as u8]
}

/// The little-endian bytes of a sequence of 16-bit values.
pub open spec fn units_le(u: Seq<u16>) -> Seq<u8>
    decreases u.len(),
{
    if u.len() == 0 {
        Seq::empty()
    } else {
        units_le(u.drop_last()) + le16(u.last())
    }
}

/// The 16-bit values stored little-endian in `b`, two bytes each.
pub open spec fn units_of(b: Seq<u8>) -> Seq<u16> {
    Seq::new(b.len() / 2, |i: int| (b[2 * i] + 256 * b[2 * i + 1]) as u16)
}

/// `b` followed by the zero bytes that bring its length to a multiple of 4.
pub open spec fn aligned(b: Seq<u8>) -> Seq<u8> {
    b + zeros(((4 - b.len() % 4) % 4) as nat)
}

/// `b` after a string of code units `u` is appended: its length, its code
/// units, a zero terminator, then padding.
pub open spec fn with_str16(b: Seq<u8>, u: Seq<u16>) -> Seq<u8> {
    aligned(b + le32(u.len() as u32) + units_le(u) + le16(0))
}

/// The string frame of code units `u` on its own.
pub open spec fn str16_frame(u: Seq<u16>) -> Seq<u8> {
    with_str16(Seq::empty(), u)
}

/// The string frame at the front of `b`: its code units and the number of
/// bytes it spans (length word, units and terminator, without padding).
pub open spec fn str16_units_at(b: Seq<u8>) -> Option<(Seq<u16>, int)> {
    if b.len() < 4 {
        None
    } else {
        let n = (u32_at(b, 0) as i32) as int;
        if n < 0 || b.len() < 4 + 2 * n + 2 {
            None
        } else {
            Some((units_of(b.subrange(4, 4 + 2 * n)), 4 + 2 * n + 2))
        }
    }
}

/// `b` after a flat local binder with the given pointer and cookie is appended.
pub open spec fn with_binder(b: Seq<u8>, binder: u64, cookie: u64) -> Seq<u8> {
    aligned(
        b + flat_object_bytes(
            FlatBinderObject {
                type_: TYPE_BINDER,
                flags: BINDER_OBJECT_FLAGS,
                handle_binder: binder,
                cookie,
            },
        ),
    )
}

proof fn lemma_units_le(u: Seq<u16>)
    ensures
        units_le(u).len() == 2 * u.len(),
        forall|i: int|
            0 <= i < u.len() ==> #[trigger] units_le(u)[2 * i] == (u[i] % 256) as u8 && units_le(
                u,
            )[2 * i + 1] == (u[i] / 256) as u8,
    decreases u.len(),
{
    if u.len() > 0 {
        lemma_units_le(u.drop_last());
        assert forall|i: int| 0 <= i < u.len() implies #[trigger] units_le(u)[2 * i] == (u[i]
            % 256) as u8 && units_le(u)[2 * i + 1] == (u[i] / 256) as u8 by {
            if i < u.len() - 1 {
                assert(u.drop_last()[i] == u[i]);
            }
        }
    }
}

proof fn lemma_units_of_units_le(u: Seq<u16>)
    ensures
        units_of(units_le(u)) == u,
{
    lemma_units_le(u);
    let b = units_le(u);
    assert forall|i: int| 0 <= i < u.len() implies #[trigger] units_of(b)[i] == u[i] by {
        assert(b[2 * i] == (u[i] % 256) as u8);
        assert(b[2 * i + 1] == (u[i] / 256) as u8);
    }
    assert(units_of(b) =~= u);
}

/// A string frame is a whole number of 4-byte words, and reading a frame
/// back, whatever follows it, gives the code units it was written from and
/// spans its length word, its units and its terminator.
pub proof fn lemma_str16_round_trip(u: Seq<u16>, rest: Seq<u8>)
    requires
        u.len() <= i32::MAX,
    ensures
        str16_frame(u).len() % 4 == 0,
        str16_units_at(str16_frame(u) + rest) == Some((u, 4 + 2 * u.len() as int + 2)),
{
    lemma_units_le(u);
    lemma_units_of_units_le(u);
    let n = u.len() as u32;
    let body = Seq::<u8>::empty() + le32(n) + units_le(u) + le16(0);
    crate::wire::lemma_le32_round_trip(n, units_le(u) + le16(0) + zeros(((4 - body.len() % 4) % 4) as nat) + rest);
    let f = str16_frame(u);
    let b = f + rest;
    assert(f =~= le32(n) + (units_le(u) + le16(0) + zeros(((4 - body.len() % 4) % 4) as nat)));
    assert(b =~= le32(n) + (units_le(u) + le16(0) + zeros(((4 - body.len() % 4) % 4) as nat) + rest));
    assert(u32_at(b, 0) == n);
    assert(b.subrange(4, 4 + 2 * u.len() as int) =~= units_le(u));
}

/// What a parcel can hold as a flat object.
#[derive(Debug, Clone, Copy, PartialEq, Eq, Structural)]
pub enum Object {
    Handle(u32),
    Binder(u64),
}

/// A byte buffer written at its end and read from its front.
#[derive(Debug)]
pub struct Parcel {
    data: Vec<u8>,
}

impl View for Parcel {
    type V = Seq<u8>;

    closed spec fn view(&self) -> Seq<u8> {
        self.data@
    }
}

impl Default for Parcel {
    fn default() -> (r: Parcel)
        ensures
            r@ == Seq::<u8>::empty(),
    {
        Parcel { data: Vec::new() }
    }
}

/// The bytes of `v` from index `k` on.
fn tail(v: &Vec<u8>, k: usize) -> (r: Vec<u8>)
    requires
        k <= v@.len(),
    ensures
        r@ == v@.skip(k as int),
{
    let mut r: Vec<u8> = Vec::new();
    let mut i: usize = k;
    while i < v.len()
        invariant
            k <= i <= v@.len(),
            r@ == v@.subrange(k as int, i as int),
        decreases v@.len() - i,
    {
        r.push(v[i]);
        i = i + 1;
        assert(v@.subrange(k as int, i as int) =~= v@.subrange(k as int, i - 1).push(v@[i - 1]));
    }
    assert(v@.subrange(k as int, v@.len() as int) =~= v@.skip(k as int));
    r
}

impl Parcel {
    /// A parcel that holds a copy of `d`.
    pub fn from_buf(d: &[u8]) -> (r: Parcel)
        ensures
            r@ == d@,
    {
        Parcel { data: vstd::slice::slice_to_vec(d) }
    }

    /// The bytes held.
    pub fn as_bytes(&self) -> (r: &[u8])
        ensures
            r@ == self@,
    {
        self.data.as_slice()
    }

    /// The number of bytes held.
    pub fn len(&self) -> (r: usize)
        ensures
            r == self@.len(),
    {
        self.data.len()
    }

    /// Pads with zeros to a multiple of 4 bytes.
    fn align(&mut self)
        ensures
            final(self)@ == aligned(old(self)@),
    {
        let pad: usize = (4 - self.data.len() % 4) % 4;
        push_zeros(&mut self.data, pad);
    }

    /// Appends the strict-mode word and the interface name.
    pub fn put_interface_token(&mut self, interface: &str) -> (r: Result<(), Error>)
        requires
            2 * interface@.len() <= i32::MAX,
        ensures
            r is Ok,
            final(self)@ == with_str16(
                old(self)@ + le32(STRICT_MODE_PENALTY_GATHER as u32),
                utf16_units(interface@),
            ),
    {
        self.put_i32(STRICT_MODE_PENALTY_GATHER)?;
        self.put_str16(interface)
    }

    pub fn put_u8(&mut self, n: u8) -> (r: Result<(), Error>)
        ensures
            r is Ok,
            final(self)@ == old(self)@.push(n),
    {
        self.data.push(n);
        Ok(())
    }

    pub fn put_i16(&mut self, n: i16) -> (r: Result<(), Error>)
        ensures
            r is Ok,
            final(self)@ == old(self)@ + le16(n as u16),
    {
        self.put_u16(n as u16)
    }

    pub fn put_u16(&mut self, n: u16) -> (r: Result<(), Error>)
        ensures
            r is Ok,
            final(self)@ == old(self)@ + le16(n),
    {
        self.data.push((n % 256) as u8);
        self.data.push((n / 256) as u8);
        assert(self.data@ =~= old(self)@ + le16(n));
        Ok(())
    }

    pub fn put_i32(&mut self, n: i32) -> (r: Result<(), Error>)
        ensures
            r is Ok,
            final(self)@ == old(self)@ + le32(n as u32),
    {
        push_u32(&mut self.data, n as u32);
        Ok(())
    }

    pub fn put_u32(&mut self, n: u32) -> (r: Result<(), Error>)
        ensures
            r is Ok,
            final(self)@ == old(self)@ + le32(n),
    {
        push_u32(&mut self.data, n);
        Ok(())
    }

    /// Appends a string: its length in code units, its UTF-16 code units, a
    /// zero terminator, then zeros up to a multiple of 4 bytes.
    pub fn put_str16(&mut self, s: &str) -> (r: Result<(), Error>)
        requires
            2 * s@.len() <= i32::MAX,
        ensures
            r is Ok,
            final(self)@ == with_str16(old(self)@, utf16_units(s@)),
            utf16_decode(utf16_units(s@)) == Some(s@),
            s@.len() <= utf16_units(s@).len() <= 2 * s@.len(),
    {
        let units = encode_utf16(s);
        let n: i32 = units.len() as i32;
        self.put_i32(n)?;
        let ghost start = self@;
        let mut i: usize = 0;
        while i < units.len()
            invariant
                i <= units@.len(),
                self@ == start + units_le(units@.subrange(0, i as int)),
            decreases units@.len() - i,
        {
            self.put_u16(units[i])?;
            i = i + 1;
            assert(units@.subrange(0, i as int).drop_last() =~= units@.subrange(0, i - 1));
        }
        assert(units@.subrange(0, units@.len() as int) =~= units@);
        self.put_u16(0)?;
        self.align();
        Ok(())
    }

    /// Appends a flat local binder object with the given pointer and cookie,
    /// then zeros up to a multiple of 4 bytes.
    pub fn put_binder(&mut self, binder: u64, cookie: u64) -> (r: Result<(), Error>)
        ensures
            r is Ok,
            final(self)@ == with_binder(old(self)@, binder, cookie),
    {
        let o = FlatBinderObject {
            type_: TYPE_BINDER,
            flags: BINDER_OBJECT_FLAGS,
            handle_binder: binder,
            cookie,
        };
        let b = o.to_bytes();
        push_all(&mut self.data, &b);
        self.align();
        Ok(())
    }

    /// Takes a 32-bit integer from the front.
    pub fn get_i32(&mut self) -> (r: Result<i32, Error>)
        ensures
            old(self)@.len() < 4 ==> r == Err::<i32, Error>(Error::DecodeError) && final(self)@
                == old(self)@,
            old(self)@.len() >= 4 ==> r == Ok::<i32, Error>(u32_at(old(self)@, 0) as i32)
                && final(self)@ == old(self)@.skip(4),
    {
        if self.data.len() < 4 {
            return Err(Error::DecodeError);
        }
        let v = read_u32(self.data.as_slice(), 0);
        self.data = tail(&self.data, 4);
        Ok(v as i32)
    }

    /// Takes a string from the front: its length, its code units and its
    /// terminator. A parcel that does not hold a whole valid string there
    /// gives `DecodeError` and stays as it was.
    pub fn get_str16(&mut self) -> (r: Result<String, Error>)
        ensures
            match str16_units_at(old(self)@) {
                None => r == Err::<String, Error>(Error::DecodeError) && final(self)@ == old(self)@,
                Some((u, k)) => match utf16_decode(u) {
                    None => r == Err::<String, Error>(Error::DecodeError) && final(self)@
                        == old(self)@,
                    Some(t) => r is Ok && r->Ok_0@ == t && final(self)@ == old(self)@.skip(k),
                },
            },
    {
        if self.data.len() < 4 {
            return Err(Error::DecodeError);
        }
        let n: i32 = read_u32(self.data.as_slice(), 0) as i32;
        if n < 0 {
            return Err(Error::DecodeError);
        }
        let count: usize = n as usize;
        if (self.data.len() - 4) / 2 < count + 1 {
            return Err(Error::DecodeError);
        }
        let len = self.data.len();
        let mut units: Vec<u16> = Vec::new();
        let mut i: usize = 0;
        while i < count
            invariant
                i <= count,
                count == n,
                len == self.data@.len(),
                4 + 2 * count + 2 <= len,
                units@ == units_of(self.data@.subrange(4, 4 + 2 * i)),
            decreases count - i,
        {
            let lo = self.data[4 + 2 * i];
            let hi = self.data[4 + 2 * i + 1];
            units.push((lo as u16) + 256 * (hi as u16));
            i = i + 1;
            assert(units@ =~= units_of(self.data@.subrange(4, 4 + 2 * i)));
        }
        match decode_utf16(units.as_slice()) {
            None => Err(Error::DecodeError),
            Some(s) => {
                self.data = tail(&self.data, 4 + 2 * count + 2);
                Ok(s)
            },
        }
    }

    /// Takes a flat object from the front; only a remote handle is supported.
    /// On an error the parcel stays as it was.
    pub fn get_obj(&mut self) -> (r: Result<Object, Error>)
        ensures
            old(self)@.len() < FLAT_OBJECT_SIZE ==> r == Err::<Object, Error>(Error::DecodeError)
                && final(self)@ == old(self)@,
            old(self)@.len() >= FLAT_OBJECT_SIZE ==> {
                let o = flat_object_at(old(self)@, 0);
                if o.type_ == TYPE_HANDLE {
                    r == Ok::<Object, Error>(Object::Handle(o.handle_binder as u32)) && final(self)@
                        == old(self)@.skip(FLAT_OBJECT_SIZE as int)
                } else {
                    r == Err::<Object, Error>(Error::UnsupportedObject) && final(self)@ == old(self)@
                }
            },
    {
        if self.data.len() < FLAT_OBJECT_SIZE {
            return Err(Error::DecodeError);
        }
        let o = FlatBinderObject::read_from(self.data.as_slice(), 0);
        if o.type_ == TYPE_HANDLE {
            self.data = tail(&self.data, FLAT_OBJECT_SIZE);
            Ok(Object::Handle(o.handle_binder as u32))
        } else {
            Err(Error::UnsupportedObject)
        }
    }
}

} // verus!
