use android_binder::error::Error;
use android_binder::parcel::{Object, Parcel};
use android_binder::types::{FlatBinderObject, TYPE_BINDER, TYPE_HANDLE};

fn str16_of(s: &str) -> Parcel {
    let mut p = Parcel::default();
    p.put_str16(s).unwrap();
    p
}

#[test]
fn str16_layout_of_ascii_name() {
    let p = str16_of("activity");
    let mut expected = vec![8, 0, 0, 0];
    for b in "activity".bytes() {
        expected.push(b);
        expected.push(0);
    }
    expected.extend_from_slice(&[0, 0, 0, 0]);
    assert_eq!(p.as_bytes(), &expected[..]);
    assert_eq!(p.len() % 4, 0);
}

#[test]
fn str16_of_empty_string() {
    let p = str16_of("");
    assert_eq!(p.as_bytes(), &[0, 0, 0, 0, 0, 0, 0, 0][..]);
}

#[test]
fn str16_round_trip_ascii() {
    let p = str16_of("activity");
    let mut q = Parcel::from_buf(p.as_bytes());
    assert_eq!(q.get_str16().unwrap(), "activity");
    // the padding after the terminator stays
    assert_eq!(q.len(), 2);
}

#[test]
fn str16_round_trip_non_ascii() {
    let s = "h\u{e9}\u{20ac}\u{1f600}";
    let p = str16_of(s);
    // 5 code units: the emoji takes two
    assert_eq!(&p.as_bytes()[..4], &[5, 0, 0, 0]);
    assert_eq!(p.len() % 4, 0);
    let mut q = Parcel::from_buf(p.as_bytes());
    assert_eq!(q.get_str16().unwrap(), s);
}

#[test]
fn str16_lengths_always_word_aligned() {
    for s in ["", "a", "ab", "abc", "abcd", "abcde"] {
        let p = str16_of(s);
        assert_eq!(p.len() % 4, 0, "{}", s);
        let mut q = Parcel::from_buf(p.as_bytes());
        assert_eq!(q.get_str16().unwrap(), s);
    }
}

#[test]
fn primitives_are_little_endian() {
    let mut p = Parcel::default();
    p.put_u8(0xAB).unwrap();
    p.put_i16(-2).unwrap();
    p.put_u16(0x1234).unwrap();
    p.put_i32(-1).unwrap();
    p.put_u32(0x01020304).unwrap();
    assert_eq!(
        p.as_bytes(),
        &[0xAB, 0xFE, 0xFF, 0x34, 0x12, 0xFF, 0xFF, 0xFF, 0xFF, 4, 3, 2, 1][..]
    );
}

#[test]
fn interface_token_layout() {
    let mut p = Parcel::default();
    p.put_interface_token("ab").unwrap();
    assert_eq!(
        p.as_bytes(),
        &[0, 0, 0x40, 0, 2, 0, 0, 0, b'a', 0, b'b', 0, 0, 0, 0, 0][..]
    );
}

#[test]
fn binder_object_layout() {
    let mut p = Parcel::default();
    p.put_binder(0xABABABAB, 0xCACACACA).unwrap();
    assert_eq!(
        p.as_bytes(),
        &[
            0x85, 0x2a, 0x62, 0x73, 0x7f, 0x01, 0, 0, 0xAB, 0xAB, 0xAB, 0xAB, 0, 0, 0, 0, 0xCA,
            0xCA, 0xCA, 0xCA, 0, 0, 0, 0
        ][..]
    );
}

#[test]
fn get_i32_consumes_four_bytes() {
    let mut p = Parcel::from_buf(&[0xFE, 0xFF, 0xFF, 0xFF, 9]);
    assert_eq!(p.get_i32(), Ok(-2));
    assert_eq!(p.as_bytes(), &[9][..]);
    assert_eq!(p.get_i32(), Err(Error::DecodeError));
    assert_eq!(p.as_bytes(), &[9][..]);
}

#[test]
fn get_str16_rejects_negative_length() {
    let mut p = Parcel::from_buf(&[0xFF, 0xFF, 0xFF, 0xFF, 0, 0, 0, 0]);
    assert_eq!(p.get_str16(), Err(Error::DecodeError));
    assert_eq!(p.len(), 8);
}

#[test]
fn get_str16_rejects_short_buffer() {
    let mut p = Parcel::from_buf(&[3, 0, 0, 0, b'a', 0, b'b', 0]);
    assert_eq!(p.get_str16(), Err(Error::DecodeError));
    assert_eq!(p.len(), 8);
}

#[test]
fn get_str16_rejects_lone_surrogate() {
    let mut p = Parcel::from_buf(&[1, 0, 0, 0, 0x00, 0xD8, 0, 0]);
    assert_eq!(p.get_str16(), Err(Error::DecodeError));
}

#[test]
fn get_obj_reads_handle() {
    let o = FlatBinderObject { type_: TYPE_HANDLE, flags: 0, handle_binder: 42, cookie: 0 };
    let mut p = Parcel::from_buf(&o.to_bytes());
    assert_eq!(p.get_obj(), Ok(Object::Handle(42)));
    assert_eq!(p.len(), 0);
}

#[test]
fn get_obj_rejects_local_binder() {
    let o = FlatBinderObject { type_: TYPE_BINDER, flags: 0, handle_binder: 7, cookie: 0 };
    let mut p = Parcel::from_buf(&o.to_bytes());
    assert_eq!(p.get_obj(), Err(Error::UnsupportedObject));
    assert_eq!(p.len(), 24);
}

#[test]
fn get_obj_rejects_short_buffer() {
    let mut p = Parcel::from_buf(&[0u8; 23]);
    assert_eq!(p.get_obj(), Err(Error::DecodeError));
}
