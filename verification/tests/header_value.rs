use bytes::Bytes;
use httpbis::solicit::header::value::validate;
use httpbis::solicit::header::value::HeaderValue;
use httpbis::solicit::header::HeaderError;
use std::collections::hash_map::DefaultHasher;
use std::hash::Hash;
use std::hash::Hasher;

fn hash_of(value: &HeaderValue) -> u64 {
    let mut hasher = DefaultHasher::new();
    value.hash(&mut hasher);
    hasher.finish()
}

#[test]
fn line_feed_is_an_incorrect_char() {
    assert_eq!(validate(&[0x0a]), Err(HeaderError::IncorrectCharInValue));
    match HeaderValue::from_bytes(Bytes::from(vec![0x0a])) {
        Err((e, _)) => assert_eq!(e, HeaderError::IncorrectCharInValue),
        Ok(_) => panic!("a line feed was accepted"),
    }
}

#[test]
fn high_bit_is_not_ascii() {
    assert_eq!(validate(&[0x80]), Err(HeaderError::HeaderValueNotAscii));
    match HeaderValue::from_bytes(Bytes::from(vec![0x80])) {
        Err((e, _)) => assert_eq!(e, HeaderError::HeaderValueNotAscii),
        Ok(_) => panic!("an octet above 0x7f was accepted"),
    }
}

#[test]
fn plain_text_is_accepted() {
    assert_eq!(validate(b"Hi"), Ok(()));
    let value = HeaderValue::from_bytes(Bytes::from_static(b"Hi")).unwrap();
    assert_eq!(value.as_slice(), b"Hi");
}

#[test]
fn empty_value_is_accepted() {
    assert_eq!(validate(b""), Ok(()));
    let value = HeaderValue::from_bytes(Bytes::new()).unwrap();
    assert_eq!(value.as_slice(), b"");
    assert_eq!(value.as_str(), "");
}

#[test]
fn every_single_octet() {
    for b in 0u8..=255 {
        let expected = if b == 0x09 || (0x20 <= b && b <= 0x7e) {
            Ok(())
        } else if b >= 0x80 {
            Err(HeaderError::HeaderValueNotAscii)
        } else {
            Err(HeaderError::IncorrectCharInValue)
        };
        assert_eq!(validate(&[b]), expected);
        let made = HeaderValue::from_bytes(Bytes::from(vec![b]));
        assert_eq!(made.is_ok(), expected.is_ok());
        assert_eq!(made.err().map(|(e, _)| e), expected.err());
    }
}

#[test]
fn edges_of_the_allowed_ranges() {
    assert_eq!(validate(&[0x08]), Err(HeaderError::IncorrectCharInValue));
    assert_eq!(validate(&[0x09]), Ok(()));
    assert_eq!(validate(&[0x1f]), Err(HeaderError::IncorrectCharInValue));
    assert_eq!(validate(&[0x20]), Ok(()));
    assert_eq!(validate(&[0x7e]), Ok(()));
    assert_eq!(validate(&[0x7f]), Err(HeaderError::IncorrectCharInValue));
    assert_eq!(validate(&[0x00]), Err(HeaderError::IncorrectCharInValue));
    assert_eq!(validate(&[0xff]), Err(HeaderError::HeaderValueNotAscii));
}

#[test]
fn first_offending_octet_decides() {
    assert_eq!(validate(&[0x0a, 0x80]), Err(HeaderError::IncorrectCharInValue));
    assert_eq!(validate(&[0x80, 0x0a]), Err(HeaderError::HeaderValueNotAscii));
    assert_eq!(validate(b"ok\x7f\xc3\xa9"), Err(HeaderError::IncorrectCharInValue));
    assert_eq!(validate(b"caf\xc3\xa9\r\n"), Err(HeaderError::HeaderValueNotAscii));
}

#[test]
fn offending_octet_at_the_end_is_found() {
    assert_eq!(validate(b"text/html\r"), Err(HeaderError::IncorrectCharInValue));
    assert_eq!(validate(b"text/html\xff"), Err(HeaderError::HeaderValueNotAscii));
    assert_eq!(validate(b"text/html; charset=utf-8"), Ok(()));
}

#[test]
fn validated_bytes_round_trip() {
    let input = b"gzip, deflate\t;q=0.5 ~".to_vec();
    let value = HeaderValue::from_bytes(Bytes::from(input.clone())).unwrap();
    assert_eq!(value.as_slice(), &input[..]);
    let back = value.into_inner();
    assert_eq!(&back[..], &input[..]);
    assert_eq!(back, Bytes::from(input));
}

#[test]
fn accepted_buffer_is_not_copied() {
    let input = Bytes::from(b"no-cache".to_vec());
    let at = input.as_ptr();
    let value = HeaderValue::from_bytes(input).unwrap();
    assert_eq!(value.as_slice().as_ptr(), at);
    assert_eq!(value.into_inner().as_ptr(), at);
}

#[test]
fn refused_buffer_is_handed_back() {
    let input = Bytes::from(b"bad\nvalue".to_vec());
    let at = input.as_ptr();
    match HeaderValue::from_bytes(input) {
        Err((e, back)) => {
            assert_eq!(e, HeaderError::IncorrectCharInValue);
            assert_eq!(&back[..], b"bad\nvalue");
            assert_eq!(back.as_ptr(), at);
        }
        Ok(_) => panic!("a line feed was accepted"),
    }
}

#[test]
fn unchecked_constructor_keeps_the_bytes() {
    let value = HeaderValue::from_bytes_unchecked(Bytes::from_static(b"application/json"));
    assert_eq!(value.as_slice(), b"application/json");
    assert_eq!(value.as_str(), "application/json");
    assert_eq!(value.into_inner(), Bytes::from_static(b"application/json"));
}

#[test]
fn text_view_has_one_char_per_octet() {
    let value = HeaderValue::from_bytes(Bytes::from_static(b"a\tb ~!")).unwrap();
    assert_eq!(value.as_str(), "a\tb ~!");
    assert_eq!(value.as_str().len(), value.as_slice().len());
    assert_eq!(value.as_str().as_bytes(), value.as_slice());
}

#[test]
fn equality_is_over_the_octets() {
    let a = HeaderValue::from_bytes(Bytes::from(b"keep-alive".to_vec())).unwrap();
    let b = HeaderValue::from_bytes(Bytes::from_static(b"keep-alive")).unwrap();
    let c = HeaderValue::from_bytes(Bytes::from_static(b"close")).unwrap();
    let d = HeaderValue::from_bytes(Bytes::from_static(b"keep-alivE")).unwrap();
    assert!(a == b);
    assert!(b == a);
    assert!(a != c);
    assert!(a != d);
    assert!(a == a);
}

#[test]
fn hashing_is_over_the_octets() {
    let a = HeaderValue::from_bytes(Bytes::from(b"keep-alive".to_vec())).unwrap();
    let b = HeaderValue::from_bytes(Bytes::from_static(b"keep-alive")).unwrap();
    assert_eq!(hash_of(&a), hash_of(&b));
    let mut plain = DefaultHasher::new();
    Bytes::from_static(b"keep-alive").hash(&mut plain);
    assert_eq!(hash_of(&a), plain.finish());
}

#[test]
fn clone_holds_the_same_octets() {
    let a = HeaderValue::from_bytes(Bytes::from(b"chunked".to_vec())).unwrap();
    let b = a.clone();
    assert!(a == b);
    assert_eq!(a.as_slice(), b"chunked");
    assert_eq!(b.as_slice(), b"chunked");
    drop(a);
    assert_eq!(b.into_inner(), Bytes::from_static(b"chunked"));
}

#[test]
fn header_errors_compare_by_kind() {
    assert_eq!(HeaderError::HeaderValueNotAscii, HeaderError::HeaderValueNotAscii);
    assert_ne!(HeaderError::HeaderValueNotAscii, HeaderError::IncorrectCharInValue);
}
