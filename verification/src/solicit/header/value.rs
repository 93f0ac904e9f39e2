//! Header field values.
//!
//! A value is accepted where every octet is a horizontal tab or lies in the
//! range from space to tilde. RFC 7230 also lets a field value carry
//! `obs-text`, the octets 0x80 to 0xFF, and asks recipients to treat them as
//! opaque data. This crate deliberately does not: a value with such an octet
//! is refused, so that everything downstream may rely on plain printable
//! ASCII.

use crate::octets::as_octets;
use crate::octets::buffer_octets;
use crate::octets::same_octets;
use crate::octets::share;
use crate::octets::utf8_text;
use crate::solicit::header::HeaderError;
use bytes::Bytes;
use vstd::pervasive::unreached;
use vstd::prelude::*;
use vstd::utf8::decode_utf8;
use vstd::utf8::encode_utf8;
use vstd::utf8::encode_utf8_decode_utf8;
use vstd::utf8::encode_utf8_valid_utf8;
use vstd::utf8::is_ascii_chars;
use vstd::utf8::is_ascii_chars_encode_utf8;
use vstd::utf8::valid_utf8;

verus! {

/// The horizontal tab, the one control character that a value may hold.
pub const HTAB: u8 = 0x09;

/// The space, the lowest of the printable octets.
pub const SPACE: u8 = 0x20;

/// The tilde, the highest of the printable octets.
pub const TILDE: u8 = 0x7e;

/// The lowest octet that is not ASCII.
pub const FIRST_NON_ASCII: u8 = 0x80;

/// Whether `octet` may stand in a header field value: a horizontal tab, a
/// space, or a visible ASCII character.
pub open spec fn is_value_octet(octet: u8) -> bool {
    octet == HTAB || SPACE <= octet <= TILDE
}

/// Whether every octet of `octets` may stand in a header field value.
pub open spec fn is_field_value(octets: Seq<u8>) -> bool {
    forall|i: int| 0 <= i < octets.len() ==> is_value_octet(#[trigger] octets[i])
}

/// The reason for which an octet that may not stand in a field value is
/// refused: an octet with its high bit set is not ASCII, any other one is an
/// ASCII character that is not allowed.
pub open spec fn octet_error(octet: u8) -> HeaderError {
    if octet >= FIRST_NON_ASCII {
        HeaderError::HeaderValueNotAscii
    } else {
        HeaderError::IncorrectCharInValue
    }
}

/// Whether position `at` holds the first octet of `octets` that may not stand
/// in a field value.
pub open spec fn is_first_refused(octets: Seq<u8>, at: int) -> bool {
    &&& 0 <= at < octets.len()
    &&& !is_value_octet(octets[at])
    &&& is_field_value(octets.take(at))
}

/// The verdict on `octets` read from the front: `None` where all of them are
/// allowed, else the reason for which the first offending one is refused.
pub open spec fn field_value_error(octets: Seq<u8>) -> Option<HeaderError>
    decreases octets.len(),
{
    if octets.len() == 0 {
        None
    } else if !is_value_octet(octets.first()) {
        Some(octet_error(octets.first()))
    } else {
        field_value_error(octets.drop_first())
    }
}

/// The verdict is `None` exactly on the sequences whose octets are all
/// allowed.
pub proof fn accepted_iff_every_octet_allowed(octets: Seq<u8>)
    ensures
        field_value_error(octets) is None <==> is_field_value(octets),
    decreases octets.len(),
{
    if octets.len() > 0 {
        let rest = octets.drop_first();
        accepted_iff_every_octet_allowed(rest);
        if is_value_octet(octets.first()) {
            if is_field_value(rest) {
                assert forall|i: int| 0 <= i < octets.len() implies is_value_octet(
                    #[trigger] octets[i],
                ) by {
                    if i > 0 {
                        assert(octets[i] == rest[i - 1]);
                    }
                }
            } else {
                let i = choose|i: int| 0 <= i < rest.len() && !is_value_octet(#[trigger] rest[i]);
                assert(octets[i + 1] == rest[i]);
            }
        } else {
            assert(!is_value_octet(octets[0]));
        }
    }
}

/// The first octet that is not allowed decides the verdict, whatever follows
/// it.
pub proof fn first_refused_octet_decides(octets: Seq<u8>, at: int)
    requires
        is_first_refused(octets, at),
    ensures
        field_value_error(octets) == Some(octet_error(octets[at])),
    decreases octets.len(),
{
    if at > 0 {
        let rest = octets.drop_first();
        assert(octets.take(at)[0] == octets[0]);
        assert(rest.take(at - 1) =~= octets.take(at).drop_first());
        assert forall|i: int| 0 <= i < at - 1 implies is_value_octet(
            #[trigger] rest.take(at - 1)[i],
        ) by {
            assert(rest.take(at - 1)[i] == octets.take(at)[i + 1]);
        }
        first_refused_octet_decides(rest, at - 1);
    }
}

/// The octets of `octets` read as characters, one for one.
pub open spec fn octets_as_text(octets: Seq<u8>) -> Seq<char> {
    octets.map_values(|octet: u8| octet as char)
}

/// Octets that are all ASCII are valid UTF-8, and the text that they encode
/// has one character for each of them.
pub proof fn ascii_octets_are_text(octets: Seq<u8>)
    requires
        forall|i: int| 0 <= i < octets.len() ==> #[trigger] octets[i] < FIRST_NON_ASCII,
    ensures
        is_ascii_chars(octets_as_text(octets)),
        encode_utf8(octets_as_text(octets)) == octets,
        decode_utf8(octets) == octets_as_text(octets),
        valid_utf8(octets),
{
    let text = octets_as_text(octets);
    assert forall|i: int| 0 <= i < text.len() implies '\0' <= #[trigger] text[i] <= '\u{7f}' by {
        assert(octets[i] < FIRST_NON_ASCII);
    }
    is_ascii_chars_encode_utf8(text);
    assert(encode_utf8(text) =~= octets);
    encode_utf8_valid_utf8(text);
    encode_utf8_decode_utf8(text);
}

/// Checks that `octets` can be a header field value.
///
/// The octets are read in order and the first one that is not allowed decides
/// the error: [`HeaderError::HeaderValueNotAscii`] for an octet with its high
/// bit set, [`HeaderError::IncorrectCharInValue`] for a control character
/// other than the horizontal tab.
pub fn validate(octets: &[u8]) -> (r: Result<(), HeaderError>)
    ensures
        r is Ok <==> is_field_value(octets@),
        r is Ok <==> field_value_error(octets@) is None,
        r matches Err(e) ==> field_value_error(octets@) == Some(e),
        r matches Err(e) ==> exists|at: int|
            is_first_refused(octets@, at) && e == octet_error(#[trigger] octets@[at]),
{
    let mut i: usize = 0;
    assert(octets@.take(0) =~= Seq::<u8>::empty());
    while i < octets.len()
        invariant
            i <= octets.len(),
            is_field_value(octets@.take(i as int)),
        decreases octets.len() - i,
    {
        let b = octets[i];
        if b >= FIRST_NON_ASCII {
            proof {
                first_refused_octet_decides(octets@, i as int);
                accepted_iff_every_octet_allowed(octets@);
            }
            return Err(HeaderError::HeaderValueNotAscii);
        }
        if (b < SPACE || b > TILDE) && b != HTAB {
            proof {
                first_refused_octet_decides(octets@, i as int);
                accepted_iff_every_octet_allowed(octets@);
            }
            return Err(HeaderError::IncorrectCharInValue);
        }
        proof {
            assert forall|j: int| 0 <= j < i + 1 implies is_value_octet(
                #[trigger] octets@.take(i + 1)[j],
            ) by {
                if j < i {
                    assert(octets@.take(i + 1)[j] == octets@.take(i as int)[j]);
                }
            }
        }
        i += 1;
    }
    proof {
        assert(octets@.take(i as int) =~= octets@);
        accepted_iff_every_octet_allowed(octets@);
    }
    Ok(())
}

/// A header field value: a buffer of which every octet has been checked.
#[derive(Debug, Eq, Hash)]
pub struct HeaderValue(Bytes);

impl View for HeaderValue {
    type V = Seq<u8>;

    /// The octets of the value.
    open spec fn view(&self) -> Seq<u8> {
        buffer_octets(self.buffer())
    }
}

impl HeaderValue {
    #[verifier::type_invariant]
    spec fn every_octet_allowed(self) -> bool {
        is_field_value(buffer_octets(self.0))
    }

    /// The buffer that the value owns.
    pub closed spec fn buffer(self) -> Bytes {
        self.0
    }

    /// What validation makes of `bs`: the value that owns it, or the verdict
    /// of [`field_value_error`] beside the buffer itself.
    pub closed spec fn validated(bs: Bytes) -> Result<HeaderValue, (HeaderError, Bytes)> {
        match field_value_error(buffer_octets(bs)) {
            None => Ok(HeaderValue(bs)),
            Some(e) => Err((e, bs)),
        }
    }

    /// Validates `bs` and makes a header value of it.
    ///
    /// Nothing is copied: an accepted buffer becomes the value, and a refused
    /// one is handed back beside the error of [`validate`].
    pub fn from_bytes(bs: Bytes) -> (r: Result<HeaderValue, (HeaderError, Bytes)>)
        ensures
            r == HeaderValue::validated(bs),
            r is Ok <==> is_field_value(buffer_octets(bs)),
            match r {
                Ok(value) => value.buffer() == bs && value@ == buffer_octets(bs),
                Err((e, refused)) => refused == bs && field_value_error(buffer_octets(bs))
                    == Some(e),
            },
    {
        match validate(as_octets(&bs)) {
            Ok(()) => Ok(HeaderValue::from_bytes_unchecked(bs)),
            Err(e) => Err((e, bs)),
        }
    }

    /// Makes a header value of octets that the caller knows to be allowed,
    /// without looking at them.
    ///
    /// This is for data fixed when the program is written. Data that comes
    /// off the wire goes through [`HeaderValue::from_bytes`]. Verus holds
    /// every verified caller to the precondition. A caller that was not
    /// verified and breaks it corrupts no memory, but gets a value of which
    /// none of the promises below holds.
    pub fn from_bytes_unchecked(bytes: Bytes) -> (value: HeaderValue)
        requires
            is_field_value(buffer_octets(bytes)),
        ensures
            value.buffer() == bytes,
            value@ == buffer_octets(bytes),
    {
        HeaderValue(bytes)
    }

    /// Gives up the value for the buffer that it owns.
    pub fn into_inner(self) -> (bytes: Bytes)
        ensures
            bytes == self.buffer(),
            buffer_octets(bytes) == self@,
            is_field_value(buffer_octets(bytes)),
    {
        proof {
            use_type_invariant(&self);
        }
        self.0
    }

    /// The octets of the value.
    pub fn as_slice(&self) -> (octets: &[u8])
        ensures
            octets@ == self@,
            is_field_value(octets@),
    {
        proof {
            use_type_invariant(self);
        }
        as_octets(&self.0)
    }

    /// The value as text. Every octet of a value is printable ASCII or a tab,
    /// so the octets are valid UTF-8 with one character each.
    pub fn as_str(&self) -> (text: &str)
        ensures
            text@ == octets_as_text(self@),
            text.is_ascii(),
    {
        let octets = as_octets(&self.0);
        proof {
            use_type_invariant(self);
            assert forall|i: int| 0 <= i < octets@.len() implies #[trigger] octets@[i]
                < FIRST_NON_ASCII by {
                assert(is_value_octet(octets@[i]));
            }
            ascii_octets_are_text(octets@);
        }
        match utf8_text(octets) {
            Ok(text) => {
                proof {
                    encode_utf8_decode_utf8(text@);
                }
                text
            },
            Err(_) => unreached(),
        }
    }
}

impl Clone for HeaderValue {
    /// A second handle on the same octets.
    fn clone(&self) -> (copy: HeaderValue)
        ensures
            copy@ == self@,
    {
        proof {
            use_type_invariant(self);
        }
        HeaderValue(share(&self.0))
    }
}

impl PartialEq for HeaderValue {
    /// Two values are equal where they hold the same octets.
    fn eq(&self, other: &HeaderValue) -> (equal: bool) {
        same_octets(&self.0, &other.0)
    }
}

impl vstd::std_specs::cmp::PartialEqSpecImpl for HeaderValue {
    open spec fn obeys_eq_spec() -> bool {
        true
    }

    open spec fn eq_spec(&self, other: &HeaderValue) -> bool {
        self@ == other@
    }
}

/// Validation accepts a buffer exactly where all of its octets are allowed,
/// and refuses it with the error of the first octet that is not, handing the
/// buffer back.
pub proof fn validation_follows_the_octets(input: Bytes)
    ensures
        HeaderValue::validated(input) is Ok <==> is_field_value(buffer_octets(input)),
        HeaderValue::validated(input) matches Err((e, refused)) ==> refused == input
            && field_value_error(buffer_octets(input)) == Some(e),
{
    accepted_iff_every_octet_allowed(buffer_octets(input));
}

/// Round trip: a value that validation has made of a buffer owns that very
/// buffer, so the octets that it shows and the buffer that it gives back are
/// those that went in.
pub proof fn validated_bytes_round_trip(input: Bytes)
    requires
        is_field_value(buffer_octets(input)),
    ensures
        HeaderValue::validated(input) matches Ok(value) && value.buffer() == input && value@
            == buffer_octets(input),
{
    accepted_iff_every_octet_allowed(buffer_octets(input));
}

} // verus!
