//! The trusted layer: what this crate believes of the code that it calls but
//! does not define.
//!
//! Verus reads none of the bodies below. Each contract restates, over plain
//! sequences of octets, what the called function documents, and everything
//! else in the crate is proved from these contracts alone.

use bytes::Bytes;
use core::str::Utf8Error;
use vstd::prelude::*;
use vstd::string::StringSliceAdditionalSpecFns;
use vstd::utf8::valid_utf8;

verus! {

/// [`bytes::Bytes`]: an immutable chunk of contiguous memory behind a cheaply
/// cloneable handle. Verus sees nothing inside it.
#[verifier::external_type_specification]
#[verifier::external_body]
pub struct ExBytes(bytes::Bytes);

/// [`core::str::Utf8Error`], which says why a slice is not UTF-8. It is only
/// ever carried, never read.
#[verifier::external_type_specification]
#[verifier::external_body]
pub struct ExUtf8Error(core::str::Utf8Error);

/// The octets that a buffer holds, in order: the slice that a `Bytes`
/// dereferences to.
pub uninterp spec fn buffer_octets(buffer: Bytes) -> Seq<u8>;

/// `<Bytes as AsRef<[u8]>>::as_ref`. It borrows the contents of the buffer as
/// a slice, which is by definition what [`buffer_octets`] names.
#[verifier::external_body]
pub(crate) fn as_octets(buffer: &Bytes) -> (octets: &[u8])
    ensures
        octets@ == buffer_octets(*buffer),
{
    buffer.as_ref()
}

/// `<Bytes as PartialEq>::eq`. Two buffers are equal where their slices are,
/// wherever the memory behind them lives.
#[verifier::external_body]
pub(crate) fn same_octets(left: &Bytes, right: &Bytes) -> (same: bool)
    ensures
        same == (buffer_octets(*left) == buffer_octets(*right)),
{
    left == right
}

/// `<Bytes as Clone>::clone`. The new handle shares the memory of the old one
/// and so holds the same octets.
#[verifier::external_body]
pub(crate) fn share(buffer: &Bytes) -> (shared: Bytes)
    ensures
        buffer_octets(shared) == buffer_octets(*buffer),
{
    buffer.clone()
}

/// `core::str::from_utf8`. It succeeds where the slice is valid UTF-8, and the
/// string slice it then returns is the very same octets seen as text.
#[verifier::external_body]
pub(crate) fn utf8_text(octets: &[u8]) -> (text: Result<&str, Utf8Error>)
    ensures
        valid_utf8(octets@) ==> text is Ok,
        text matches Ok(t) ==> t.spec_bytes() == octets@,
{
    core::str::from_utf8(octets)
}

} // verus!
