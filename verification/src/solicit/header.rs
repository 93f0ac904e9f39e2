//! Header fields.

use vstd::prelude::*;

pub mod value;

verus! {

/// Why a header field was refused.
#[derive(Debug, Copy, Clone, PartialEq, Eq, Structural)]
pub enum HeaderError {
    /// The value holds an octet with its high bit set.
    HeaderValueNotAscii,
    /// The value holds an ASCII octet that is neither visible, nor a space,
    /// nor a horizontal tab.
    IncorrectCharInValue,
}

} // verus!
