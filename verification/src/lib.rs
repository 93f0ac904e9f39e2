//! Two primitives of an HTTP/2 engine, both small and both easy to get subtly
//! wrong: validation of header field values and the arithmetic of flow-control
//! windows.
//!
//! Every function of this crate carries a contract that Verus proves. What is
//! taken on trust is confined to [`octets`], the thin layer over the buffer and
//! string types that the crate does not define itself.

pub mod octets;
pub mod solicit;
