//! The protocol-level value types: header field values and flow-control
//! windows.

pub mod header;
pub mod window_size;
