//! Decoding and encoding of the fixed twelve-byte header of a DNS message
//! (RFC 1035, section 4.1.1).

pub mod cursor;
pub mod header;
pub mod op_code;
pub mod response_code;
