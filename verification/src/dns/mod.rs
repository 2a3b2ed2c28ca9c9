//! Domain Name System (RFC 1035 and its successors): message parts, record types and classes.
pub mod wire;
pub mod records;
pub mod zone;
