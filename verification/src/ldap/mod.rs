//! Lightweight Directory Access Protocol (RFC 4511): the basic encoding rules it is written in
//! and the messages of a bind.
pub mod ber;
pub mod wire;
pub mod builder;

use vstd::prelude::*;

verus! {

pub const DEFAULT_PORT: u16 = 389;
pub const DEFAULT_PORT_TLS: u16 = 636;
pub const LDAP3: u8 = 3;

} // verus!
