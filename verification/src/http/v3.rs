//! HTTP/3 (draft-ietf-quic-http): the identifiers of the settings that a peer announces.
use vstd::prelude::*;

verus! {

/// The identifier of a setting (6 and 9 on the wire).
pub enum SettingsId {
    MaxHeaderListSize,
    NumPlaceholders,
}

} // verus!
