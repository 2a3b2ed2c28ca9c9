//! Links and events of a span; they hold nothing yet.
use vstd::prelude::*;

verus! {

/// A link from a span to another.
#[derive(Clone, Debug, Default)]
pub struct Link {}

/// An event that happened during a span.
#[derive(Clone, Debug, Default)]
pub struct Event {}

} // verus!
