//! Identifiers of the resource table that the embedding runtime keeps.

use vstd::prelude::*;

verus! {

/// Names an entry of the runtime's resource table.
pub type ResourceId = u32;

/// An operation was given an identifier under which the resource table
/// holds nothing of the kind the operation needs.
#[derive(Clone, Copy, Debug, PartialEq, Eq)]
pub struct BadResourceId;

} // verus!
