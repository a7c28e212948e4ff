//! Verified core of a secret-mirroring engine: path translation between
//! endpoint namespaces, audit-record decoding, the discovery walker and
//! reconciler state machines, and token lifecycle planning.
use vstd::prelude::*;

pub mod audit;
pub mod config;
pub mod reconcile;
pub mod sync;
pub mod text;
pub mod vault;
pub mod walker;

verus! {

} // verus!
