//! A validity predicate for an NFT collection: given the storage paths that a
//! transaction changed under the collection's address and the addresses that
//! endorsed it, decide whether the change was authorized. A collection's
//! creator is written once; only the creator mints tokens; a token's approval
//! set grows only with the endorsement of the creator or of a current approver.
use vstd::prelude::*;

pub mod address;
pub mod key;
pub mod storage;
pub mod policy;
pub mod laws;

verus! {

} // verus!
