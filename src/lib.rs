//! Disk lifecycle management: request decoding, authorisation gate, routing to
//! a storage backend, disk and partition records, and reply encoding.
use vstd::prelude::*;

pub mod varint;
pub mod wire;
pub mod messages;
pub mod request;
pub mod discovery;
pub mod backend;
pub mod dispatch;

pub use backend::GlusterBackend;

verus! {

} // verus!
