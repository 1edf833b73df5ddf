//! Convenience functions that make the library easier to use.

use std::sync::Arc;
use std::sync::RwLock;

use vstd::prelude::*;

use crate::backend::ReadBuffer;

verus! {

/// Relies on `RwLock::new`: a lock holding `buffer`.
#[verifier::external_body]
fn new_lock(buffer: Vec<u8>) -> RwLock<Vec<u8>> {
    RwLock::new(buffer)
}

/// Creates a zero-filled read buffer of `size` bytes for the asynchronous transfers.
pub fn create_read_buffer(size: usize) -> ReadBuffer {
    Arc::new(new_lock(vec![0; size]))
}

} // verus!
