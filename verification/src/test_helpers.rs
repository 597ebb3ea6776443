//! Compile-time checks that a type can be sent to, or shared with, other
//! threads.
use vstd::prelude::*;

verus! {

/// Compiles only for a type that can be sent to another thread.
pub fn assert_send<T: Send>() {
}

/// Compiles only for a type that can be shared between threads.
pub fn assert_sync<T: Sync>() {
}

} // verus!
