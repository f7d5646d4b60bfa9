//! The rules of a safe layer over GLib's main loop and reference-counted
//! objects: the foreign boolean convention, the reference count that owned
//! references move, the trampolines that run boxed callbacks and the life of
//! such a callback on a source, the life of a source, and the order of a loop
//! runner's steps. The calls into GLib itself are made by the `app` crate.
use vstd::prelude::*;

pub mod callback;
pub mod refcount;
pub mod runner;
pub mod source;
pub mod types;
pub mod util;

verus! {

} // verus!
