//! A caching proxy's core: which levels are known to be sent, which were
//! recently found not sent, and how each request is answered.

pub mod cache;
pub mod check;
pub mod config;
pub mod dash;
pub mod health;
pub mod laws;
pub mod openapi;
pub mod reply;
pub mod stats;
pub mod text;
pub mod upstream;
pub mod ws;

use vstd::prelude::*;

verus! {

} // verus!
