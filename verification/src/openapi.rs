//! The description of the HTTP interface.

use vstd::prelude::*;

verus! {

/// The OpenAPI document of the service: its title, version, contact, server,
/// paths (`/`, `/stats`, `/level/{id}`) and tags.
pub struct ApiDoc;

} // verus!
