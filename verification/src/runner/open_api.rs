use vstd::prelude::*;

verus! {

/// The OpenAPI description of the process-runner's routes (the queue and the
/// process routes); the document itself is generated where the routes are
/// served.
pub struct ApiDoc;

} // verus!
