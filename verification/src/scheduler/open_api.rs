use vstd::prelude::*;

verus! {

/// The OpenAPI description of the scheduler's routes (`/scheduler/new`,
/// `/scheduler/list`, `/scheduler/next`); the document itself is generated
/// where the routes are served.
pub struct ApiDoc;

} // verus!
