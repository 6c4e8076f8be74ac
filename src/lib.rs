//! Supervision of a local backend sidecar: a health probe reduced to a
//! boolean, an ordered locator of launch candidates, the embedded and
//! external launch strategies, a bounded readiness waiter and the run-once
//! startup sequence. Each part that waits on the outside world is a state
//! machine that asks its host for one action at a time.

use vstd::prelude::*;

pub mod config;
pub mod embedded;
pub mod launch;
pub mod locator;
pub mod probe;
pub mod startup;
pub mod waiter;

verus! {

} // verus!
