//! Response of the gym's occupancy endpoint.

use vstd::prelude::*;

verus! {

/// One occupancy reading as the endpoint reports it; `num_val` holds the
/// percentage as text.
#[derive(Debug)]
pub struct GymResponse {
    pub gym: i32,
    pub name: String,
    pub workload: String,
    pub num_val: String,
}

} // verus!
