//! Which controller to drive.
use vstd::prelude::*;

use crate::controller::grbl::GrblControllerConfig;

verus! {

#[derive(Debug, Clone, PartialEq, Eq)]
pub enum ControllerConfig {
    GRBL(GrblControllerConfig),
}

} // verus!
