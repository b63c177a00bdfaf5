//! The ways in which a launch ends without the application having run to a
//! successful exit.

use crate::stage::Stage;
use crate::version::Version;
use vstd::prelude::*;

verus! {

/// Why a launch was given up. Each is final: nothing is retried.
#[derive(Clone, Copy, Debug, PartialEq, Eq, Structural)]
pub enum LaunchError {
    /// No candidate could be run with success and announced a version.
    RuntimeNotFound,
    /// A runtime was found, but it is older than the launch requires.
    RuntimeIncompatible { required: Version, found: Version },
    /// The process of a stage could not be started.
    StageLaunchFailure { stage: Stage },
    /// The process of a stage ran and reported failure.
    StageExitFailure { stage: Stage },
}

} // verus!
