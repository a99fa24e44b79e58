//! Error taxonomy of the orchestration pipeline, with its propagation policy.

use vstd::prelude::*;

verus! {

/// One failure class per pipeline stage.
#[derive(Debug, Clone, Copy, PartialEq, Eq, Structural)]
pub enum RunError {
    /// A directory could not be read during test discovery.
    Discovery,
    /// A native build manifest is missing or contains no extractable name.
    NameResolution,
    /// A test unit's configuration is missing, malformed, or names sources
    /// that cannot be used.
    Config,
    /// The native build tool or the simulation compiler exited non-zero.
    BuildTool,
    /// The simulation runtime exited non-zero.
    RunTool,
}

/// What a failure means for the rest of the run.
#[derive(Debug, Clone, Copy, PartialEq, Eq, Structural)]
pub enum Propagation {
    /// Abort the entire run.
    AbortRun,
    /// Abandon the affected unit; later units still build and run.
    FailUnit,
    /// Surface the failure; processing continues unhindered.
    ReportOnly,
}

/// The propagation policy: discovery and name-resolution errors abort the
/// whole run (nothing has been fully resolved yet), and so does a
/// configuration error (the reference behavior); a build-tool error abandons
/// only its unit; a run-tool error is reported without stopping anything.
pub open spec fn spec_propagation(e: RunError) -> Propagation {
    match e {
        RunError::Discovery => Propagation::AbortRun,
        RunError::NameResolution => Propagation::AbortRun,
        RunError::Config => Propagation::AbortRun,
        RunError::BuildTool => Propagation::FailUnit,
        RunError::RunTool => Propagation::ReportOnly,
    }
}

/// The operator-facing message of each error class.
pub open spec fn spec_describe(e: RunError) -> Seq<char> {
    match e {
        RunError::Discovery => "could not read a directory during test discovery"@,
        RunError::NameResolution => "could not find a test name in the native build manifest"@,
        RunError::Config => "test configuration is missing, malformed, or names unusable sources"@,
        RunError::BuildTool => "a build tool exited with a non-zero status"@,
        RunError::RunTool => "the simulation runtime exited with a non-zero status"@,
    }
}

impl RunError {
    /// Human-readable description for operator-facing messages.
    pub fn describe(&self) -> (r: &'static str)
        ensures
            r@ == spec_describe(*self),
            r@.len() > 0,
    {
        let s: &'static str = match self {
            RunError::Discovery => "could not read a directory during test discovery",
            RunError::NameResolution => "could not find a test name in the native build manifest",
            RunError::Config => "test configuration is missing, malformed, or names unusable sources",
            RunError::BuildTool => "a build tool exited with a non-zero status",
            RunError::RunTool => "the simulation runtime exited with a non-zero status",
        };
        proof {
            reveal_strlit("could not read a directory during test discovery");
            reveal_strlit("could not find a test name in the native build manifest");
            reveal_strlit("test configuration is missing, malformed, or names unusable sources");
            reveal_strlit("a build tool exited with a non-zero status");
            reveal_strlit("the simulation runtime exited with a non-zero status");
        }
        s
    }

    /// How this failure propagates through the run.
    pub fn propagation(&self) -> (r: Propagation)
        ensures
            r == spec_propagation(*self),
    {
        match self {
            RunError::Discovery => Propagation::AbortRun,
            RunError::NameResolution => Propagation::AbortRun,
            RunError::Config => Propagation::AbortRun,
            RunError::BuildTool => Propagation::FailUnit,
            RunError::RunTool => Propagation::ReportOnly,
        }
    }
}

} // verus!
