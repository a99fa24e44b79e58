//! Orchestrator decisions: execution contexts and the per-unit life cycle.
//!
//! The orchestrator sequences discovery, name resolution, configuration and
//! the per-test build and run. The parts that decide — assembling one
//! immutable execution context per unit and advancing each unit's phase —
//! are verified here; spawning the planned commands is the caller's job.

use vstd::prelude::*;

use crate::config::Config;
use crate::paths::{path_join, spec_join};
use crate::simulator::TestEnv;

verus! {

/// Life-cycle phase of one test unit within a run.
#[derive(Debug, Clone, Copy, PartialEq, Eq, Structural)]
pub enum TestPhase {
    /// The unit's directory was discovered.
    Discovered,
    /// The unit is being configured: manifest name and configuration file
    /// are resolved and normalized.
    Configured,
    /// The unit is being built: native build, then (if stale or forced) the
    /// HDL compile.
    Built,
    /// The simulation ran; its own verdict is reported separately.
    Run,
    /// The run phase was skipped (compile-only mode).
    Skipped,
    /// Configuration or build failed; the unit takes no further step.
    Failed,
}

/// What happened to a unit since its last phase change.
#[derive(Debug, Clone, Copy, PartialEq, Eq, Structural)]
pub enum TestEvent {
    /// The unit was taken up for configuration.
    Selected,
    /// Name and configuration resolved and normalized; building begins.
    ConfigOk,
    /// Manifest or configuration missing, malformed, or unusable.
    ConfigFailed,
    /// A build tool exited non-zero.
    BuildFailed,
    /// The build succeeded and the simulation was executed.
    RanTest,
    /// The build succeeded and the run phase was skipped.
    SkippedRun,
}

/// The per-unit life cycle: `Discovered -> Configured -> Built`, ending in
/// `Run` or `Skipped`; `Failed` is reached from `Configured` on a
/// configuration error and from `Built` on a build-tool error, and is
/// terminal. Any other pairing of phase and event changes nothing.
pub open spec fn spec_step(phase: TestPhase, event: TestEvent) -> TestPhase {
    match (phase, event) {
        (TestPhase::Discovered, TestEvent::Selected) => TestPhase::Configured,
        (TestPhase::Configured, TestEvent::ConfigOk) => TestPhase::Built,
        (TestPhase::Configured, TestEvent::ConfigFailed) => TestPhase::Failed,
        (TestPhase::Built, TestEvent::RanTest) => TestPhase::Run,
        (TestPhase::Built, TestEvent::SkippedRun) => TestPhase::Skipped,
        (TestPhase::Built, TestEvent::BuildFailed) => TestPhase::Failed,
        (p, _) => p,
    }
}

/// Advances one unit's phase on an event.
pub fn step(phase: TestPhase, event: TestEvent) -> (r: TestPhase)
    ensures
        r == spec_step(phase, event),
{
    match (phase, event) {
        (TestPhase::Discovered, TestEvent::Selected) => TestPhase::Configured,
        (TestPhase::Configured, TestEvent::ConfigOk) => TestPhase::Built,
        (TestPhase::Configured, TestEvent::ConfigFailed) => TestPhase::Failed,
        (TestPhase::Built, TestEvent::RanTest) => TestPhase::Run,
        (TestPhase::Built, TestEvent::SkippedRun) => TestPhase::Skipped,
        (TestPhase::Built, TestEvent::BuildFailed) => TestPhase::Failed,
        (p, _) => p,
    }
}

/// A failed unit takes no further step, whatever else happens.
pub proof fn lemma_failed_is_terminal(event: TestEvent)
    ensures
        spec_step(TestPhase::Failed, event) == TestPhase::Failed,
{
}

/// Failure is only ever entered on a configuration error while configuring
/// or a build-tool error while building.
pub proof fn lemma_failed_only_on_errors(phase: TestPhase, event: TestEvent)
    requires
        spec_step(phase, event) == TestPhase::Failed,
    ensures
        phase == TestPhase::Failed || (phase == TestPhase::Configured && event
            == TestEvent::ConfigFailed) || (phase == TestPhase::Built && event
            == TestEvent::BuildFailed),
{
}

/// The default artifact directories under the working directory: native
/// build products in `.rstb_build`, simulation products in `.sim_build`.
pub fn default_build_dirs(cwd: &str) -> (r: (String, String))
    ensures
        r.0@ == spec_join(cwd@, ".rstb_build"@),
        r.1@ == spec_join(cwd@, ".sim_build"@),
{
    (path_join(cwd, ".rstb_build"), path_join(cwd, ".sim_build"))
}

/// Builds one immutable execution context per test unit, pairing each unit's
/// path with its resolved name and configuration and sharing the artifact
/// directories and the force flag across all units.
pub fn make_test_envs(
    test_names: &Vec<String>,
    test_paths: &Vec<String>,
    rstb_dir: &String,
    sim_dir: &String,
    force_compile: bool,
    configs: &Vec<Config>,
) -> (r: Vec<TestEnv>)
    requires
        test_names@.len() == test_paths@.len(),
        test_names@.len() == configs@.len(),
    ensures
        r@.len() == test_names@.len(),
        forall|j: int|
            0 <= j < r@.len() ==> {
                &&& (#[trigger] r@[j])@.test_name == test_names@[j]@
                &&& r@[j]@.test_path == test_paths@[j]@
                &&& r@[j]@.rstb_dir == rstb_dir@
                &&& r@[j]@.sim_dir == sim_dir@
                &&& r@[j]@.force_compile == force_compile
                &&& r@[j]@.config == configs@[j]@
            },
{
    let mut envs: Vec<TestEnv> = Vec::new();
    let mut j: usize = 0;
    while j < test_names.len()
        invariant
            test_names@.len() == test_paths@.len(),
            test_names@.len() == configs@.len(),
            0 <= j <= test_names@.len(),
            envs@.len() == j,
            forall|k: int|
                0 <= k < j ==> {
                    &&& (#[trigger] envs@[k])@.test_name == test_names@[k]@
                    &&& envs@[k]@.test_path == test_paths@[k]@
                    &&& envs@[k]@.rstb_dir == rstb_dir@
                    &&& envs@[k]@.sim_dir == sim_dir@
                    &&& envs@[k]@.force_compile == force_compile
                    &&& envs@[k]@.config == configs@[k]@
                },
        decreases test_names@.len() - j,
    {
        envs.push(
            TestEnv {
                test_name: test_names[j].clone(),
                test_path: test_paths[j].clone(),
                rstb_dir: rstb_dir.clone(),
                sim_dir: sim_dir.clone(),
                force_compile,
                config: configs[j].clone(),
            },
        );
        j = j + 1;
    }
    envs
}

} // verus!
