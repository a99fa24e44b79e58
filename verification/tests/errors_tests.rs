use rstb_runner::errors::{Propagation, RunError};

const ALL: [RunError; 5] = [
    RunError::Discovery,
    RunError::NameResolution,
    RunError::Config,
    RunError::BuildTool,
    RunError::RunTool,
];

#[test]
fn each_error_class_carries_its_own_message() {
    assert_eq!(
        RunError::Discovery.describe(),
        "could not read a directory during test discovery"
    );
    assert_eq!(
        RunError::NameResolution.describe(),
        "could not find a test name in the native build manifest"
    );
    assert_eq!(
        RunError::Config.describe(),
        "test configuration is missing, malformed, or names unusable sources"
    );
    assert_eq!(RunError::BuildTool.describe(), "a build tool exited with a non-zero status");
    assert_eq!(
        RunError::RunTool.describe(),
        "the simulation runtime exited with a non-zero status"
    );
}

#[test]
fn descriptions_are_distinct() {
    for (i, a) in ALL.iter().enumerate() {
        for (j, b) in ALL.iter().enumerate() {
            assert_eq!(i == j, a.describe() == b.describe());
        }
    }
}

#[test]
fn propagation_policy_matches_the_design() {
    assert_eq!(RunError::Discovery.propagation(), Propagation::AbortRun);
    assert_eq!(RunError::NameResolution.propagation(), Propagation::AbortRun);
    assert_eq!(RunError::Config.propagation(), Propagation::AbortRun);
    assert_eq!(RunError::BuildTool.propagation(), Propagation::FailUnit);
    assert_eq!(RunError::RunTool.propagation(), Propagation::ReportOnly);
}
