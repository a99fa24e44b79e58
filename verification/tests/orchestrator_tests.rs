use rstb_runner::config::{Config, Src, Test};
use rstb_runner::orchestrator::{default_build_dirs, make_test_envs, step, TestEvent, TestPhase};

#[test]
fn life_cycle_happy_path_ends_in_run() {
    let mut phase = TestPhase::Discovered;
    phase = step(phase, TestEvent::Selected);
    assert_eq!(phase, TestPhase::Configured);
    phase = step(phase, TestEvent::ConfigOk);
    assert_eq!(phase, TestPhase::Built);
    phase = step(phase, TestEvent::RanTest);
    assert_eq!(phase, TestPhase::Run);
}

#[test]
fn compile_only_ends_in_skipped() {
    let built = step(step(TestPhase::Discovered, TestEvent::Selected), TestEvent::ConfigOk);
    assert_eq!(step(built, TestEvent::SkippedRun), TestPhase::Skipped);
}

#[test]
fn config_error_fails_while_configuring() {
    let configured = step(TestPhase::Discovered, TestEvent::Selected);
    assert_eq!(step(configured, TestEvent::ConfigFailed), TestPhase::Failed);
}

#[test]
fn build_error_fails_while_building() {
    let built = step(step(TestPhase::Discovered, TestEvent::Selected), TestEvent::ConfigOk);
    assert_eq!(step(built, TestEvent::BuildFailed), TestPhase::Failed);
}

#[test]
fn failed_is_terminal() {
    for e in [
        TestEvent::Selected,
        TestEvent::ConfigOk,
        TestEvent::ConfigFailed,
        TestEvent::BuildFailed,
        TestEvent::RanTest,
        TestEvent::SkippedRun,
    ] {
        assert_eq!(step(TestPhase::Failed, e), TestPhase::Failed);
    }
}

#[test]
fn unrelated_events_change_nothing() {
    assert_eq!(step(TestPhase::Discovered, TestEvent::RanTest), TestPhase::Discovered);
    assert_eq!(step(TestPhase::Run, TestEvent::Selected), TestPhase::Run);
    assert_eq!(step(TestPhase::Skipped, TestEvent::BuildFailed), TestPhase::Skipped);
}

#[test]
fn default_directories_sit_under_the_working_directory() {
    let (rstb, sim) = default_build_dirs("/work");
    assert_eq!(rstb, "/work/.rstb_build");
    assert_eq!(sim, "/work/.sim_build");
}

#[test]
fn one_env_per_unit_with_shared_directories() {
    let names = vec!["alpha".to_string(), "beta".to_string()];
    let paths = vec!["/r/test_alpha".to_string(), "/r/beta_test".to_string()];
    let configs = vec![
        Config {
            test: Test { toplevel: "top_a".to_string() },
            src: Src { verilog: Some(vec!["a.v".to_string()]), vhdl: None },
        },
        Config {
            test: Test { toplevel: "top_b".to_string() },
            src: Src { verilog: Some(vec!["b.v".to_string()]), vhdl: None },
        },
    ];
    let envs = make_test_envs(
        &names,
        &paths,
        &"/w/.rstb_build".to_string(),
        &"/w/.sim_build".to_string(),
        true,
        &configs,
    );
    assert_eq!(envs.len(), 2);
    assert_eq!(envs[0].test_name, "alpha");
    assert_eq!(envs[0].test_path, "/r/test_alpha");
    assert_eq!(envs[0].config.test.toplevel, "top_a");
    assert_eq!(envs[1].test_name, "beta");
    assert_eq!(envs[1].test_path, "/r/beta_test");
    assert_eq!(envs[1].config.src.verilog, Some(vec!["b.v".to_string()]));
    for env in &envs {
        assert_eq!(env.rstb_dir, "/w/.rstb_build");
        assert_eq!(env.sim_dir, "/w/.sim_build");
        assert!(env.force_compile);
    }
}
