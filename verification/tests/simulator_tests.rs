use rstb_runner::config::{Config, Src, Test};
use rstb_runner::errors::RunError;
use rstb_runner::simulator::{Icarus, Simulator, TestEnv};

fn env_with(force_compile: bool, verilog: Option<Vec<&str>>) -> TestEnv {
    TestEnv {
        test_name: "tb".to_string(),
        test_path: "/proj/test_tb".to_string(),
        rstb_dir: "/out/.rstb_build".to_string(),
        sim_dir: "/out/.sim_build".to_string(),
        force_compile,
        config: Config {
            test: Test { toplevel: "tb_top".to_string() },
            src: Src {
                verilog: verilog.map(|v| v.iter().map(|s| s.to_string()).collect()),
                vhdl: None,
            },
        },
    }
}

fn two_source_env(force_compile: bool) -> TestEnv {
    env_with(force_compile, Some(vec!["/proj/test_tb/a.v", "/proj/test_tb/b.v"]))
}

#[test]
fn first_build_compiles_and_pins_every_command_line() {
    let env = two_source_env(false);
    // No image yet: unconditionally stale.
    let plan = Icarus().build_test(&env, None, &vec![10, 20]).unwrap();

    assert_eq!(plan.native_build.program, "cargo");
    assert_eq!(plan.native_build.args, vec!["build".to_string(), "--release".to_string()]);
    assert_eq!(plan.native_build.cwd, "/proj/test_tb");
    assert_eq!(
        plan.native_build.env,
        vec![("CARGO_TARGET_DIR".to_string(), "/out/.rstb_build".to_string())]
    );

    assert_eq!(plan.sim_unit_dir, "/out/.sim_build/tb");
    assert_eq!(plan.image_path, "/out/.sim_build/tb/sim.vvp");

    let compile = plan.compile.expect("first build must compile");
    assert_eq!(compile.program, "iverilog");
    assert_eq!(
        compile.args,
        vec![
            "-o".to_string(),
            "/out/.sim_build/tb/sim.vvp".to_string(),
            "-s".to_string(),
            "tb_top".to_string(),
            "-g2012".to_string(),
            "/proj/test_tb/a.v".to_string(),
            "/proj/test_tb/b.v".to_string(),
        ]
    );
    assert_eq!(compile.cwd, "/out/.sim_build/tb");
    assert!(compile.env.is_empty());
}

#[test]
fn unchanged_second_run_skips_compile_but_not_native_build() {
    let env = two_source_env(false);
    // Image strictly newer than both sources: fresh.
    let plan = Icarus().build_test(&env, Some(100), &vec![10, 20]).unwrap();
    assert!(plan.compile.is_none());
    assert_eq!(plan.native_build.program, "cargo");
    assert_eq!(plan.native_build.args, vec!["build".to_string(), "--release".to_string()]);
}

#[test]
fn force_flag_compiles_even_when_fresh() {
    let env = two_source_env(true);
    let plan = Icarus().build_test(&env, Some(100), &vec![10, 20]).unwrap();
    assert!(plan.compile.is_some());
}

#[test]
fn touched_source_triggers_recompilation() {
    let env = two_source_env(false);
    let plan = Icarus().build_test(&env, Some(100), &vec![10, 150]).unwrap();
    assert!(plan.compile.is_some());
}

#[test]
fn equal_timestamps_trigger_recompilation() {
    let env = two_source_env(false);
    let plan = Icarus().build_test(&env, Some(100), &vec![10, 100]).unwrap();
    assert!(plan.compile.is_some());
}

#[test]
fn deleted_image_triggers_recompilation() {
    let env = two_source_env(false);
    let plan = Icarus().build_test(&env, None, &vec![10, 20]).unwrap();
    assert!(plan.compile.is_some());
}

#[test]
fn missing_source_list_is_a_config_error() {
    let env = env_with(false, None);
    let r = Icarus().build_test(&env, None, &Vec::new());
    assert!(matches!(r, Err(RunError::Config)));
}

#[test]
fn empty_source_list_is_a_config_error() {
    let env = env_with(false, Some(vec![]));
    let r = Icarus().build_test(&env, None, &Vec::new());
    assert!(matches!(r, Err(RunError::Config)));
}

#[test]
fn image_path_names_the_engine_image_under_the_unit_directory() {
    let env = two_source_env(false);
    assert_eq!(Icarus().image_path(&env), "/out/.sim_build/tb/sim.vvp");
}

#[test]
fn run_plan_pins_module_copy_and_command() {
    let env = two_source_env(false);
    let plan = Icarus().run_test(&env);
    assert_eq!(plan.module_name, "libtb");
    assert_eq!(plan.copy_src, "/out/.rstb_build/release/libtb.so");
    assert_eq!(plan.copy_dst, "/out/.rstb_build/release/libtb.vpi");
    assert_eq!(plan.run.program, "vvp");
    assert_eq!(
        plan.run.args,
        vec![
            "-M".to_string(),
            "/out/.rstb_build/release".to_string(),
            "-m".to_string(),
            "libtb".to_string(),
            "/out/.sim_build/tb/sim.vvp".to_string(),
        ]
    );
    assert_eq!(plan.run.cwd, "/out/.sim_build/tb");
    assert!(plan.run.env.is_empty());
}

#[test]
fn end_to_end_build_decisions_across_three_runs() {
    // One unit, two HDL sources, toplevel tb_top.
    let sim = Icarus();
    let env = two_source_env(false);

    // First run: no image, one compile happens, then the test runs.
    let first = sim.build_test(&env, None, &vec![10, 20]).unwrap();
    assert!(first.compile.is_some());
    let run = sim.run_test(&env);
    assert_eq!(run.run.program, "vvp");

    // Second run, nothing touched: image newer, zero recompilations.
    let second = sim.build_test(&env, Some(30), &vec![10, 20]).unwrap();
    assert!(second.compile.is_none());

    // Touch one source: exactly the compile step comes back.
    let third = sim.build_test(&env, Some(30), &vec![10, 40]).unwrap();
    assert!(third.compile.is_some());

    // Delete the simulation output directory: stale again even with
    // otherwise unchanged timestamps.
    let fourth = sim.build_test(&env, None, &vec![10, 20]).unwrap();
    assert!(fourth.compile.is_some());
}
