//! Simulator backend abstraction.
//!
//! A backend turns an abstract "build and run this test" request into
//! concrete tool command lines. The library never spawns the tools itself: a
//! backend produces a plan — programs, argument lists, working directories,
//! environment overrides, and file copies — and the caller executes it,
//! feeding observed modification times back in for the staleness decision.

use vstd::prelude::*;

use crate::config::{Config, ConfigModel};
use crate::errors::RunError;
use crate::paths::{path_join, spec_join};
use crate::staleness::{outdated, spec_outdated};

verus! {

/// One external tool invocation.
#[derive(Debug)]
pub struct Cmd {
    /// Program name looked up on the executor's search path.
    pub program: String,
    /// Arguments, in order.
    pub args: Vec<String>,
    /// Working directory for the invocation.
    pub cwd: String,
    /// Environment variable overrides, in order.
    pub env: Vec<(String, String)>,
}

/// Mathematical value of a `Cmd`.
#[verifier::ext_equal]
pub struct CmdModel {
    pub program: Seq<char>,
    pub args: Seq<Seq<char>>,
    pub cwd: Seq<char>,
    pub env: Seq<(Seq<char>, Seq<char>)>,
}

impl View for Cmd {
    type V = CmdModel;

    open spec fn view(&self) -> CmdModel {
        CmdModel {
            program: self.program@,
            args: self.args.deep_view(),
            cwd: self.cwd@,
            env: self.env.deep_view(),
        }
    }
}

/// The resolved execution context of one test, constructed once by the
/// orchestrator and read, never mutated, by the backend.
#[derive(Debug)]
pub struct TestEnv {
    /// Unique test name extracted from the native build manifest.
    pub test_name: String,
    /// Absolute path of the test unit's directory.
    pub test_path: String,
    /// Shared output directory for native build artifacts.
    pub rstb_dir: String,
    /// Root of the per-test simulation output directories.
    pub sim_dir: String,
    /// Bypass the staleness check and always recompile.
    pub force_compile: bool,
    /// The test's resolved configuration.
    pub config: Config,
}

/// Mathematical value of a `TestEnv`.
#[verifier::ext_equal]
pub struct TestEnvModel {
    pub test_name: Seq<char>,
    pub test_path: Seq<char>,
    pub rstb_dir: Seq<char>,
    pub sim_dir: Seq<char>,
    pub force_compile: bool,
    pub config: ConfigModel,
}

impl View for TestEnv {
    type V = TestEnvModel;

    open spec fn view(&self) -> TestEnvModel {
        TestEnvModel {
            test_name: self.test_name@,
            test_path: self.test_path@,
            rstb_dir: self.rstb_dir@,
            sim_dir: self.sim_dir@,
            force_compile: self.force_compile,
            config: self.config@,
        }
    }
}

/// The build half of a test: the native build always runs, the HDL compile
/// only when the image is missing, stale, or a rebuild is forced.
#[derive(Debug)]
pub struct BuildPlan {
    /// Native build tool invocation; its own incremental logic is trusted.
    pub native_build: Cmd,
    /// Per-test simulation output directory to create (idempotently).
    pub sim_unit_dir: String,
    /// Path of the compiled simulation image.
    pub image_path: String,
    /// HDL compile invocation, present exactly when compilation must run.
    pub compile: Option<Cmd>,
}

/// Mathematical value of a `BuildPlan`.
#[verifier::ext_equal]
pub struct BuildPlanModel {
    pub native_build: CmdModel,
    pub sim_unit_dir: Seq<char>,
    pub image_path: Seq<char>,
    pub compile: Option<CmdModel>,
}

impl View for BuildPlan {
    type V = BuildPlanModel;

    open spec fn view(&self) -> BuildPlanModel {
        BuildPlanModel {
            native_build: self.native_build@,
            sim_unit_dir: self.sim_unit_dir@,
            image_path: self.image_path@,
            compile: match self.compile {
                Some(c) => Some(c@),
                None => None,
            },
        }
    }
}

/// The run half of a test: materialize the simulator-loadable module from
/// the native artifact, then invoke the simulation runtime.
#[derive(Debug)]
pub struct RunPlan {
    /// Module name the runtime loads.
    pub module_name: String,
    /// Native shared-object artifact to copy.
    pub copy_src: String,
    /// Engine-named destination; removed first if present, then copied to.
    pub copy_dst: String,
    /// Simulation runtime invocation.
    pub run: Cmd,
}

/// Mathematical value of a `RunPlan`.
#[verifier::ext_equal]
pub struct RunPlanModel {
    pub module_name: Seq<char>,
    pub copy_src: Seq<char>,
    pub copy_dst: Seq<char>,
    pub run: CmdModel,
}

impl View for RunPlan {
    type V = RunPlanModel;

    open spec fn view(&self) -> RunPlanModel {
        RunPlanModel {
            module_name: self.module_name@,
            copy_src: self.copy_src@,
            copy_dst: self.copy_dst@,
            run: self.run@,
        }
    }
}

/// Whether the configuration resolves to a non-empty HDL source list, the
/// condition under which a build plan is owed.
pub open spec fn spec_has_sources(c: ConfigModel) -> bool {
    c.verilog is Some && c.verilog->0.len() > 0
}

/// A simulator engine. The orchestrator holds one polymorphic handle and
/// never inspects which concrete engine is active; each engine pins its
/// command lines through the spec methods below.
pub trait Simulator {
    /// Per-test simulation output directory.
    spec fn spec_sim_unit_dir(&self, env: TestEnvModel) -> Seq<char>;

    /// Path of the compiled simulation image.
    spec fn spec_image_path(&self, env: TestEnvModel) -> Seq<char>;

    /// The native build invocation.
    spec fn spec_native_build_cmd(&self, env: TestEnvModel) -> CmdModel;

    /// The HDL compile invocation.
    spec fn spec_compile_cmd(&self, env: TestEnvModel) -> CmdModel;

    /// The run plan.
    spec fn spec_run_plan(&self, env: TestEnvModel) -> RunPlanModel;

    /// Path of the image this engine would produce for `env`: the caller
    /// observes its modification time before asking for a build plan.
    fn image_path(&self, env: &TestEnv) -> (r: String)
        ensures
            r@ == self.spec_image_path(env@),
    ;

    /// Plans the build of one test. `image_time` is the observed modification
    /// time of the image this engine would produce (`None` when absent) and
    /// `source_times` the observed modification times of the resolved HDL
    /// sources, one per source, in declaration order. The plan compiles
    /// exactly when a rebuild is forced or the image is stale; a
    /// configuration without usable sources is rejected, never planned.
    fn build_test(&self, env: &TestEnv, image_time: Option<u64>, source_times: &Vec<u64>) -> (r:
        Result<BuildPlan, RunError>)
        requires
            env@.config.verilog is Some ==> source_times@.len() == env@.config.verilog->0.len(),
        ensures
            r is Ok <==> spec_has_sources(env@.config),
            r is Err ==> r->Err_0 == RunError::Config,
            r is Ok ==> {
                let plan = r->Ok_0;
                &&& plan@.native_build == self.spec_native_build_cmd(env@)
                &&& plan@.sim_unit_dir == self.spec_sim_unit_dir(env@)
                &&& plan@.image_path == self.spec_image_path(env@)
                &&& (plan@.compile is Some <==> (env@.force_compile || spec_outdated(
                    seq![image_time],
                    source_times@,
                )))
                &&& plan@.compile is Some ==> plan@.compile->0 == self.spec_compile_cmd(env@)
            },
    ;

    /// Plans the run of one test.
    fn run_test(&self, env: &TestEnv) -> (r: RunPlan)
        ensures
            r@ == self.spec_run_plan(env@),
    ;
}

/// The Icarus Verilog engine: compiles with `iverilog`, runs with `vvp`, and
/// loads the testbench as a `.vpi` module copied from the native `.so`.
#[derive(Debug)]
pub struct Icarus();

impl Simulator for Icarus {
    open spec fn spec_sim_unit_dir(&self, env: TestEnvModel) -> Seq<char> {
        spec_join(env.sim_dir, env.test_name)
    }

    open spec fn spec_image_path(&self, env: TestEnvModel) -> Seq<char> {
        spec_join(self.spec_sim_unit_dir(env), "sim.vvp"@)
    }

    open spec fn spec_native_build_cmd(&self, env: TestEnvModel) -> CmdModel {
        CmdModel {
            program: "cargo"@,
            args: seq!["build"@, "--release"@],
            cwd: env.test_path,
            env: seq![("CARGO_TARGET_DIR"@, env.rstb_dir)],
        }
    }

    open spec fn spec_compile_cmd(&self, env: TestEnvModel) -> CmdModel {
        CmdModel {
            program: "iverilog"@,
            args: seq![
                "-o"@,
                self.spec_image_path(env),
                "-s"@,
                env.config.toplevel,
                "-g2012"@,
            ] + env.config.verilog->0,
            cwd: self.spec_sim_unit_dir(env),
            env: Seq::empty(),
        }
    }

    open spec fn spec_run_plan(&self, env: TestEnvModel) -> RunPlanModel {
        let module = "lib"@ + env.test_name;
        let release = spec_join(env.rstb_dir, "release"@);
        RunPlanModel {
            module_name: module,
            copy_src: spec_join(env.rstb_dir, "release"@ + "/"@ + module + ".so"@),
            copy_dst: spec_join(env.rstb_dir, "release"@ + "/"@ + module + ".vpi"@),
            run: CmdModel {
                program: "vvp"@,
                args: seq!["-M"@, release, "-m"@, module, self.spec_image_path(env)],
                cwd: self.spec_sim_unit_dir(env),
                env: Seq::empty(),
            },
        }
    }

    fn image_path(&self, env: &TestEnv) -> (r: String) {
        let sim_unit_dir = path_join(env.sim_dir.as_str(), env.test_name.as_str());
        path_join(sim_unit_dir.as_str(), "sim.vvp")
    }

    fn build_test(&self, env: &TestEnv, image_time: Option<u64>, source_times: &Vec<u64>) -> (r:
        Result<BuildPlan, RunError>) {
        let sources = match &env.config.src.verilog {
            Some(v) => v,
            None => {
                return Err(RunError::Config);
            },
        };
        if sources.len() == 0 {
            return Err(RunError::Config);
        }

        let mut cargo_args: Vec<String> = Vec::new();
        cargo_args.push(String::from_str("build"));
        cargo_args.push(String::from_str("--release"));
        let mut cargo_env: Vec<(String, String)> = Vec::new();
        cargo_env.push((String::from_str("CARGO_TARGET_DIR"), env.rstb_dir.clone()));
        let native_build = Cmd {
            program: String::from_str("cargo"),
            args: cargo_args,
            cwd: env.test_path.clone(),
            env: cargo_env,
        };
        proof {
            assert(native_build@ =~~= self.spec_native_build_cmd(env@));
        }

        let sim_unit_dir = path_join(env.sim_dir.as_str(), env.test_name.as_str());
        let image_path = path_join(sim_unit_dir.as_str(), "sim.vvp");

        let mut image_times: Vec<Option<u64>> = Vec::new();
        image_times.push(image_time);
        proof {
            assert(image_times@ =~= seq![image_time]);
        }
        let stale = outdated(&image_times, source_times);
        let compile: Option<Cmd> = if env.force_compile || stale {
            let mut args: Vec<String> = Vec::new();
            args.push(String::from_str("-o"));
            args.push(image_path.clone());
            args.push(String::from_str("-s"));
            args.push(env.config.test.toplevel.clone());
            args.push(String::from_str("-g2012"));
            let mut k: usize = 0;
            while k < sources.len()
                invariant
                    0 <= k <= sources@.len(),
                    args@.len() == 5 + k,
                    args.deep_view().subrange(0, 5) =~= seq![
                        "-o"@,
                        self.spec_image_path(env@),
                        "-s"@,
                        env@.config.toplevel,
                        "-g2012"@,
                    ],
                    forall|m: int| 0 <= m < k ==> args.deep_view()[5 + m] == sources.deep_view()[m],
                decreases sources@.len() - k,
            {
                let ghost prev = args.deep_view();
                args.push(sources[k].clone());
                proof {
                    assert(args.deep_view() =~= prev.push(sources.deep_view()[k as int]));
                    assert(args.deep_view().subrange(0, 5) =~= prev.subrange(0, 5));
                }
                k = k + 1;
            }
            let cmd = Cmd {
                program: String::from_str("iverilog"),
                args,
                cwd: sim_unit_dir.clone(),
                env: Vec::new(),
            };
            proof {
                assert(cmd@.args =~= seq![
                    "-o"@,
                    self.spec_image_path(env@),
                    "-s"@,
                    env@.config.toplevel,
                    "-g2012"@,
                ] + env@.config.verilog->0);
                assert(cmd@ =~~= self.spec_compile_cmd(env@));
            }
            Some(cmd)
        } else {
            None
        };

        Ok(BuildPlan { native_build, sim_unit_dir, image_path, compile })
    }

    fn run_test(&self, env: &TestEnv) -> (r: RunPlan) {
        let mut module_name = String::from_str("lib");
        module_name.append(env.test_name.as_str());

        let mut so_rel = String::from_str("release/");
        so_rel.append(module_name.as_str());
        so_rel.append(".so");
        let copy_src = path_join(env.rstb_dir.as_str(), so_rel.as_str());

        let mut vpi_rel = String::from_str("release/");
        vpi_rel.append(module_name.as_str());
        vpi_rel.append(".vpi");
        let copy_dst = path_join(env.rstb_dir.as_str(), vpi_rel.as_str());

        let release = path_join(env.rstb_dir.as_str(), "release");
        let sim_unit_dir = path_join(env.sim_dir.as_str(), env.test_name.as_str());
        let image_path = path_join(sim_unit_dir.as_str(), "sim.vvp");

        let mut args: Vec<String> = Vec::new();
        args.push(String::from_str("-M"));
        args.push(release);
        args.push(String::from_str("-m"));
        args.push(module_name.clone());
        args.push(image_path);

        let run = Cmd {
            program: String::from_str("vvp"),
            args,
            cwd: sim_unit_dir,
            env: Vec::new(),
        };
        let r = RunPlan { module_name, copy_src, copy_dst, run };
        proof {
            reveal_strlit("release/");
            reveal_strlit("release");
            reveal_strlit("/");
            assert("release/"@ =~= "release"@ + "/"@);
            assert(r@.copy_src =~= self.spec_run_plan(env@).copy_src);
            assert(r@.copy_dst =~= self.spec_run_plan(env@).copy_dst);
            assert(r@.run.args =~~= self.spec_run_plan(env@).run.args);
            assert(r@ =~~= self.spec_run_plan(env@));
        }
        r
    }
}

} // verus!
