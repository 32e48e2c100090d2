//! The dependency build orchestrator.
//!
//! Producing the engine's native artifact takes outside work: checking two
//! well-known paths, fetching the toolkit through an installer tool, and a
//! three-stage external build (configure, build, install).  This module holds
//! every decision of that process; the process spawns and file-system checks
//! themselves happen outside, driven by the [`Orchestrator`] state machine:
//! the caller performs each emitted [`OrchestratorAction`] and feeds the
//! outcome back into [`Orchestrator::step`].
//!
//! Two properties of the machine are stated as laws below:
//! [`lemma_rerun_is_idempotent`] (a run that finds both presence checks
//! satisfied spawns nothing) and [`lemma_marker_only_after_install`] (the
//! completion marker is written at most once, and never by a run that fails —
//! so a failed build leaves no false "already built" signal).

use vstd::prelude::*;

verus! {

/// The operating system a build target is for.
#[derive(Clone, Copy, Debug, PartialEq, Eq, Structural)]
pub enum Platform {
    /// A Linux desktop target.
    Linux,
    /// A macOS desktop target.
    MacOs,
    /// A Windows desktop target.
    Windows,
}

/// The build configuration of a target.
#[derive(Clone, Copy, Debug, PartialEq, Eq, Structural)]
pub enum BuildConfig {
    /// An unoptimized build with debug information.
    Debug,
    /// An optimized build.
    Release,
}

/// A (toolkit version, platform, configuration) triple.  Created once at
/// orchestration start; immutable afterwards.  Everything the orchestration
/// needs — acquisition arguments, build-tool invocations, install paths, link
/// directives — is derived from it deterministically.
pub struct BuildTarget {
    /// The platform the engine is built for.
    pub platform: Platform,
    /// The configuration the engine is built in.
    pub config: BuildConfig,
    /// The toolkit version to fetch, as the installer tool expects it.
    pub toolkit_version: String,
}

/// The directory name the toolkit distribution uses for the platform's
/// compiler.
pub open spec fn spec_compiler_dir(p: Platform) -> Seq<char> {
    match p {
        Platform::Linux => "gcc_64"@,
        Platform::MacOs => "clang_64"@,
        Platform::Windows => "msvc2022_64"@,
    }
}

/// The deterministic path of the unpacked toolkit's library directory, keyed
/// by version and platform.  Its existence is the sole signal that the
/// toolkit acquisition is complete.
pub open spec fn spec_toolkit_libs_path(t: BuildTarget) -> Seq<char> {
    "./libdie++/build/"@ + t.toolkit_version@ + "/"@ + spec_compiler_dir(t.platform) + "/lib"@
}

/// The marker whose existence signals a completed engine build: an archive
/// file on Linux and Windows, the shared-library directory on macOS.  The
/// orchestrator writes it only as the final step after a successful install.
pub open spec fn spec_marker_path(p: Platform) -> Seq<char> {
    match p {
        Platform::Linux => "./libdie++/install/lib/libdie.a"@,
        Platform::MacOs => "./libdie++/install/lib/"@,
        Platform::Windows => "./libdie++/install/die.lib"@,
    }
}

/// The configuration name as the build tool spells it.
pub open spec fn spec_config_name(c: BuildConfig) -> Seq<char> {
    match c {
        BuildConfig::Debug => "Debug"@,
        BuildConfig::Release => "Release"@,
    }
}

/// One external process the orchestration may need to run.
#[derive(Clone, Copy, Debug, PartialEq, Eq, Structural)]
pub enum ExternalCommand {
    /// Obtain the toolkit installer tool through the package installer.
    InstallAqtTool,
    /// Fetch the toolkit redistributable with the installer tool.
    InstallToolkit,
    /// Configure the engine's build tree from its source tree.
    Configure,
    /// Build the configured tree with parallel workers.
    Build,
    /// Install the built artifacts under the install prefix.
    Install,
}

/// The program an external command runs.
pub open spec fn spec_program(c: ExternalCommand) -> Seq<char> {
    match c {
        ExternalCommand::InstallAqtTool => "python"@,
        ExternalCommand::InstallToolkit => "python"@,
        ExternalCommand::Configure => "cmake"@,
        ExternalCommand::Build => "cmake"@,
        ExternalCommand::Install => "cmake"@,
    }
}

/// The platform/version selection the toolkit installer takes.
pub open spec fn spec_toolkit_select(t: BuildTarget) -> Seq<Seq<char>> {
    match t.platform {
        Platform::Linux => seq!["linux"@, "desktop"@, t.toolkit_version@],
        Platform::MacOs => seq!["mac"@, "desktop"@, t.toolkit_version@, "clang_64"@],
        Platform::Windows => seq![
            "windows"@,
            "desktop"@,
            t.toolkit_version@,
            "win64_msvc2022_64"@,
        ],
    }
}

/// The full argument list of an external command for a target.
pub open spec fn spec_args(c: ExternalCommand, t: BuildTarget) -> Seq<Seq<char>> {
    match c {
        ExternalCommand::InstallAqtTool => seq![
            "-m"@,
            "pip"@,
            "install"@,
            "--user"@,
            "--upgrade"@,
            "aqtinstall"@,
        ],
        ExternalCommand::InstallToolkit => seq!["-m"@, "aqt"@, "install-qt"@, "-O"@, "./libdie++/build"@]
            + spec_toolkit_select(t),
        ExternalCommand::Configure => seq!["-S"@, "./libdie++"@, "-B"@, "./libdie++/build"@],
        ExternalCommand::Build => seq![
            "--build"@,
            "./libdie++/build"@,
            "--parallel"@,
            "4"@,
            "--config"@,
            spec_config_name(t.config),
        ],
        ExternalCommand::Install => seq![
            "--install"@,
            "./libdie++/build"@,
            "--config"@,
            spec_config_name(t.config),
            "--prefix"@,
            "./libdie++/install"@,
        ],
    }
}

/// A program with its arguments, ready to be spawned outside.
#[derive(Clone, Debug, PartialEq, Eq)]
pub struct CommandLine {
    /// The program to run.
    pub program: String,
    /// Its arguments, in order.
    pub args: Vec<String>,
}

impl BuildTarget {
    /// The toolkit's library directory for this target (the presence-check
    /// path of the acquisition step, and the toolkit link search path).
    pub fn toolkit_libs_path(&self) -> (r: String)
        ensures
            r@ == spec_toolkit_libs_path(*self),
    {
        let s = "./libdie++/build/".to_owned();
        let s = s.concat(self.toolkit_version.as_str());
        let s = s.concat("/");
        let s = match self.platform {
            Platform::Linux => s.concat("gcc_64"),
            Platform::MacOs => s.concat("clang_64"),
            Platform::Windows => s.concat("msvc2022_64"),
        };
        s.concat("/lib")
    }

    /// The marker path of the engine-build presence check for this target.
    pub fn marker_path(&self) -> (r: String)
        ensures
            r@ == spec_marker_path(self.platform),
    {
        match self.platform {
            Platform::Linux => "./libdie++/install/lib/libdie.a".to_owned(),
            Platform::MacOs => "./libdie++/install/lib/".to_owned(),
            Platform::Windows => "./libdie++/install/die.lib".to_owned(),
        }
    }

    /// The exact program and arguments of an external command for this
    /// target.
    pub fn command_line(&self, c: ExternalCommand) -> (r: CommandLine)
        ensures
            r.program@ == spec_program(c),
            r.args.deep_view() == spec_args(c, *self),
    {
        let mut args: Vec<String> = Vec::new();
        let program = match c {
            ExternalCommand::InstallAqtTool => {
                args.push("-m".to_owned());
                args.push("pip".to_owned());
                args.push("install".to_owned());
                args.push("--user".to_owned());
                args.push("--upgrade".to_owned());
                args.push("aqtinstall".to_owned());
                "python".to_owned()
            },
            ExternalCommand::InstallToolkit => {
                args.push("-m".to_owned());
                args.push("aqt".to_owned());
                args.push("install-qt".to_owned());
                args.push("-O".to_owned());
                args.push("./libdie++/build".to_owned());
                match self.platform {
                    Platform::Linux => {
                        args.push("linux".to_owned());
                        args.push("desktop".to_owned());
                        args.push(self.toolkit_version.clone());
                    },
                    Platform::MacOs => {
                        args.push("mac".to_owned());
                        args.push("desktop".to_owned());
                        args.push(self.toolkit_version.clone());
                        args.push("clang_64".to_owned());
                    },
                    Platform::Windows => {
                        args.push("windows".to_owned());
                        args.push("desktop".to_owned());
                        args.push(self.toolkit_version.clone());
                        args.push("win64_msvc2022_64".to_owned());
                    },
                }
                "python".to_owned()
            },
            ExternalCommand::Configure => {
                args.push("-S".to_owned());
                args.push("./libdie++".to_owned());
                args.push("-B".to_owned());
                args.push("./libdie++/build".to_owned());
                "cmake".to_owned()
            },
            ExternalCommand::Build => {
                args.push("--build".to_owned());
                args.push("./libdie++/build".to_owned());
                args.push("--parallel".to_owned());
                args.push("4".to_owned());
                args.push("--config".to_owned());
                args.push(self.config_name());
                "cmake".to_owned()
            },
            ExternalCommand::Install => {
                args.push("--install".to_owned());
                args.push("./libdie++/build".to_owned());
                args.push("--config".to_owned());
                args.push(self.config_name());
                args.push("--prefix".to_owned());
                args.push("./libdie++/install".to_owned());
                "cmake".to_owned()
            },
        };
        proof {
            assert(args.deep_view() =~= spec_args(c, *self));
        }
        CommandLine { program, args }
    }

    /// The configuration name as the build tool spells it.
    pub fn config_name(&self) -> (r: String)
        ensures
            r@ == spec_config_name(self.config),
    {
        match self.config {
            BuildConfig::Debug => "Debug".to_owned(),
            BuildConfig::Release => "Release".to_owned(),
        }
    }
}

/// What the orchestrator asks its driver to do next.
///
/// `CheckToolkitPath` and `CheckMarkerPath` test the existence of
/// [`BuildTarget::toolkit_libs_path`] and [`BuildTarget::marker_path`];
/// `Run` spawns [`BuildTarget::command_line`] of the named command and waits
/// for it; `WriteMarker` creates the marker at [`BuildTarget::marker_path`].
#[derive(Clone, Copy, Debug, PartialEq, Eq, Structural)]
pub enum OrchestratorAction {
    /// Test whether the toolkit's library directory exists.
    CheckToolkitPath,
    /// Test whether the engine-build marker exists.
    CheckMarkerPath,
    /// Spawn the named external command and wait for its exit status.
    Run(ExternalCommand),
    /// Create the marker that signals a completed build — emitted only as the
    /// final step, after the install stage succeeded.
    WriteMarker,
}

/// Where an orchestration run stands: which answer it is waiting for, or how
/// it ended.
#[derive(Clone, Copy, Debug, PartialEq, Eq, Structural)]
pub enum OrchestratorPhase {
    /// Waiting for the toolkit presence check.
    AwaitToolkitCheck,
    /// Waiting for the installer-tool acquisition to finish.
    AwaitAqtTool,
    /// Waiting for the toolkit fetch to finish.
    AwaitToolkitInstall,
    /// Waiting for the engine-build marker check.
    AwaitMarkerCheck,
    /// Waiting for the configure stage.
    AwaitConfigure,
    /// Waiting for the build stage.
    AwaitBuild,
    /// Waiting for the install stage.
    AwaitInstall,
    /// Everything is in place; only the link plan remains to compute.
    Complete,
    /// An external step failed; the whole build is abandoned.
    Aborted,
}

/// The empty or singleton action sequence an optional action stands for.
pub open spec fn opt_actions(a: Option<OrchestratorAction>) -> Seq<OrchestratorAction> {
    match a {
        Some(x) => seq![x],
        None => Seq::empty(),
    }
}

/// One transition of the orchestration: given the phase and the outcome of
/// the action the phase was waiting for (existence for a check, success for a
/// command), the next phase and the next action, if any.
///
/// Every external failure aborts the run at once: stages are strictly
/// sequential, and nothing runs after a failure.
pub open spec fn spec_step(phase: OrchestratorPhase, ok: bool) -> (
    OrchestratorPhase,
    Option<OrchestratorAction>,
) {
    match phase {
        OrchestratorPhase::AwaitToolkitCheck => if ok {
            (OrchestratorPhase::AwaitMarkerCheck, Some(OrchestratorAction::CheckMarkerPath))
        } else {
            (
                OrchestratorPhase::AwaitAqtTool,
                Some(OrchestratorAction::Run(ExternalCommand::InstallAqtTool)),
            )
        },
        OrchestratorPhase::AwaitAqtTool => if ok {
            (
                OrchestratorPhase::AwaitToolkitInstall,
                Some(OrchestratorAction::Run(ExternalCommand::InstallToolkit)),
            )
        } else {
            (OrchestratorPhase::Aborted, None)
        },
        OrchestratorPhase::AwaitToolkitInstall => if ok {
            (OrchestratorPhase::AwaitMarkerCheck, Some(OrchestratorAction::CheckMarkerPath))
        } else {
            (OrchestratorPhase::Aborted, None)
        },
        OrchestratorPhase::AwaitMarkerCheck => if ok {
            (OrchestratorPhase::Complete, None)
        } else {
            (
                OrchestratorPhase::AwaitConfigure,
                Some(OrchestratorAction::Run(ExternalCommand::Configure)),
            )
        },
        OrchestratorPhase::AwaitConfigure => if ok {
            (OrchestratorPhase::AwaitBuild, Some(OrchestratorAction::Run(ExternalCommand::Build)))
        } else {
            (OrchestratorPhase::Aborted, None)
        },
        OrchestratorPhase::AwaitBuild => if ok {
            (
                OrchestratorPhase::AwaitInstall,
                Some(OrchestratorAction::Run(ExternalCommand::Install)),
            )
        } else {
            (OrchestratorPhase::Aborted, None)
        },
        OrchestratorPhase::AwaitInstall => if ok {
            (OrchestratorPhase::Complete, Some(OrchestratorAction::WriteMarker))
        } else {
            (OrchestratorPhase::Aborted, None)
        },
        OrchestratorPhase::Complete => (OrchestratorPhase::Complete, None),
        OrchestratorPhase::Aborted => (OrchestratorPhase::Aborted, None),
    }
}

/// The phase reached and the actions emitted when a run starting at `phase`
/// consumes the given outcomes in order.
pub open spec fn spec_run_from(phase: OrchestratorPhase, outcomes: Seq<bool>) -> (
    OrchestratorPhase,
    Seq<OrchestratorAction>,
)
    decreases outcomes.len(),
{
    if outcomes.len() == 0 {
        (phase, Seq::empty())
    } else {
        let s = spec_step(phase, outcomes[0]);
        let rest = spec_run_from(s.0, outcomes.subrange(1, outcomes.len() as int));
        (rest.0, opt_actions(s.1) + rest.1)
    }
}

/// A full orchestration run: the initial toolkit presence check, then the
/// transitions driven by the outcomes.
pub open spec fn spec_run(outcomes: Seq<bool>) -> (OrchestratorPhase, Seq<OrchestratorAction>) {
    let r = spec_run_from(OrchestratorPhase::AwaitToolkitCheck, outcomes);
    (r.0, seq![OrchestratorAction::CheckToolkitPath] + r.1)
}

/// A finished run consumes further outcomes without emitting anything.
proof fn lemma_terminal_inert(phase: OrchestratorPhase, outcomes: Seq<bool>)
    requires
        phase == OrchestratorPhase::Complete || phase == OrchestratorPhase::Aborted,
    ensures
        spec_run_from(phase, outcomes).0 == phase,
        spec_run_from(phase, outcomes).1 == Seq::<OrchestratorAction>::empty(),
    decreases outcomes.len(),
{
    if outcomes.len() > 0 {
        lemma_terminal_inert(phase, outcomes.subrange(1, outcomes.len() as int));
        assert(spec_run_from(phase, outcomes).1 =~= Seq::<OrchestratorAction>::empty());
    }
}

/// Consuming one more outcome runs one more transition at the end.
proof fn lemma_run_from_snoc(phase: OrchestratorPhase, outcomes: Seq<bool>, ok: bool)
    ensures
        ({
            let pre = spec_run_from(phase, outcomes);
            let s = spec_step(pre.0, ok);
            spec_run_from(phase, outcomes.push(ok)).0 == s.0 && spec_run_from(
                phase,
                outcomes.push(ok),
            ).1 == pre.1 + opt_actions(s.1)
        }),
    decreases outcomes.len(),
{
    let ext = outcomes.push(ok);
    if outcomes.len() == 0 {
        assert(ext[0] == ok);
        let s = spec_step(phase, ok);
        let tail0 = ext.subrange(1, ext.len() as int);
        assert(tail0.len() == 0);
        assert(spec_run_from(s.0, tail0).1 == Seq::<OrchestratorAction>::empty());
        assert(spec_run_from(phase, ext).1 =~= opt_actions(s.1));
        assert(spec_run_from(phase, outcomes).1 + opt_actions(s.1) =~= opt_actions(s.1));
    } else {
        assert(ext[0] == outcomes[0]);
        let tail = outcomes.subrange(1, outcomes.len() as int);
        assert(ext.subrange(1, ext.len() as int) =~= tail.push(ok));
        let s0 = spec_step(phase, outcomes[0]);
        lemma_run_from_snoc(s0.0, tail, ok);
        let pre_tail = spec_run_from(s0.0, tail);
        let s = spec_step(pre_tail.0, ok);
        assert(opt_actions(s0.1) + (pre_tail.1 + opt_actions(s.1)) =~= (opt_actions(s0.1)
            + pre_tail.1) + opt_actions(s.1));
    }
}

/// The outcomes a rerun sees when toolkit and marker are already present:
/// both presence checks answer yes.
pub open spec fn rerun_outcomes() -> Seq<bool> {
    seq![true, true]
}

/// Idempotency: a run that finds the toolkit and the marker already present
/// performs the two presence checks and nothing else — no external process is
/// spawned and the marker is untouched — and ends complete, where the link
/// plan, a pure function of the target, is recomputed identically.
pub proof fn lemma_rerun_is_idempotent()
    ensures
        spec_run(rerun_outcomes()).0 == OrchestratorPhase::Complete,
        spec_run(rerun_outcomes()).1 == seq![
            OrchestratorAction::CheckToolkitPath,
            OrchestratorAction::CheckMarkerPath,
        ],
        forall|i: int|
            0 <= i < spec_run(rerun_outcomes()).1.len() ==> !(#[trigger] spec_run(
                rerun_outcomes(),
            ).1[i] matches OrchestratorAction::Run(_)) && spec_run(rerun_outcomes()).1[i]
                != OrchestratorAction::WriteMarker,
{
    let o = rerun_outcomes();
    assert(o.len() == 2 && o[0] == true && o[1] == true);
    let t1 = o.subrange(1, 2);
    assert(t1.len() == 1 && t1[0] == true);
    let t2 = t1.subrange(1, 1);
    assert(t2.len() == 0);
    let r2 = spec_run_from(OrchestratorPhase::Complete, t2);
    assert(r2.0 == OrchestratorPhase::Complete && r2.1 == Seq::<OrchestratorAction>::empty());
    let r1 = spec_run_from(OrchestratorPhase::AwaitMarkerCheck, t1);
    assert(r1.0 == OrchestratorPhase::Complete);
    assert(r1.1 =~= Seq::<OrchestratorAction>::empty());
    let r0 = spec_run_from(OrchestratorPhase::AwaitToolkitCheck, o);
    assert(r0.0 == OrchestratorPhase::Complete);
    assert(r0.1 =~= seq![OrchestratorAction::CheckMarkerPath]);
    assert(spec_run(o).1 =~= seq![
        OrchestratorAction::CheckToolkitPath,
        OrchestratorAction::CheckMarkerPath,
    ]);
}

/// The marker discipline of every partial run: the marker-write action is
/// emitted at most once, and only by a run that ends complete.
proof fn lemma_marker_discipline(phase: OrchestratorPhase, outcomes: Seq<bool>)
    ensures
        ({
            let r = spec_run_from(phase, outcomes);
            &&& (r.1.contains(OrchestratorAction::WriteMarker) ==> r.0
                == OrchestratorPhase::Complete)
            &&& forall|i: int, j: int|
                0 <= i < j < r.1.len() ==> !(r.1[i] == OrchestratorAction::WriteMarker && r.1[j]
                    == OrchestratorAction::WriteMarker)
        }),
    decreases outcomes.len(),
{
    if outcomes.len() > 0 {
        let s = spec_step(phase, outcomes[0]);
        let tail = outcomes.subrange(1, outcomes.len() as int);
        let rest = spec_run_from(s.0, tail);
        let r = spec_run_from(phase, outcomes);
        lemma_marker_discipline(s.0, tail);
        if s.1 == Some(OrchestratorAction::WriteMarker) {
            lemma_terminal_inert(s.0, tail);
            assert(r.1 =~= seq![OrchestratorAction::WriteMarker]);
        } else {
            let head = opt_actions(s.1);
            assert(r.1 == head + rest.1);
            if r.1.contains(OrchestratorAction::WriteMarker) {
                let k = choose|k: int|
                    0 <= k < r.1.len() && r.1[k] == OrchestratorAction::WriteMarker;
                assert(k >= head.len());
                assert(rest.1[k - head.len()] == OrchestratorAction::WriteMarker);
                assert(rest.1.contains(OrchestratorAction::WriteMarker));
            }
            assert forall|i: int, j: int| 0 <= i < j < r.1.len() implies !(r.1[i]
                == OrchestratorAction::WriteMarker && r.1[j]
                == OrchestratorAction::WriteMarker) by {
                if i >= head.len() {
                    assert(r.1[i] == rest.1[i - head.len()]);
                    assert(r.1[j] == rest.1[j - head.len()]);
                }
            }
        }
    }
}

/// Partial-build safety: in every full run the marker-write action appears at
/// most once, and only in a run that ends complete — in particular, a run in
/// which any stage failed (and which therefore aborted) never wrote the
/// marker, so no false "already built" signal is left behind.
pub proof fn lemma_marker_only_after_install(outcomes: Seq<bool>)
    ensures
        ({
            let r = spec_run(outcomes);
            &&& (r.1.contains(OrchestratorAction::WriteMarker) ==> r.0
                == OrchestratorPhase::Complete)
            &&& (r.0 == OrchestratorPhase::Aborted ==> !r.1.contains(
                OrchestratorAction::WriteMarker,
            ))
            &&& forall|i: int, j: int|
                0 <= i < j < r.1.len() ==> !(r.1[i] == OrchestratorAction::WriteMarker && r.1[j]
                    == OrchestratorAction::WriteMarker)
        }),
{
    lemma_marker_discipline(OrchestratorPhase::AwaitToolkitCheck, outcomes);
    let inner = spec_run_from(OrchestratorPhase::AwaitToolkitCheck, outcomes);
    let r = spec_run(outcomes);
    assert(r.1 == seq![OrchestratorAction::CheckToolkitPath] + inner.1);
    if r.1.contains(OrchestratorAction::WriteMarker) {
        let k = choose|k: int| 0 <= k < r.1.len() && r.1[k] == OrchestratorAction::WriteMarker;
        assert(k >= 1);
        assert(inner.1[k - 1] == OrchestratorAction::WriteMarker);
        assert(inner.1.contains(OrchestratorAction::WriteMarker));
    }
    assert forall|i: int, j: int| 0 <= i < j < r.1.len() implies !(r.1[i]
        == OrchestratorAction::WriteMarker && r.1[j] == OrchestratorAction::WriteMarker) by {
        if i >= 1 {
            assert(r.1[i] == inner.1[i - 1]);
            assert(r.1[j] == inner.1[j - 1]);
        } else {
            assert(r.1[j] == if j >= 1 {
                inner.1[j - 1]
            } else {
                r.1[j]
            });
        }
    }
}

/// One orchestration run, drivable from outside.
///
/// The driver performs each emitted action and feeds its outcome back into
/// [`Orchestrator::step`]; the machine's ghost history records the actions,
/// and the invariant ties phase and history to [`spec_run`] over the outcomes
/// consumed so far, so the laws above hold of every run of this type.
pub struct Orchestrator {
    target: BuildTarget,
    phase: OrchestratorPhase,
    outcomes: Ghost<Seq<bool>>,
    history: Ghost<Seq<OrchestratorAction>>,
}

impl Orchestrator {
    /// The target this run orchestrates for.
    pub closed spec fn spec_target(self) -> BuildTarget {
        self.target
    }

    /// Where the run stands.
    pub closed spec fn spec_phase(self) -> OrchestratorPhase {
        self.phase
    }

    /// The outcomes consumed so far, in order.
    pub closed spec fn outcomes(self) -> Seq<bool> {
        self.outcomes@
    }

    /// The actions emitted so far, in order.
    pub closed spec fn history(self) -> Seq<OrchestratorAction> {
        self.history@
    }

    /// The machine's invariant: phase and history are exactly the run over
    /// the outcomes consumed so far.
    pub open spec fn wf(self) -> bool {
        spec_run(self.outcomes()).0 == self.spec_phase() && spec_run(self.outcomes()).1
            == self.history()
    }

    /// Opens a run for a target.  The first action — the toolkit presence
    /// check — is emitted immediately.
    pub fn new(target: BuildTarget) -> (r: (Orchestrator, OrchestratorAction))
        ensures
            r.0.wf(),
            r.0.spec_target() == target,
            r.0.spec_phase() == OrchestratorPhase::AwaitToolkitCheck,
            r.0.outcomes() == Seq::<bool>::empty(),
            r.0.history() == seq![OrchestratorAction::CheckToolkitPath],
            r.1 == OrchestratorAction::CheckToolkitPath,
    {
        let ghost h = seq![OrchestratorAction::CheckToolkitPath];
        let o = Orchestrator {
            target,
            phase: OrchestratorPhase::AwaitToolkitCheck,
            outcomes: Ghost(Seq::empty()),
            history: Ghost(h),
        };
        proof {
            assert(spec_run(Seq::<bool>::empty()).1 =~= seq![OrchestratorAction::CheckToolkitPath]);
        }
        (o, OrchestratorAction::CheckToolkitPath)
    }

    /// The target this run orchestrates for.
    pub fn target(&self) -> (r: &BuildTarget)
        ensures
            r == self.spec_target(),
    {
        &self.target
    }

    /// Where the run stands.
    pub fn phase(&self) -> (r: OrchestratorPhase)
        ensures
            r == self.spec_phase(),
    {
        self.phase
    }

    /// Consumes the outcome of the pending action (existence for a check,
    /// success for a command or the marker write) and emits the next action,
    /// if any.  A `None` with phase [`OrchestratorPhase::Complete`] means the
    /// artifact is in place; [`OrchestratorPhase::Aborted`] means the build
    /// is abandoned.
    pub fn step(&mut self, ok: bool) -> (a: Option<OrchestratorAction>)
        requires
            old(self).wf(),
        ensures
            final(self).wf(),
            final(self).spec_target() == old(self).spec_target(),
            final(self).outcomes() == old(self).outcomes().push(ok),
            ({
                let s = spec_step(old(self).spec_phase(), ok);
                final(self).spec_phase() == s.0 && a == s.1 && final(self).history() == old(
                    self,
                ).history() + opt_actions(a)
            }),
    {
        let (next, act): (OrchestratorPhase, Option<OrchestratorAction>) = match self.phase {
            OrchestratorPhase::AwaitToolkitCheck => if ok {
                (OrchestratorPhase::AwaitMarkerCheck, Some(OrchestratorAction::CheckMarkerPath))
            } else {
                (
                    OrchestratorPhase::AwaitAqtTool,
                    Some(OrchestratorAction::Run(ExternalCommand::InstallAqtTool)),
                )
            },
            OrchestratorPhase::AwaitAqtTool => if ok {
                (
                    OrchestratorPhase::AwaitToolkitInstall,
                    Some(OrchestratorAction::Run(ExternalCommand::InstallToolkit)),
                )
            } else {
                (OrchestratorPhase::Aborted, None)
            },
            OrchestratorPhase::AwaitToolkitInstall => if ok {
                (OrchestratorPhase::AwaitMarkerCheck, Some(OrchestratorAction::CheckMarkerPath))
            } else {
                (OrchestratorPhase::Aborted, None)
            },
            OrchestratorPhase::AwaitMarkerCheck => if ok {
                (OrchestratorPhase::Complete, None)
            } else {
                (
                    OrchestratorPhase::AwaitConfigure,
                    Some(OrchestratorAction::Run(ExternalCommand::Configure)),
                )
            },
            OrchestratorPhase::AwaitConfigure => if ok {
                (
                    OrchestratorPhase::AwaitBuild,
                    Some(OrchestratorAction::Run(ExternalCommand::Build)),
                )
            } else {
                (OrchestratorPhase::Aborted, None)
            },
            OrchestratorPhase::AwaitBuild => if ok {
                (
                    OrchestratorPhase::AwaitInstall,
                    Some(OrchestratorAction::Run(ExternalCommand::Install)),
                )
            } else {
                (OrchestratorPhase::Aborted, None)
            },
            OrchestratorPhase::AwaitInstall => if ok {
                (OrchestratorPhase::Complete, Some(OrchestratorAction::WriteMarker))
            } else {
                (OrchestratorPhase::Aborted, None)
            },
            OrchestratorPhase::Complete => (OrchestratorPhase::Complete, None),
            OrchestratorPhase::Aborted => (OrchestratorPhase::Aborted, None),
        };
        proof {
            lemma_run_from_snoc(OrchestratorPhase::AwaitToolkitCheck, self.outcomes@, ok);
            let inner = spec_run_from(OrchestratorPhase::AwaitToolkitCheck, self.outcomes@);
            let s = spec_step(self.phase, ok);
            assert(seq![OrchestratorAction::CheckToolkitPath] + (inner.1 + opt_actions(s.1)) =~= (
            seq![OrchestratorAction::CheckToolkitPath] + inner.1) + opt_actions(s.1));
        }
        self.phase = next;
        let ghost oc = self.outcomes@.push(ok);
        self.outcomes = Ghost(oc);
        let ghost h = self.history@ + opt_actions(act);
        self.history = Ghost(h);
        act
    }
}

/// The marker discipline, stated of the machine itself: however a run of
/// [`Orchestrator`] was driven, its history holds the marker write at most
/// once, and only if the run completed.
pub proof fn lemma_orchestrator_marker_safety(o: &Orchestrator)
    requires
        o.wf(),
    ensures
        o.history().contains(OrchestratorAction::WriteMarker) ==> o.spec_phase()
            == OrchestratorPhase::Complete,
        o.spec_phase() == OrchestratorPhase::Aborted ==> !o.history().contains(
            OrchestratorAction::WriteMarker,
        ),
        forall|i: int, j: int|
            0 <= i < j < o.history().len() ==> !(o.history()[i] == OrchestratorAction::WriteMarker
                && o.history()[j] == OrchestratorAction::WriteMarker),
{
    lemma_marker_only_after_install(o.outcomes());
}

} // verus!
