//! Tests of the build orchestrator: the paths and command lines it derives,
//! the order of its actions, idempotency, and partial-build safety.

use die::link_plan::compute_link_plan;
use die::link_plan::Directive;
use die::link_plan::LinkKind;
use die::link_plan::SearchKind;
use die::orchestrator::BuildConfig;
use die::orchestrator::BuildTarget;
use die::orchestrator::ExternalCommand;
use die::orchestrator::Orchestrator;
use die::orchestrator::OrchestratorAction;
use die::orchestrator::OrchestratorPhase;
use die::orchestrator::Platform;

fn target(platform: Platform, config: BuildConfig) -> BuildTarget {
    BuildTarget { platform, config, toolkit_version: "6.10.0".to_owned() }
}

/// Drives a run with the given outcomes, collecting every emitted action.
fn drive(t: BuildTarget, outcomes: &[bool]) -> (OrchestratorPhase, Vec<OrchestratorAction>) {
    let (mut orch, first) = Orchestrator::new(t);
    let mut actions = vec![first];
    for &ok in outcomes {
        if let Some(a) = orch.step(ok) {
            actions.push(a);
        }
    }
    (orch.phase(), actions)
}

#[test]
fn toolkit_paths_are_deterministic() {
    assert_eq!(
        target(Platform::Linux, BuildConfig::Release).toolkit_libs_path(),
        "./libdie++/build/6.10.0/gcc_64/lib"
    );
    assert_eq!(
        target(Platform::MacOs, BuildConfig::Release).toolkit_libs_path(),
        "./libdie++/build/6.10.0/clang_64/lib"
    );
    assert_eq!(
        target(Platform::Windows, BuildConfig::Debug).toolkit_libs_path(),
        "./libdie++/build/6.10.0/msvc2022_64/lib"
    );
}

#[test]
fn marker_paths_are_platform_specific() {
    assert_eq!(
        target(Platform::Linux, BuildConfig::Release).marker_path(),
        "./libdie++/install/lib/libdie.a"
    );
    assert_eq!(
        target(Platform::MacOs, BuildConfig::Release).marker_path(),
        "./libdie++/install/lib/"
    );
    assert_eq!(
        target(Platform::Windows, BuildConfig::Release).marker_path(),
        "./libdie++/install/die.lib"
    );
}

#[test]
fn command_lines_match_the_build_stages() {
    let t = target(Platform::Linux, BuildConfig::Release);
    let c = t.command_line(ExternalCommand::InstallAqtTool);
    assert_eq!(c.program, "python");
    assert_eq!(c.args, vec!["-m", "pip", "install", "--user", "--upgrade", "aqtinstall"]);
    let c = t.command_line(ExternalCommand::InstallToolkit);
    assert_eq!(c.program, "python");
    assert_eq!(
        c.args,
        vec!["-m", "aqt", "install-qt", "-O", "./libdie++/build", "linux", "desktop", "6.10.0"]
    );
    let c = t.command_line(ExternalCommand::Configure);
    assert_eq!(c.program, "cmake");
    assert_eq!(c.args, vec!["-S", "./libdie++", "-B", "./libdie++/build"]);
    let c = t.command_line(ExternalCommand::Build);
    assert_eq!(
        c.args,
        vec!["--build", "./libdie++/build", "--parallel", "4", "--config", "Release"]
    );
    let c = t.command_line(ExternalCommand::Install);
    assert_eq!(
        c.args,
        vec![
            "--install",
            "./libdie++/build",
            "--config",
            "Release",
            "--prefix",
            "./libdie++/install"
        ]
    );
}

#[test]
fn toolkit_selection_differs_per_platform() {
    let mac = target(Platform::MacOs, BuildConfig::Release);
    assert_eq!(
        mac.command_line(ExternalCommand::InstallToolkit).args[5..],
        ["mac", "desktop", "6.10.0", "clang_64"]
    );
    let win = target(Platform::Windows, BuildConfig::Debug);
    assert_eq!(
        win.command_line(ExternalCommand::InstallToolkit).args[5..],
        ["windows", "desktop", "6.10.0", "win64_msvc2022_64"]
    );
}

#[test]
fn rerun_with_everything_present_spawns_nothing() {
    // Idempotency: toolkit present, marker present - two checks, no spawn,
    // no marker write; and the recomputed link plan is identical.
    let t = target(Platform::Linux, BuildConfig::Release);
    let dir = Some(t.toolkit_libs_path());
    let (phase, actions) = drive(t, &[true, true]);
    assert_eq!(phase, OrchestratorPhase::Complete);
    assert_eq!(
        actions,
        vec![OrchestratorAction::CheckToolkitPath, OrchestratorAction::CheckMarkerPath]
    );
    let plan_one = compute_link_plan(&target(Platform::Linux, BuildConfig::Release), &dir);
    let plan_two = compute_link_plan(&target(Platform::Linux, BuildConfig::Release), &dir);
    assert_eq!(plan_one, plan_two);
}

#[test]
fn fresh_build_runs_all_stages_then_writes_the_marker() {
    let t = target(Platform::Linux, BuildConfig::Release);
    // Toolkit missing, acquisitions succeed, marker missing, stages succeed.
    let (phase, actions) = drive(t, &[false, true, true, false, true, true, true]);
    assert_eq!(phase, OrchestratorPhase::Complete);
    assert_eq!(
        actions,
        vec![
            OrchestratorAction::CheckToolkitPath,
            OrchestratorAction::Run(ExternalCommand::InstallAqtTool),
            OrchestratorAction::Run(ExternalCommand::InstallToolkit),
            OrchestratorAction::CheckMarkerPath,
            OrchestratorAction::Run(ExternalCommand::Configure),
            OrchestratorAction::Run(ExternalCommand::Build),
            OrchestratorAction::Run(ExternalCommand::Install),
            OrchestratorAction::WriteMarker,
        ]
    );
}

#[test]
fn failed_build_aborts_without_writing_the_marker() {
    // Partial-build safety: the build stage fails; the run aborts at once and
    // the marker is never written, so no false "already built" signal exists.
    let t = target(Platform::Linux, BuildConfig::Release);
    let (phase, actions) = drive(t, &[true, false, true, false]);
    assert_eq!(phase, OrchestratorPhase::Aborted);
    assert!(!actions.contains(&OrchestratorAction::WriteMarker));
    assert_eq!(
        actions,
        vec![
            OrchestratorAction::CheckToolkitPath,
            OrchestratorAction::CheckMarkerPath,
            OrchestratorAction::Run(ExternalCommand::Configure),
            OrchestratorAction::Run(ExternalCommand::Build),
        ]
    );
}

#[test]
fn failed_acquisition_aborts_at_once() {
    let t = target(Platform::MacOs, BuildConfig::Release);
    let (phase, actions) = drive(t, &[false, false]);
    assert_eq!(phase, OrchestratorPhase::Aborted);
    assert_eq!(
        actions,
        vec![
            OrchestratorAction::CheckToolkitPath,
            OrchestratorAction::Run(ExternalCommand::InstallAqtTool),
        ]
    );
}

#[test]
fn linux_release_link_plan() {
    let t = target(Platform::Linux, BuildConfig::Release);
    let dir = Some("./qt/lib".to_owned());
    let plan = compute_link_plan(&t, &dir);
    assert_eq!(plan.len(), 24);
    assert_eq!(plan[0], Directive::LinkLib { kind: LinkKind::Static, name: "die++".to_owned() });
    assert_eq!(plan[1], Directive::LinkLib { kind: LinkKind::Static, name: "die".to_owned() });
    assert_eq!(
        plan[6],
        Directive::SearchPath { kind: SearchKind::Native, path: "./qt/lib".to_owned() }
    );
    assert_eq!(
        plan[7],
        Directive::LinkLib { kind: LinkKind::Static, name: "Qt6Core".to_owned() }
    );
    assert_eq!(
        plan[13],
        Directive::SearchPath {
            kind: SearchKind::Native,
            path: "./libdie++/install/die".to_owned()
        }
    );
    assert_eq!(
        plan[23],
        Directive::SearchPath {
            kind: SearchKind::Native,
            path: "./libdie++/build/_deps/dielibrary-build/src/XArchive/3rdparty/zlib".to_owned()
        }
    );
}

#[test]
fn debug_plan_leaves_out_release_modules() {
    let t = target(Platform::Linux, BuildConfig::Debug);
    let plan = compute_link_plan(&t, &None);
    // Six engine libraries, no toolkit search path, no release modules, then
    // the eleven Linux directives.
    assert_eq!(plan.len(), 17);
    assert_eq!(
        plan[6],
        Directive::SearchPath {
            kind: SearchKind::Native,
            path: "./libdie++/install/die".to_owned()
        }
    );
}

#[test]
fn macos_plan_links_frameworks_with_runtime_path() {
    let t = target(Platform::MacOs, BuildConfig::Release);
    let dir = Some("./qt/lib".to_owned());
    let plan = compute_link_plan(&t, &dir);
    assert!(plan.contains(&Directive::LinkLib {
        kind: LinkKind::Framework,
        name: "QtCore".to_owned()
    }));
    assert!(plan.contains(&Directive::SearchPath {
        kind: SearchKind::Framework,
        path: "./qt/lib/".to_owned()
    }));
    assert!(plan.contains(&Directive::RuntimeSearchPath { path: "./qt/lib".to_owned() }));
}

#[test]
fn windows_debug_plan_links_debug_runtimes() {
    let t = target(Platform::Windows, BuildConfig::Debug);
    let plan = compute_link_plan(&t, &None);
    assert!(plan.contains(&Directive::LinkLib {
        kind: LinkKind::Static,
        name: "Qt6Cored".to_owned()
    }));
    assert!(plan.contains(&Directive::LinkLib {
        kind: LinkKind::Static,
        name: "ucrtd".to_owned()
    }));
    assert!(plan.contains(&Directive::SearchPath {
        kind: SearchKind::Native,
        path: "./libdie++/build/_deps/dielibrary-build/src/XCapstone/Debug".to_owned()
    }));
    assert!(plan.contains(&Directive::LinkLib {
        kind: LinkKind::Dynamic,
        name: "Crypt32".to_owned()
    }));
    // A release target carries none of the debug-suffixed libraries.
    let release = compute_link_plan(&target(Platform::Windows, BuildConfig::Release), &None);
    assert!(!release.contains(&Directive::LinkLib {
        kind: LinkKind::Static,
        name: "ucrtd".to_owned()
    }));
}
