//! The link plan: the ordered linker directives a finished engine artifact
//! needs.
//!
//! Deriving the plan is pure: no process runs and nothing is read from disk.
//! [`compute_link_plan`] is specified directive for directive against
//! [`spec_link_plan`], so two derivations for the same target and toolkit
//! directory are identical — the recomputation a rerun of the orchestrator
//! performs is free of surprises.
//!
//! The plan encodes, per platform: the engine and its bundled codecs linked
//! statically everywhere; the toolkit's modules linked both statically (in a
//! release configuration) and dynamically, as the toolkit ships both forms
//! and the final linker resolves which one is used; OS frameworks with a
//! runtime search path on macOS; certificate/trust libraries and, in a debug
//! configuration, debug-suffixed toolkit libraries plus the debug C runtime
//! on Windows.

use vstd::prelude::*;

use crate::orchestrator::BuildConfig;
use crate::orchestrator::BuildTarget;
use crate::orchestrator::Platform;
use crate::orchestrator::spec_config_name;

verus! {

/// How a library is linked.
#[derive(Clone, Copy, Debug, PartialEq, Eq, Structural)]
pub enum LinkKind {
    /// Linked from a static archive.
    Static,
    /// Linked as a shared library.
    Dynamic,
    /// Linked as an OS-level framework.
    Framework,
}

/// What a search path is searched for.
#[derive(Clone, Copy, Debug, PartialEq, Eq, Structural)]
pub enum SearchKind {
    /// A native library directory.
    Native,
    /// A framework directory.
    Framework,
}

/// The ordered linker directives of one build: derived deterministically,
/// consumed once by the compiler and linker, never persisted.
pub type LinkPlan = Vec<Directive>;

/// One linker directive.
#[allow(inconsistent_fields)]
#[derive(Clone, Debug, PartialEq, Eq)]
pub enum Directive {
    /// Add a directory to the linker's search paths.
    SearchPath {
        /// What the directory is searched for.
        kind: SearchKind,
        /// The directory.
        path: String,
    },
    /// Link a library.
    LinkLib {
        /// How the library is linked.
        kind: LinkKind,
        /// The library's name, without prefix or extension.
        name: String,
    },
    /// Embed a runtime library search path into the produced binary.
    RuntimeSearchPath {
        /// The directory searched at run time.
        path: String,
    },
}

/// The mathematical shape of a directive: the same constructors over
/// character sequences.
#[allow(inconsistent_fields)]
pub enum DirectiveView {
    /// Add a directory to the linker's search paths.
    SearchPath {
        /// What the directory is searched for.
        kind: SearchKind,
        /// The directory.
        path: Seq<char>,
    },
    /// Link a library.
    LinkLib {
        /// How the library is linked.
        kind: LinkKind,
        /// The library's name.
        name: Seq<char>,
    },
    /// Embed a runtime library search path into the produced binary.
    RuntimeSearchPath {
        /// The directory searched at run time.
        path: Seq<char>,
    },
}

impl View for Directive {
    type V = DirectiveView;

    open spec fn view(&self) -> DirectiveView {
        match self {
            Directive::SearchPath { kind, path } => DirectiveView::SearchPath {
                kind: *kind,
                path: path@,
            },
            Directive::LinkLib { kind, name } => DirectiveView::LinkLib {
                kind: *kind,
                name: name@,
            },
            Directive::RuntimeSearchPath { path } => DirectiveView::RuntimeSearchPath {
                path: path@,
            },
        }
    }
}

impl DeepView for Directive {
    type V = DirectiveView;

    open spec fn deep_view(&self) -> DirectiveView {
        self.view()
    }
}

/// The view of the optional toolkit library directory.
pub open spec fn spec_opt_path(d: Option<String>) -> Option<Seq<char>> {
    match d {
        Some(p) => Some(p@),
        None => None,
    }
}

/// The engine, its companion library and its bundled codecs, all linked
/// statically on every platform.
pub open spec fn spec_engine_libs() -> Seq<DirectiveView> {
    seq![
        DirectiveView::LinkLib { kind: LinkKind::Static, name: "die++"@ },
        DirectiveView::LinkLib { kind: LinkKind::Static, name: "die"@ },
        DirectiveView::LinkLib { kind: LinkKind::Static, name: "bzip2"@ },
        DirectiveView::LinkLib { kind: LinkKind::Static, name: "lzma"@ },
        DirectiveView::LinkLib { kind: LinkKind::Static, name: "zlib"@ },
        DirectiveView::LinkLib { kind: LinkKind::Static, name: "capstone_x86"@ },
    ]
}

/// The toolkit's library search path, when the directory is known.
pub open spec fn spec_toolkit_search(toolkit_dir: Option<Seq<char>>) -> Seq<DirectiveView> {
    match toolkit_dir {
        Some(p) => seq![DirectiveView::SearchPath { kind: SearchKind::Native, path: p }],
        None => Seq::empty(),
    }
}

/// The toolkit's modules in both shipped forms, emitted in a release
/// configuration; the final linker resolves which form is used.
pub open spec fn spec_toolkit_modules(c: BuildConfig) -> Seq<DirectiveView> {
    if c == BuildConfig::Release {
        seq![
            DirectiveView::LinkLib { kind: LinkKind::Static, name: "Qt6Core"@ },
            DirectiveView::LinkLib { kind: LinkKind::Static, name: "Qt6Qml"@ },
            DirectiveView::LinkLib { kind: LinkKind::Static, name: "Qt6Network"@ },
            DirectiveView::LinkLib { kind: LinkKind::Dynamic, name: "Qt6Core"@ },
            DirectiveView::LinkLib { kind: LinkKind::Dynamic, name: "Qt6Qml"@ },
            DirectiveView::LinkLib { kind: LinkKind::Dynamic, name: "Qt6Network"@ },
        ]
    } else {
        Seq::empty()
    }
}

/// The directives every platform shares: the engine, its companion library
/// and its bundled codecs statically; the toolkit's search path when one is
/// known; and, in a release configuration, the toolkit's modules in both the
/// static and the dynamic form.
pub open spec fn spec_common_directives(t: BuildTarget, toolkit_dir: Option<Seq<char>>) -> Seq<
    DirectiveView,
> {
    spec_engine_libs() + spec_toolkit_search(toolkit_dir) + spec_toolkit_modules(t.config)
}

/// The Linux-only directives: install-tree search paths, the C++ runtime and
/// the toolkit modules as shared libraries, the well-known system library
/// directory, and the bundled codecs' build directories.
pub open spec fn spec_linux_directives() -> Seq<DirectiveView> {
    seq![
        DirectiveView::SearchPath { kind: SearchKind::Native, path: "./libdie++/install/die"@ },
        DirectiveView::SearchPath {
            kind: SearchKind::Native,
            path: "./libdie++/install/die/lib"@,
        },
        DirectiveView::LinkLib { kind: LinkKind::Dynamic, name: "stdc++"@ },
        DirectiveView::LinkLib { kind: LinkKind::Dynamic, name: "Qt6Core"@ },
        DirectiveView::LinkLib { kind: LinkKind::Dynamic, name: "Qt6Qml"@ },
        DirectiveView::LinkLib { kind: LinkKind::Dynamic, name: "Qt6Network"@ },
        DirectiveView::SearchPath { kind: SearchKind::Native, path: "/usr/lib/x86_64-linux-gnu"@ },
        DirectiveView::SearchPath {
            kind: SearchKind::Native,
            path: "./libdie++/build/_deps/dielibrary-build/src/XCapstone"@,
        },
        DirectiveView::SearchPath {
            kind: SearchKind::Native,
            path: "./libdie++/build/_deps/dielibrary-build/src/XArchive/3rdparty/bzip2"@,
        },
        DirectiveView::SearchPath {
            kind: SearchKind::Native,
            path: "./libdie++/build/_deps/dielibrary-build/src/XArchive/3rdparty/lzma"@,
        },
        DirectiveView::SearchPath {
            kind: SearchKind::Native,
            path: "./libdie++/build/_deps/dielibrary-build/src/XArchive/3rdparty/zlib"@,
        },
    ]
}

/// The macOS-only directives: install-tree search paths, the C++ runtime,
/// the toolkit as frameworks with an embedded runtime search path when the
/// toolkit directory is known, and the bundled codecs' build directories.
pub open spec fn spec_macos_directives(toolkit_dir: Option<Seq<char>>) -> Seq<DirectiveView> {
    seq![
        DirectiveView::SearchPath { kind: SearchKind::Native, path: "./libdie++/install/die"@ },
        DirectiveView::SearchPath {
            kind: SearchKind::Native,
            path: "./libdie++/install/die/lib"@,
        },
        DirectiveView::LinkLib { kind: LinkKind::Dynamic, name: "c++"@ },
    ] + (match toolkit_dir {
        Some(p) => seq![
            DirectiveView::SearchPath { kind: SearchKind::Framework, path: p + "/"@ },
            DirectiveView::RuntimeSearchPath { path: p },
        ],
        None => Seq::empty(),
    }) + seq![
        DirectiveView::LinkLib { kind: LinkKind::Framework, name: "QtCore"@ },
        DirectiveView::LinkLib { kind: LinkKind::Framework, name: "QtQml"@ },
        DirectiveView::LinkLib { kind: LinkKind::Framework, name: "QtNetwork"@ },
        DirectiveView::SearchPath {
            kind: SearchKind::Native,
            path: "./libdie++/build/_deps/dielibrary-build/src/XCapstone"@,
        },
        DirectiveView::SearchPath {
            kind: SearchKind::Native,
            path: "./libdie++/build/_deps/dielibrary-build/src/XArchive/3rdparty/bzip2"@,
        },
        DirectiveView::SearchPath {
            kind: SearchKind::Native,
            path: "./libdie++/build/_deps/dielibrary-build/src/XArchive/3rdparty/lzma"@,
        },
        DirectiveView::SearchPath {
            kind: SearchKind::Native,
            path: "./libdie++/build/_deps/dielibrary-build/src/XArchive/3rdparty/zlib"@,
        },
    ]
}

/// The Windows-only directives: configuration-specific search paths for the
/// engine, the codecs and the disassembly library, the OS certificate/trust
/// libraries and, in a debug configuration, the debug-suffixed toolkit
/// libraries and the debug C runtime.
pub open spec fn spec_windows_directives(t: BuildTarget) -> Seq<DirectiveView> {
    let cfg = spec_config_name(t.config);
    seq![
        DirectiveView::SearchPath {
            kind: SearchKind::Native,
            path: "./libdie++/install/die/dielib"@,
        },
        DirectiveView::SearchPath { kind: SearchKind::Native, path: "./libdie++/build/"@ + cfg },
        DirectiveView::SearchPath {
            kind: SearchKind::Native,
            path: "./libdie++/build/_deps/dielibrary-build/src/dielib/"@ + cfg,
        },
        DirectiveView::SearchPath {
            kind: SearchKind::Native,
            path: "./libdie++/build/_deps/dielibrary-build/src/XArchive/3rdparty/bzip2/"@ + cfg,
        },
        DirectiveView::SearchPath {
            kind: SearchKind::Native,
            path: "./libdie++/build/_deps/dielibrary-build/src/XArchive/3rdparty/lzma/"@ + cfg,
        },
        DirectiveView::SearchPath {
            kind: SearchKind::Native,
            path: "./libdie++/build/_deps/dielibrary-build/src/XArchive/3rdparty/zlib/"@ + cfg,
        },
        DirectiveView::SearchPath {
            kind: SearchKind::Native,
            path: "./libdie++/build/_deps/dielibrary-build/src/XCapstone/"@ + cfg,
        },
        DirectiveView::LinkLib { kind: LinkKind::Dynamic, name: "Crypt32"@ },
        DirectiveView::LinkLib { kind: LinkKind::Dynamic, name: "Wintrust"@ },
    ] + (if t.config == BuildConfig::Debug {
        seq![
            DirectiveView::LinkLib { kind: LinkKind::Static, name: "Qt6Cored"@ },
            DirectiveView::LinkLib { kind: LinkKind::Static, name: "Qt6Qmld"@ },
            DirectiveView::LinkLib { kind: LinkKind::Static, name: "Qt6Networkd"@ },
            DirectiveView::LinkLib { kind: LinkKind::Dynamic, name: "Qt6Cored"@ },
            DirectiveView::LinkLib { kind: LinkKind::Dynamic, name: "Qt6Qmld"@ },
            DirectiveView::LinkLib { kind: LinkKind::Dynamic, name: "Qt6Networkd"@ },
            DirectiveView::SearchPath {
                kind: SearchKind::Native,
                path: "C:\\Program Files (x86)\\Windows Kits\\10\\Lib\\10.0.22000.0/ucrt/x64"@,
            },
            DirectiveView::LinkLib { kind: LinkKind::Static, name: "ucrtd" @ },
        ]
    } else {
        Seq::empty()
    })
}

/// The directives of the target's platform.
pub open spec fn spec_platform_directives(t: BuildTarget, toolkit_dir: Option<Seq<char>>) -> Seq<
    DirectiveView,
> {
    match t.platform {
        Platform::Linux => spec_linux_directives(),
        Platform::MacOs => spec_macos_directives(toolkit_dir),
        Platform::Windows => spec_windows_directives(t),
    }
}

/// The whole plan: the shared directives, then the platform's.
pub open spec fn spec_link_plan(t: BuildTarget, toolkit_dir: Option<Seq<char>>) -> Seq<
    DirectiveView,
> {
    spec_common_directives(t, toolkit_dir) + spec_platform_directives(t, toolkit_dir)
}

/// Appends a library directive.
fn push_lib(v: &mut Vec<Directive>, kind: LinkKind, name: &str)
    ensures
        final(v).deep_view() == old(v).deep_view().push(
            (DirectiveView::LinkLib { kind, name: name@ }),
        ),
{
    v.push(Directive::LinkLib { kind, name: name.to_owned() });
    proof {
        assert(final(v).deep_view() =~= old(v).deep_view().push(
            (DirectiveView::LinkLib { kind, name: name@ }),
        ));
    }
}

/// Appends a search-path directive.
fn push_search(v: &mut Vec<Directive>, kind: SearchKind, path: String)
    ensures
        final(v).deep_view() == old(v).deep_view().push(
            (DirectiveView::SearchPath { kind, path: path@ }),
        ),
{
    let ghost p = path@;
    v.push(Directive::SearchPath { kind, path });
    proof {
        assert(final(v).deep_view() =~= old(v).deep_view().push(
            (DirectiveView::SearchPath { kind, path: p }),
        ));
    }
}

/// Appends a runtime-search-path directive.
fn push_rpath(v: &mut Vec<Directive>, path: String)
    ensures
        final(v).deep_view() == old(v).deep_view().push(
            (DirectiveView::RuntimeSearchPath { path: path@ }),
        ),
{
    let ghost p = path@;
    v.push(Directive::RuntimeSearchPath { path });
    proof {
        assert(final(v).deep_view() =~= old(v).deep_view().push(
            (DirectiveView::RuntimeSearchPath { path: p }),
        ));
    }
}

/// Appends the directives every platform shares.
fn push_common(v: &mut Vec<Directive>, t: &BuildTarget, toolkit_lib_dir: &Option<String>)
    ensures
        final(v).deep_view() == old(v).deep_view() + spec_common_directives(
            *t,
            spec_opt_path(*toolkit_lib_dir),
        ),
{
    let ghost d = spec_opt_path(*toolkit_lib_dir);
    let ghost base = v.deep_view();
    push_lib(v, LinkKind::Static, "die++");
    push_lib(v, LinkKind::Static, "die");
    push_lib(v, LinkKind::Static, "bzip2");
    push_lib(v, LinkKind::Static, "lzma");
    push_lib(v, LinkKind::Static, "zlib");
    push_lib(v, LinkKind::Static, "capstone_x86");
    proof {
        assert(v.deep_view() =~= base + spec_engine_libs());
    }
    match toolkit_lib_dir {
        Some(p) => push_search(v, SearchKind::Native, p.clone()),
        None => (),
    }
    proof {
        assert(v.deep_view() =~= base + spec_engine_libs() + spec_toolkit_search(d));
    }
    match t.config {
        BuildConfig::Release => {
            push_lib(v, LinkKind::Static, "Qt6Core");
            push_lib(v, LinkKind::Static, "Qt6Qml");
            push_lib(v, LinkKind::Static, "Qt6Network");
            push_lib(v, LinkKind::Dynamic, "Qt6Core");
            push_lib(v, LinkKind::Dynamic, "Qt6Qml");
            push_lib(v, LinkKind::Dynamic, "Qt6Network");
        },
        BuildConfig::Debug => (),
    }
    proof {
        assert(v.deep_view() =~= (base + spec_engine_libs() + spec_toolkit_search(d))
            + spec_toolkit_modules(t.config));
        assert(v.deep_view() =~= base + spec_common_directives(*t, d));
    }
}

/// Appends the Linux-only directives.
fn push_linux(v: &mut Vec<Directive>)
    ensures
        final(v).deep_view() == old(v).deep_view() + spec_linux_directives(),
{
    let ghost base = v.deep_view();
    push_search(v, SearchKind::Native, "./libdie++/install/die".to_owned());
    push_search(v, SearchKind::Native, "./libdie++/install/die/lib".to_owned());
    push_lib(v, LinkKind::Dynamic, "stdc++");
    push_lib(v, LinkKind::Dynamic, "Qt6Core");
    push_lib(v, LinkKind::Dynamic, "Qt6Qml");
    push_lib(v, LinkKind::Dynamic, "Qt6Network");
    push_search(v, SearchKind::Native, "/usr/lib/x86_64-linux-gnu".to_owned());
    push_search(
        v,
        SearchKind::Native,
        "./libdie++/build/_deps/dielibrary-build/src/XCapstone".to_owned(),
    );
    push_search(
        v,
        SearchKind::Native,
        "./libdie++/build/_deps/dielibrary-build/src/XArchive/3rdparty/bzip2".to_owned(),
    );
    push_search(
        v,
        SearchKind::Native,
        "./libdie++/build/_deps/dielibrary-build/src/XArchive/3rdparty/lzma".to_owned(),
    );
    push_search(
        v,
        SearchKind::Native,
        "./libdie++/build/_deps/dielibrary-build/src/XArchive/3rdparty/zlib".to_owned(),
    );
    proof {
        assert(v.deep_view() =~= base + spec_linux_directives());
    }
}

/// Appends the macOS-only directives.
fn push_macos(v: &mut Vec<Directive>, toolkit_lib_dir: &Option<String>)
    ensures
        final(v).deep_view() == old(v).deep_view() + spec_macos_directives(
            spec_opt_path(*toolkit_lib_dir),
        ),
{
    let ghost base = v.deep_view();
    push_search(v, SearchKind::Native, "./libdie++/install/die".to_owned());
    push_search(v, SearchKind::Native, "./libdie++/install/die/lib".to_owned());
    push_lib(v, LinkKind::Dynamic, "c++");
    match toolkit_lib_dir {
        Some(p) => {
            push_search(v, SearchKind::Framework, p.clone().concat("/"));
            push_rpath(v, p.clone());
        },
        None => (),
    }
    push_lib(v, LinkKind::Framework, "QtCore");
    push_lib(v, LinkKind::Framework, "QtQml");
    push_lib(v, LinkKind::Framework, "QtNetwork");
    push_search(
        v,
        SearchKind::Native,
        "./libdie++/build/_deps/dielibrary-build/src/XCapstone".to_owned(),
    );
    push_search(
        v,
        SearchKind::Native,
        "./libdie++/build/_deps/dielibrary-build/src/XArchive/3rdparty/bzip2".to_owned(),
    );
    push_search(
        v,
        SearchKind::Native,
        "./libdie++/build/_deps/dielibrary-build/src/XArchive/3rdparty/lzma".to_owned(),
    );
    push_search(
        v,
        SearchKind::Native,
        "./libdie++/build/_deps/dielibrary-build/src/XArchive/3rdparty/zlib".to_owned(),
    );
    proof {
        assert(v.deep_view() =~= base + spec_macos_directives(spec_opt_path(*toolkit_lib_dir)));
    }
}

/// Appends the Windows-only directives.
fn push_windows(v: &mut Vec<Directive>, t: &BuildTarget)
    ensures
        final(v).deep_view() == old(v).deep_view() + spec_windows_directives(*t),
{
    let ghost base = v.deep_view();
    push_search(v, SearchKind::Native, "./libdie++/install/die/dielib".to_owned());
    let cfg = t.config_name();
    push_search(v, SearchKind::Native, "./libdie++/build/".to_owned().concat(cfg.as_str()));
    push_search(
        v,
        SearchKind::Native,
        "./libdie++/build/_deps/dielibrary-build/src/dielib/".to_owned().concat(cfg.as_str()),
    );
    push_search(
        v,
        SearchKind::Native,
        "./libdie++/build/_deps/dielibrary-build/src/XArchive/3rdparty/bzip2/".to_owned().concat(
            cfg.as_str(),
        ),
    );
    push_search(
        v,
        SearchKind::Native,
        "./libdie++/build/_deps/dielibrary-build/src/XArchive/3rdparty/lzma/".to_owned().concat(
            cfg.as_str(),
        ),
    );
    push_search(
        v,
        SearchKind::Native,
        "./libdie++/build/_deps/dielibrary-build/src/XArchive/3rdparty/zlib/".to_owned().concat(
            cfg.as_str(),
        ),
    );
    push_search(
        v,
        SearchKind::Native,
        "./libdie++/build/_deps/dielibrary-build/src/XCapstone/".to_owned().concat(cfg.as_str()),
    );
    push_lib(v, LinkKind::Dynamic, "Crypt32");
    push_lib(v, LinkKind::Dynamic, "Wintrust");
    match t.config {
        BuildConfig::Debug => {
            push_lib(v, LinkKind::Static, "Qt6Cored");
            push_lib(v, LinkKind::Static, "Qt6Qmld");
            push_lib(v, LinkKind::Static, "Qt6Networkd");
            push_lib(v, LinkKind::Dynamic, "Qt6Cored");
            push_lib(v, LinkKind::Dynamic, "Qt6Qmld");
            push_lib(v, LinkKind::Dynamic, "Qt6Networkd");
            push_search(
                v,
                SearchKind::Native,
                "C:\\Program Files (x86)\\Windows Kits\\10\\Lib\\10.0.22000.0/ucrt/x64".to_owned(),
            );
            push_lib(v, LinkKind::Static, "ucrtd");
        },
        BuildConfig::Release => (),
    }
    proof {
        assert(v.deep_view() =~= base + spec_windows_directives(*t));
    }
}

/// Derives the link plan for a target, directive for directive as
/// [`spec_link_plan`] states it.
///
/// `toolkit_lib_dir` is the toolkit's library directory when one is known —
/// from the environment or from a completed acquisition; when absent, the
/// toolkit search paths are simply left out.
pub fn compute_link_plan(t: &BuildTarget, toolkit_lib_dir: &Option<String>) -> (r: LinkPlan)
    ensures
        r.deep_view() == spec_link_plan(*t, spec_opt_path(*toolkit_lib_dir)),
{
    let ghost d = spec_opt_path(*toolkit_lib_dir);
    let mut v: Vec<Directive> = Vec::new();
    push_common(&mut v, t, toolkit_lib_dir);
    proof {
        assert(v.deep_view() =~= spec_common_directives(*t, d));
    }
    match t.platform {
        Platform::Linux => push_linux(&mut v),
        Platform::MacOs => push_macos(&mut v, toolkit_lib_dir),
        Platform::Windows => push_windows(&mut v, t),
    }
    v
}

/// Determinism of the plan, stated explicitly for reruns: two plans computed
/// for the same target and toolkit directory are the same, directive for
/// directive.
pub proof fn lemma_identical_plans(
    t: BuildTarget,
    toolkit_dir: Option<Seq<char>>,
    p1: Seq<DirectiveView>,
    p2: Seq<DirectiveView>,
)
    requires
        p1 == spec_link_plan(t, toolkit_dir),
        p2 == spec_link_plan(t, toolkit_dir),
    ensures
        p1 == p2,
{
}

} // verus!
