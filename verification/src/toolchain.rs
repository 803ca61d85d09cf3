//! Locating and setting up the SBF build toolchain (`cargo-build-sbf`).
//!
//! The toolchain is looked for in three places, in order: a copy bundled with
//! the application, the search path, and the default per-user install
//! location. When it is missing, a one-time set-up installs it (on Windows).
//! The file-system probes, the search-path lookup and the processes are run by
//! the caller; the decisions are made here.

use vstd::prelude::*;
use vstd::string::StringExecFns;
use crate::path::{
    ProgramPath, PathView, join_spec, parent_spec, render_spec, opt_path, paths_view, is_subfolder,
    file_name_spec,
};
use crate::text::{decimal, decimal_spec, first_line_trimmed, first_line_spec, trim_spec, unit_result, prefixed};

verus! {

/// The file name of the SBF compiler driver on Windows.
pub const EXE_WINDOWS: &'static str = "cargo-build-sbf.exe";

/// The file name of the SBF compiler driver elsewhere.
pub const EXE_OTHER: &'static str = "cargo-build-sbf";

/// The file name of the host `cargo` on Windows.
pub const HOST_CARGO_WINDOWS: &'static str = "cargo.exe";

/// The file name of the host `cargo` elsewhere.
pub const HOST_CARGO_OTHER: &'static str = "cargo";

/// The name looked up on the search path.
pub const SEARCH_NAME: &'static str = "cargo-build-sbf";

/// The file name of the compiler driver for the platform.
pub open spec fn exe_spec(windows: bool) -> Seq<char> {
    if windows { EXE_WINDOWS@ } else { EXE_OTHER@ }
}

/// The file name of the compiler driver for the platform.
pub fn exe_name(windows: bool) -> (res: &'static str)
    ensures
        res@ == exe_spec(windows),
{
    if windows { EXE_WINDOWS } else { EXE_OTHER }
}

/// The file name of the host `cargo` for the platform.
pub open spec fn host_cargo_spec(windows: bool) -> Seq<char> {
    if windows { HOST_CARGO_WINDOWS@ } else { HOST_CARGO_OTHER@ }
}

/// The file name of the host `cargo` for the platform.
pub fn host_cargo_name(windows: bool) -> (res: &'static str)
    ensures
        res@ == host_cargo_spec(windows),
{
    if windows { HOST_CARGO_WINDOWS } else { HOST_CARGO_OTHER }
}

/// Availability, location and version of the toolchain, as reported to the
/// user interface.
#[derive(Debug, PartialEq, Eq)]
pub struct ToolchainInfo {
    pub available: bool,
    pub path: Option<String>,
    pub version: Option<String>,
}

/// The bundled compiler driver:
/// `<resources>/resources/platform-tools/bin/<exe>`.
pub open spec fn bundled_tool_spec(resource_dir: PathView, windows: bool) -> PathView {
    join_spec(
        join_spec(join_spec(join_spec(resource_dir, "resources"@), "platform-tools"@), "bin"@),
        exe_spec(windows),
    )
}

/// The bundled compiler driver inside the application's resource folder.
pub fn bundled_tool(resource_dir: &ProgramPath, windows: bool) -> (res: ProgramPath)
    ensures
        res@ == bundled_tool_spec(resource_dir@, windows),
{
    resource_dir.join("resources").join("platform-tools").join("bin").join(exe_name(windows))
}

/// The default per-user install roots: `<home>/.local/share/solana/install/active_release`
/// when a home folder is known, none otherwise.
pub open spec fn install_roots_spec(home: Option<PathView>) -> Seq<PathView> {
    match home {
        Some(h) => seq![
            join_spec(
                join_spec(
                    join_spec(join_spec(join_spec(h, ".local"@), "share"@), "solana"@),
                    "install"@,
                ),
                "active_release"@,
            ),
        ],
        None => Seq::empty(),
    }
}

/// The default per-user install roots for the given home folder.
pub fn default_install_roots(home: Option<&ProgramPath>) -> (res: Vec<ProgramPath>)
    ensures
        paths_view(res@) == install_roots_spec(
            match home {
                Some(h) => Some(h@),
                None => None,
            },
        ),
{
    let mut roots: Vec<ProgramPath> = Vec::new();
    if let Some(h) = home {
        roots.push(
            h.join(".local").join("share").join("solana").join("install").join("active_release"),
        );
    }
    assert(paths_view(roots@) =~= install_roots_spec(
        match home {
            Some(h) => Some(h@),
            None => None,
        },
    ));
    roots
}

/// The home folder: `USERPROFILE` when it is set, else `HOME`.
pub fn home_dir(user_profile: Option<ProgramPath>, home: Option<ProgramPath>) -> (res: Option<
    ProgramPath,
>)
    ensures
        opt_path(res) == (if user_profile is Some {
            opt_path(user_profile)
        } else {
            opt_path(home)
        }),
{
    match user_profile {
        Some(p) => Some(p),
        None => home,
    }
}

/// The compiler driver inside an install root: `<root>/bin/<exe>`.
pub open spec fn root_tool_spec(root: PathView, windows: bool) -> PathView {
    join_spec(join_spec(root, "bin"@), exe_spec(windows))
}

/// The compiler driver inside an install root.
pub fn root_tool(root: &ProgramPath, windows: bool) -> (res: ProgramPath)
    ensures
        res@ == root_tool_spec(root@, windows),
{
    root.join("bin").join(exe_name(windows))
}

/// The first install root whose compiler driver is a file, as that driver's path.
pub open spec fn first_root_tool(
    roots: Seq<PathView>,
    is_file: Seq<bool>,
    windows: bool,
) -> Option<PathView>
    decreases roots.len(),
{
    if roots.len() == 0 || is_file.len() == 0 {
        None
    } else if is_file[0] {
        Some(root_tool_spec(roots[0], windows))
    } else {
        first_root_tool(roots.drop_first(), is_file.drop_first(), windows)
    }
}

/// The toolchain that is used: the bundled driver when the resource folder is
/// known and the driver is a file there; else the one found on the search
/// path; else the driver of the first default install root where it is a file.
pub open spec fn resolve_spec(
    resource_dir: Option<PathView>,
    bundled_is_file: bool,
    on_search_path: Option<PathView>,
    home: Option<PathView>,
    root_tools_are_files: Seq<bool>,
    windows: bool,
) -> Option<PathView> {
    if resource_dir is Some && bundled_is_file {
        Some(bundled_tool_spec(resource_dir->0, windows))
    } else if on_search_path is Some {
        on_search_path
    } else {
        first_root_tool(install_roots_spec(home), root_tools_are_files, windows)
    }
}

/// Chooses the toolchain from the lookups: whether the bundled driver is a
/// file, what the search-path lookup found, and, for each default install
/// root in order, whether its driver is a file.
pub fn resolve(
    resource_dir: Option<&ProgramPath>,
    bundled_is_file: bool,
    on_search_path: Option<ProgramPath>,
    home: Option<&ProgramPath>,
    root_tools_are_files: &Vec<bool>,
    windows: bool,
) -> (res: Option<ProgramPath>)
    ensures
        opt_path(res) == resolve_spec(
            match resource_dir {
                Some(r) => Some(r@),
                None => None,
            },
            bundled_is_file,
            opt_path(on_search_path),
            match home {
                Some(h) => Some(h@),
                None => None,
            },
            root_tools_are_files@,
            windows,
        ),
{
    if let Some(r) = resource_dir {
        if bundled_is_file {
            return Some(bundled_tool(r, windows));
        }
    }
    if on_search_path.is_some() {
        return on_search_path;
    }
    let roots = default_install_roots(home);
    let ghost roots_view = paths_view(roots@);
    let n = roots.len();
    let mut i: usize = 0;
    assert(roots_view.subrange(0, n as int) =~= roots_view);
    assert(root_tools_are_files@.subrange(0, root_tools_are_files@.len() as int)
        =~= root_tools_are_files@);
    while i < n && i < root_tools_are_files.len()
        invariant
            n == roots@.len(),
            i <= n,
            roots_view == paths_view(roots@),
            on_search_path is None,
            roots_view == install_roots_spec(
                match home {
                    Some(h) => Some(h@),
                    None => None,
                },
            ),
            !(resource_dir is Some && bundled_is_file),
            first_root_tool(roots_view, root_tools_are_files@, windows) == first_root_tool(
                roots_view.subrange(i as int, n as int),
                root_tools_are_files@.subrange(i as int, root_tools_are_files@.len() as int),
                windows,
            ),
        decreases n - i,
    {
        assert(roots_view.subrange(i as int, n as int).drop_first() =~= roots_view.subrange(
            i + 1,
            n as int,
        ));
        assert(root_tools_are_files@.subrange(
            i as int,
            root_tools_are_files@.len() as int,
        ).drop_first() =~= root_tools_are_files@.subrange(
            i + 1,
            root_tools_are_files@.len() as int,
        ));
        if root_tools_are_files[i] {
            assert(roots_view.subrange(i as int, n as int)[0] == roots@[i as int]@);
            assert(root_tools_are_files@.subrange(
                i as int,
                root_tools_are_files@.len() as int,
            )[0]);
            return Some(root_tool(&roots[i], windows));
        }
        i = i + 1;
    }
    None
}

/// The folder that holds the compiler driver, which is put first on the
/// search path so that its sibling tools are found (`Path::parent`).
pub fn bin_dir(tool: &ProgramPath) -> (res: Option<ProgramPath>)
    ensures
        opt_path(res) == parent_spec(tool@),
{
    tool.parent()
}

/// The report on the toolchain: available with its rendered path and the
/// first line of its version output, trimmed, when a toolchain was found;
/// unavailable otherwise.
pub open spec fn info_spec(
    tool: Option<PathView>,
    version_output: Option<Seq<char>>,
) -> (bool, Option<Seq<char>>, Option<Seq<char>>) {
    match tool {
        Some(t) => (
            true,
            Some(render_spec(t)),
            match version_output {
                Some(out) => match first_line_spec(out) {
                    Some(line) => Some(trim_spec(line)),
                    None => None,
                },
                None => None,
            },
        ),
        None => (false, None, None),
    }
}

/// The view of an optional string.
pub open spec fn opt_text(s: Option<String>) -> Option<Seq<char>> {
    match s {
        Some(t) => Some(t@),
        None => None,
    }
}

/// Builds the toolchain report from the toolchain that was found, if any,
/// and the standard output of its `--version` run, if that run could be made.
pub fn info(tool: Option<&ProgramPath>, version_output: Option<&str>) -> (res:
    ToolchainInfo)
    ensures
        (res.available, opt_text(res.path), opt_text(res.version)) == info_spec(
            match tool {
                Some(t) => Some(t@),
                None => None,
            },
            match version_output {
                Some(o) => Some(o@),
                None => None,
            },
        ),
{
    match tool {
        Some(t) => {
            let version = match version_output {
                Some(out) => first_line_trimmed(out),
                None => None,
            };
            ToolchainInfo { available: true, path: Some(t.render()), version }
        },
        None => ToolchainInfo { available: false, path: None, version: None },
    }
}


/// Reported when the toolchain is already present and only needs warming up.
pub const FOUND_MESSAGE: &'static str = "SBF toolchain found — fetching the compiler (platform-tools) if needed…";

/// Reported once the set-up has installed the toolchain.
pub const COMPLETE_MESSAGE: &'static str = "Setup complete. You can now convert contracts.";

/// The error when the set-up ran and the toolchain is still not found.
pub const STILL_MISSING_ERROR: &'static str = "Setup ran but cargo-build-sbf was still not found. Please close and reopen PexliFormation, then try again.";

/// The error when the toolchain is missing on a platform without automatic set-up.
pub const WINDOWS_ONLY_ERROR: &'static str = "Automatic setup is currently implemented for Windows only.";

/// What precedes the reason when the set-up script cannot be written.
pub const SCRIPT_WRITE_ERROR: &'static str = "Cannot write setup script: ";

/// Reported when the set-up starts.
pub const SETUP_START_MESSAGE: &'static str = "Starting one-time SBF toolchain setup…";

/// Reported right after, while the set-up downloads.
pub const SETUP_WAIT_MESSAGE: &'static str = "This downloads the Rust + SBF compiler once (a few hundred MB). Please wait.";

/// What precedes the reason when the set-up process cannot be started.
pub const SETUP_SPAWN_ERROR: &'static str = "Failed to start setup process: ";

/// The error when the set-up cannot be started.
pub fn setup_spawn_error(reason: &str) -> (res: String)
    ensures
        res@ == SETUP_SPAWN_ERROR@ + reason@,
{
    prefixed(SETUP_SPAWN_ERROR, reason)
}

/// The error text of a set-up process that exited unsuccessfully.
pub open spec fn setup_exit_error_spec(code: Option<i32>) -> Seq<char> {
    "Setup exited with code "@ + decimal_spec(
        match code {
            Some(c) => c as int,
            None => -1,
        },
    ) + " — see the log above."@
}

/// The outcome of the set-up process from its exit status: success when the
/// process succeeded, otherwise an error naming its exit code (or -1 when it
/// has none).
pub fn setup_exit_result(success: bool, code: Option<i32>) -> (res: Result<(), String>)
    ensures
        unit_result(res) == (if success {
            Ok(())
        } else {
            Err(setup_exit_error_spec(code))
        }),
{
    if success {
        Ok(())
    } else {
        let c: i32 = match code {
            Some(c) => c,
            None => -1,
        };
        let mut msg = "Setup exited with code ".to_owned();
        let digits = decimal(c);
        msg.append(digits.as_str());
        msg.append(" — see the log above.");
        Err(msg)
    }
}

/// Where the one-click set-up stands.
#[derive(Debug, PartialEq, Eq, Structural, Clone, Copy)]
pub enum InstallStage {
    /// Waiting for the first toolchain lookup.
    FirstLookup,
    /// Waiting for the set-up script to be written.
    WritingScript,
    /// Waiting for the set-up script to finish.
    RunningSetup,
    /// Waiting for the lookup after the set-up.
    SecondLookup,
    /// Finished; nothing more is expected.
    Done,
}

/// The one-click set-up of the toolchain.
#[derive(Debug, Clone, Copy)]
pub struct InstallFlow {
    pub stage: InstallStage,
    /// Whether the automatic set-up is available (it is on Windows).
    pub windows: bool,
}

/// What the caller reports back after carrying out an action.
#[derive(Debug, PartialEq, Eq)]
pub enum InstallEvent {
    /// The outcome of a toolchain lookup.
    Resolved(Option<ProgramPath>),
    /// The outcome of writing the set-up script.
    ScriptWritten(Result<(), String>),
    /// The outcome of running the set-up script.
    SetupFinished(Result<(), String>),
}

/// What the caller is asked to do, in order.
#[derive(Debug, PartialEq, Eq)]
pub enum InstallAction {
    /// Look the toolchain up; report `Resolved`.
    Resolve,
    /// Show a line in the log.
    Emit(String),
    /// Run the driver once with `--version` so that it fetches its compiler;
    /// its outcome is not reported.
    Warmup(ProgramPath),
    /// Write the set-up script to its temporary file; report `ScriptWritten`.
    WriteSetupScript,
    /// Run the set-up script and stream its output; report `SetupFinished`.
    RunSetupScript,
    /// The set-up is over, with this outcome.
    Finish(Result<(), String>),
}

/// The mathematical value of an [`InstallEvent`].
pub enum InstallEventView {
    Resolved(Option<PathView>),
    ScriptWritten(Result<(), Seq<char>>),
    SetupFinished(Result<(), Seq<char>>),
}

/// The mathematical value of an [`InstallAction`].
pub enum InstallActionView {
    Resolve,
    Emit(Seq<char>),
    Warmup(PathView),
    WriteSetupScript,
    RunSetupScript,
    Finish(Result<(), Seq<char>>),
}

impl View for InstallEvent {
    type V = InstallEventView;

    open spec fn view(&self) -> InstallEventView {
        match self {
            InstallEvent::Resolved(t) => InstallEventView::Resolved(opt_path(*t)),
            InstallEvent::ScriptWritten(r) => InstallEventView::ScriptWritten(unit_result(*r)),
            InstallEvent::SetupFinished(r) => InstallEventView::SetupFinished(unit_result(*r)),
        }
    }
}

impl View for InstallAction {
    type V = InstallActionView;

    open spec fn view(&self) -> InstallActionView {
        match self {
            InstallAction::Resolve => InstallActionView::Resolve,
            InstallAction::Emit(m) => InstallActionView::Emit(m@),
            InstallAction::Warmup(t) => InstallActionView::Warmup(t@),
            InstallAction::WriteSetupScript => InstallActionView::WriteSetupScript,
            InstallAction::RunSetupScript => InstallActionView::RunSetupScript,
            InstallAction::Finish(r) => InstallActionView::Finish(unit_result(*r)),
        }
    }
}

/// The views of a list of set-up actions.
pub open spec fn install_actions_view(v: Seq<InstallAction>) -> Seq<InstallActionView> {
    v.map_values(|a: InstallAction| a@)
}

/// Whether the set-up, at this stage, expects this kind of event.
pub open spec fn install_accepts(stage: InstallStage, e: InstallEventView) -> bool {
    match stage {
        InstallStage::FirstLookup | InstallStage::SecondLookup => e is Resolved,
        InstallStage::WritingScript => e is ScriptWritten,
        InstallStage::RunningSetup => e is SetupFinished,
        InstallStage::Done => false,
    }
}

/// The set-up's next stage and actions after an event it expects.
///
/// A toolchain found at the first lookup is warmed up and the set-up is done.
/// A missing one is installed on Windows (write the script, announce, run it,
/// look again) and reported as unsupported elsewhere. Any failure ends the
/// set-up with that failure.
pub open spec fn install_next(f: InstallFlow, e: InstallEventView) -> (InstallStage, Seq<
    InstallActionView,
>) {
    match (f.stage, e) {
        (InstallStage::FirstLookup, InstallEventView::Resolved(Some(t))) => (
            InstallStage::Done,
            seq![
                InstallActionView::Emit(FOUND_MESSAGE@),
                InstallActionView::Warmup(t),
                InstallActionView::Finish(Ok(())),
            ],
        ),
        (InstallStage::FirstLookup, InstallEventView::Resolved(None)) => if f.windows {
            (InstallStage::WritingScript, seq![InstallActionView::WriteSetupScript])
        } else {
            (
                InstallStage::Done,
                seq![InstallActionView::Finish(Err(WINDOWS_ONLY_ERROR@))],
            )
        },
        (InstallStage::WritingScript, InstallEventView::ScriptWritten(Err(reason))) => (
            InstallStage::Done,
            seq![InstallActionView::Finish(Err(SCRIPT_WRITE_ERROR@ + reason))],
        ),
        (InstallStage::WritingScript, InstallEventView::ScriptWritten(Ok(()))) => (
            InstallStage::RunningSetup,
            seq![
                InstallActionView::Emit(SETUP_START_MESSAGE@),
                InstallActionView::Emit(SETUP_WAIT_MESSAGE@),
                InstallActionView::RunSetupScript,
            ],
        ),
        (InstallStage::RunningSetup, InstallEventView::SetupFinished(Err(reason))) => (
            InstallStage::Done,
            seq![InstallActionView::Finish(Err(reason))],
        ),
        (InstallStage::RunningSetup, InstallEventView::SetupFinished(Ok(()))) => (
            InstallStage::SecondLookup,
            seq![InstallActionView::Resolve],
        ),
        (InstallStage::SecondLookup, InstallEventView::Resolved(Some(t))) => (
            InstallStage::Done,
            seq![
                InstallActionView::Warmup(t),
                InstallActionView::Emit(COMPLETE_MESSAGE@),
                InstallActionView::Finish(Ok(())),
            ],
        ),
        (InstallStage::SecondLookup, InstallEventView::Resolved(None)) => (
            InstallStage::Done,
            seq![InstallActionView::Finish(Err(STILL_MISSING_ERROR@))],
        ),
        _ => (f.stage, Seq::empty()),
    }
}

/// Starts the one-click set-up: the first thing to do is to look the
/// toolchain up.
pub fn install_begin(windows: bool) -> (res: (InstallFlow, Vec<InstallAction>))
    ensures
        res.0 == (InstallFlow { stage: InstallStage::FirstLookup, windows }),
        install_actions_view(res.1@) == seq![InstallActionView::Resolve],
{
    let actions = vec![InstallAction::Resolve];
    assert(install_actions_view(actions@) =~= seq![InstallActionView::Resolve]);
    (InstallFlow { stage: InstallStage::FirstLookup, windows }, actions)
}

/// Advances the one-click set-up by one event and returns the actions to
/// carry out next, in order.
pub fn install(flow: &mut InstallFlow, event: InstallEvent) -> (actions: Vec<InstallAction>)
    requires
        install_accepts(old(flow).stage, event@),
    ensures
        final(flow).windows == old(flow).windows,
        (final(flow).stage, install_actions_view(actions@)) == install_next(*old(flow), event@),
{
    let ghost f0 = *flow;
    let ghost ev = event@;
    let mut actions: Vec<InstallAction> = Vec::new();
    match event {
        InstallEvent::Resolved(Some(t)) => {
            if flow.stage == InstallStage::FirstLookup {
                actions.push(InstallAction::Emit(FOUND_MESSAGE.to_owned()));
                actions.push(InstallAction::Warmup(t));
                actions.push(InstallAction::Finish(Ok(())));
            } else {
                actions.push(InstallAction::Warmup(t));
                actions.push(InstallAction::Emit(COMPLETE_MESSAGE.to_owned()));
                actions.push(InstallAction::Finish(Ok(())));
            }
            flow.stage = InstallStage::Done;
        },
        InstallEvent::Resolved(None) => {
            if flow.stage == InstallStage::FirstLookup {
                if flow.windows {
                    actions.push(InstallAction::WriteSetupScript);
                    flow.stage = InstallStage::WritingScript;
                } else {
                    actions.push(InstallAction::Finish(Err(WINDOWS_ONLY_ERROR.to_owned())));
                    flow.stage = InstallStage::Done;
                }
            } else {
                actions.push(InstallAction::Finish(Err(STILL_MISSING_ERROR.to_owned())));
                flow.stage = InstallStage::Done;
            }
        },
        InstallEvent::ScriptWritten(Err(reason)) => {
            actions.push(
                InstallAction::Finish(Err(prefixed(SCRIPT_WRITE_ERROR, reason.as_str()))),
            );
            flow.stage = InstallStage::Done;
        },
        InstallEvent::ScriptWritten(Ok(())) => {
            actions.push(InstallAction::Emit(SETUP_START_MESSAGE.to_owned()));
            actions.push(InstallAction::Emit(SETUP_WAIT_MESSAGE.to_owned()));
            actions.push(InstallAction::RunSetupScript);
            flow.stage = InstallStage::RunningSetup;
        },
        InstallEvent::SetupFinished(Err(reason)) => {
            actions.push(InstallAction::Finish(Err(reason)));
            flow.stage = InstallStage::Done;
        },
        InstallEvent::SetupFinished(Ok(())) => {
            actions.push(InstallAction::Resolve);
            flow.stage = InstallStage::SecondLookup;
        },
    }
    assert(install_actions_view(actions@) =~= install_next(f0, ev).1);
    actions
}


/// The set-up driven through a sequence of events: the final flow and every
/// action asked for on the way, or `None` when an event comes that the
/// set-up does not expect at that point.
pub open spec fn install_run(f: InstallFlow, events: Seq<InstallEventView>) -> Option<
    (InstallFlow, Seq<InstallActionView>),
>
    decreases events.len(),
{
    if events.len() == 0 {
        Some((f, Seq::empty()))
    } else if !install_accepts(f.stage, events[0]) {
        None
    } else {
        let (stage, acts) = install_next(f, events[0]);
        match install_run(InstallFlow { stage, windows: f.windows }, events.drop_first()) {
            Some((g, rest)) => Some((g, acts + rest)),
            None => None,
        }
    }
}

/// Whether a set-up action writes or runs the set-up script.
pub open spec fn is_setup_work(a: InstallActionView) -> bool {
    a is WriteSetupScript || a is RunSetupScript
}

/// A finished set-up accepts no further event.
pub proof fn install_done_is_final(windows: bool, events: Seq<InstallEventView>)
    requires
        events.len() > 0,
    ensures
        install_run(InstallFlow { stage: InstallStage::Done, windows }, events) is None,
{
}

/// When the first lookup finds the toolchain, the set-up script is never
/// written or run, and the set-up ends successfully.
pub proof fn install_found_toolchain_is_not_reinstalled(
    windows: bool,
    tool: PathView,
    events: Seq<InstallEventView>,
)
    requires
        events.len() > 0,
        events[0] == InstallEventView::Resolved(Some(tool)),
        install_run(InstallFlow { stage: InstallStage::FirstLookup, windows }, events) is Some,
    ensures
        ({
            let (g, acts) = install_run(
                InstallFlow { stage: InstallStage::FirstLookup, windows },
                events,
            )->0;
            &&& g.stage == InstallStage::Done
            &&& forall|i: int| 0 <= i < acts.len() ==> !is_setup_work(#[trigger] acts[i])
            &&& acts.last() == InstallActionView::Finish(Ok(()))
        }),
{
    let rest = events.drop_first();
    let g = InstallFlow { stage: InstallStage::Done, windows };
    if rest.len() > 0 {
        install_done_is_final(windows, rest);
    }
    assert(rest.len() == 0);
    assert(install_run(g, rest) == Some((g, Seq::<InstallActionView>::empty())));
    let acts = (install_run(InstallFlow { stage: InstallStage::FirstLookup, windows }, events)->0).1;
    assert(acts =~= seq![
        InstallActionView::Emit(FOUND_MESSAGE@),
        InstallActionView::Warmup(tool),
        InstallActionView::Finish(Ok(())),
    ]);
}

/// Off Windows the set-up script is never written or run: a missing
/// toolchain is reported as an error.
pub proof fn install_off_windows_never_runs_setup(events: Seq<InstallEventView>)
    requires
        install_run(InstallFlow { stage: InstallStage::FirstLookup, windows: false }, events) is Some,
    ensures
        ({
            let acts = (install_run(
                InstallFlow { stage: InstallStage::FirstLookup, windows: false },
                events,
            )->0).1;
            forall|i: int| 0 <= i < acts.len() ==> !is_setup_work(#[trigger] acts[i])
        }),
{
    if events.len() > 0 {
        let rest = events.drop_first();
        if rest.len() > 0 {
            install_done_is_final(false, rest);
        }
        let acts = (install_run(
            InstallFlow { stage: InstallStage::FirstLookup, windows: false },
            events,
        )->0).1;
        match events[0] {
            InstallEventView::Resolved(Some(t)) => {
                assert(acts =~= seq![
                    InstallActionView::Emit(FOUND_MESSAGE@),
                    InstallActionView::Warmup(t),
                    InstallActionView::Finish(Ok(())),
                ]);
            },
            _ => {
                assert(acts =~= seq![InstallActionView::Finish(Err(WINDOWS_ONLY_ERROR@))]);
            },
        }
    }
}

/// The most events that a set-up at this stage can still take.
pub open spec fn install_events_left(stage: InstallStage) -> nat {
    match stage {
        InstallStage::FirstLookup => 4,
        InstallStage::WritingScript => 3,
        InstallStage::RunningSetup => 2,
        InstallStage::SecondLookup => 1,
        InstallStage::Done => 0,
    }
}

/// Every set-up that is driven to its end finishes exactly once, with its
/// last action, and a set-up takes at most four events from its start.
pub proof fn install_finishes_once(f: InstallFlow, events: Seq<InstallEventView>)
    requires
        install_run(f, events) is Some,
        f.stage != InstallStage::Done,
    ensures
        ({
            let (g, acts) = install_run(f, events)->0;
            &&& g.stage == InstallStage::Done ==> acts.len() > 0 && acts.last() is Finish
            &&& forall|i: int| 0 <= i < acts.len() - 1 ==> !(#[trigger] acts[i] is Finish)
            &&& g.stage != InstallStage::Done ==> forall|i: int| 0 <= i < acts.len() ==> !(
            #[trigger] acts[i] is Finish)
            &&& events.len() <= install_events_left(f.stage)
        }),
    decreases events.len(),
{
    if events.len() > 0 {
        let (stage, acts) = install_next(f, events[0]);
        let g = InstallFlow { stage, windows: f.windows };
        let rest = events.drop_first();
        let all = (install_run(f, events)->0).1;
        if stage == InstallStage::Done {
            if rest.len() > 0 {
                install_done_is_final(f.windows, rest);
            }
            assert(all =~= acts);
        } else {
            install_finishes_once(g, rest);
            let tail = (install_run(g, rest)->0).1;
            assert(all =~= acts + tail);
            assert forall|i: int| 0 <= i < acts.len() implies !(#[trigger] all[i] is Finish) by {
                assert(all[i] == acts[i]);
            }
            assert forall|i: int| acts.len() <= i < all.len() implies all[i] == tail[i
                - acts.len()] by {}
        }
    }
}


/// How deep the search for the bundled host `cargo` goes below the
/// platform-tools folder.
pub const HOST_SEARCH_DEPTH: usize = 8;

/// A folder as seen by the search for a file: whether the file is directly
/// in it, and its sub-folders in listing order. The search looks no deeper
/// than it is asked to, so a folder it will not enter need not be listed, and
/// one that holds the file need not list its sub-folders; a folder that
/// cannot be listed has none.
#[derive(Debug)]
pub struct DirTree {
    pub dir: ProgramPath,
    pub has_file: bool,
    pub subdirs: Vec<DirTree>,
}

/// The first folder, searching the given folders in order and each one
/// before its sub-folders, that directly holds the file, going at most
/// `depth` levels down (a folder is searched at depth 1 or more).
pub open spec fn first_found(forest: Seq<DirTree>, depth: nat) -> Option<PathView>
    decreases depth, forest.len(),
{
    if forest.len() == 0 || depth == 0 {
        None
    } else {
        let t = forest[0];
        let here = if t.has_file {
            Some(t.dir@)
        } else {
            first_found(t.subdirs@, (depth - 1) as nat)
        };
        if here is Some {
            here
        } else {
            first_found(forest.drop_first(), depth)
        }
    }
}

/// The folder within `tree`, at most `depth` levels down, that holds the
/// file (`find_dir_with`).
pub open spec fn find_dir_spec(tree: DirTree, depth: nat) -> Option<PathView> {
    first_found(seq![tree], depth)
}

/// Whether a folder of `forest`, at most `depth` levels down (a folder of
/// the forest itself being one level down), is `d` and directly holds the
/// file.
pub open spec fn holds_within(forest: Seq<DirTree>, depth: nat, d: PathView) -> bool
    decreases depth, forest.len(),
{
    if forest.len() == 0 || depth == 0 {
        false
    } else {
        ||| forest[0].has_file && forest[0].dir@ == d
        ||| holds_within(forest[0].subdirs@, (depth - 1) as nat, d)
        ||| holds_within(forest.drop_first(), depth, d)
    }
}

/// The search of a forest finds a folder exactly when one of its folders
/// within reach holds the file, and the folder it finds is one of those.
pub proof fn first_found_holds_file(forest: Seq<DirTree>, depth: nat, d: PathView)
    ensures
        first_found(forest, depth) == Some(d) ==> holds_within(forest, depth, d),
        holds_within(forest, depth, d) ==> first_found(forest, depth) is Some,
    decreases depth, forest.len(),
{
    if forest.len() > 0 && depth > 0 {
        first_found_holds_file(forest[0].subdirs@, (depth - 1) as nat, d);
        first_found_holds_file(forest.drop_first(), depth, d);
    }
}

/// The search of a folder tree finds a folder exactly when some folder of
/// the tree, at most `depth` levels down, holds the file, and the folder it
/// finds is one that holds it.
pub proof fn find_dir_finds_holder(tree: DirTree, depth: nat, d: PathView)
    ensures
        find_dir_spec(tree, depth) == Some(d) ==> holds_within(seq![tree], depth, d),
        holds_within(seq![tree], depth, d) ==> find_dir_spec(tree, depth) is Some,
{
    first_found_holds_file(seq![tree], depth, d);
}

/// Whether the folders of `forest` are sub-folders of `parent`, and so on
/// below them, as far down as a search with this depth looks.
pub open spec fn forest_wf(forest: Seq<DirTree>, parent: PathView, depth: nat) -> bool
    decreases depth, forest.len(),
{
    if forest.len() == 0 || depth == 0 {
        true
    } else {
        &&& is_subfolder(forest[0].dir@, parent)
        &&& forest_wf(forest[0].subdirs@, forest[0].dir@, (depth - 1) as nat)
        &&& forest_wf(forest.drop_first(), parent, depth)
    }
}

/// Whether a folder tree records each sub-folder as its parent with one more
/// name, as far down as a search with this depth looks.
pub open spec fn tree_wf(tree: DirTree, depth: nat) -> bool {
    depth == 0 || forest_wf(tree.subdirs@, tree.dir@, (depth - 1) as nat)
}

/// Whether `d` is `root` or lies below it, fewer than `depth` levels down.
pub open spec fn lies_within(d: PathView, root: PathView, depth: nat) -> bool {
    &&& root.parts.len() <= d.parts.len() < root.parts.len() + depth
    &&& d.parts.take(root.parts.len() as int) == root.parts
}

/// A folder found among well-recorded sub-folders of `parent` lies below
/// `parent`, at most `depth` levels down.
pub proof fn lemma_found_below(forest: Seq<DirTree>, parent: PathView, depth: nat)
    requires
        forest_wf(forest, parent, depth),
    ensures
        first_found(forest, depth) matches Some(d) ==> {
            &&& parent.parts.len() < d.parts.len() <= parent.parts.len() + depth
            &&& d.parts.take(parent.parts.len() as int) == parent.parts
        },
    decreases depth, forest.len(),
{
    if forest.len() > 0 && depth > 0 {
        let t = forest[0];
        if !t.has_file {
            lemma_found_below(t.subdirs@, t.dir@, (depth - 1) as nat);
            if let Some(d) = first_found(t.subdirs@, (depth - 1) as nat) {
                assert(d.parts.take(parent.parts.len() as int) =~= d.parts.take(
                    t.dir@.parts.len() as int,
                ).take(parent.parts.len() as int));
            }
        }
        lemma_found_below(forest.drop_first(), parent, depth);
    }
}

fn search_forest(forest: &Vec<DirTree>, depth: usize) -> (res: Option<ProgramPath>)
    ensures
        opt_path(res) == first_found(forest@, depth as nat),
    decreases depth,
{
    if depth == 0 {
        return None;
    }
    let n = forest.len();
    let mut i: usize = 0;
    assert(forest@.subrange(0, n as int) =~= forest@);
    while i < n
        invariant
            0 < depth,
            i <= n,
            n == forest@.len(),
            first_found(forest@, depth as nat) == first_found(
                forest@.subrange(i as int, n as int),
                depth as nat,
            ),
        decreases n - i,
    {
        let t = &forest[i];
        assert(forest@.subrange(i as int, n as int)[0] == forest@[i as int]);
        assert(forest@.subrange(i as int, n as int).drop_first() =~= forest@.subrange(
            i + 1,
            n as int,
        ));
        if t.has_file {
            return Some(t.dir.duplicate());
        }
        let below = search_forest(&t.subdirs, depth - 1);
        if below.is_some() {
            return below;
        }
        i = i + 1;
    }
    None
}

fn forest_is_wf(forest: &Vec<DirTree>, parent: &ProgramPath, depth: usize) -> (res: bool)
    ensures
        res == forest_wf(forest@, parent@, depth as nat),
    decreases depth,
{
    if depth == 0 {
        return true;
    }
    let n = forest.len();
    let mut i: usize = 0;
    assert(forest@.subrange(0, n as int) =~= forest@);
    while i < n
        invariant
            0 < depth,
            i <= n,
            n == forest@.len(),
            forest_wf(forest@, parent@, depth as nat) == forest_wf(
                forest@.subrange(i as int, n as int),
                parent@,
                depth as nat,
            ),
        decreases n - i,
    {
        let t = &forest[i];
        assert(forest@.subrange(i as int, n as int)[0] == forest@[i as int]);
        assert(forest@.subrange(i as int, n as int).drop_first() =~= forest@.subrange(
            i + 1,
            n as int,
        ));
        if !t.dir.is_subfolder_of(parent) {
            return false;
        }
        if !forest_is_wf(&t.subdirs, &t.dir, depth - 1) {
            return false;
        }
        i = i + 1;
    }
    true
}

/// Whether the folder tree records each sub-folder as its parent with one
/// more name, as far down as a search with this depth looks ([`tree_wf`]).
pub fn tree_is_wf(tree: &DirTree, depth: usize) -> (res: bool)
    ensures
        res == tree_wf(*tree, depth as nat),
{
    if depth == 0 {
        true
    } else {
        forest_is_wf(&tree.subdirs, &tree.dir, depth - 1)
    }
}

/// Searches `tree` for the folder that holds the file, at most `depth`
/// levels down.
pub fn find_dir_with(tree: &DirTree, depth: usize) -> (res: Option<ProgramPath>)
    requires
        tree_wf(*tree, depth as nat),
    ensures
        opt_path(res) == find_dir_spec(*tree, depth as nat),
        opt_path(res) matches Some(d) ==> lies_within(d, tree.dir@, depth as nat),
        opt_path(res) matches Some(d) ==> holds_within(seq![*tree], depth as nat, d),
        (exists|d: PathView| holds_within(seq![*tree], depth as nat, d)) ==> res is Some,
{
    proof {
        assert forall|d: PathView| holds_within(seq![*tree], depth as nat, d) implies find_dir_spec(
            *tree,
            depth as nat,
        ) is Some by {
            find_dir_finds_holder(*tree, depth as nat, d);
        }
        if let Some(d) = find_dir_spec(*tree, depth as nat) {
            find_dir_finds_holder(*tree, depth as nat, d);
        }
    }
    if depth == 0 {
        return None;
    }
    if tree.has_file {
        assert(tree.dir@.parts.take(tree.dir@.parts.len() as int) =~= tree.dir@.parts);
        return Some(tree.dir.duplicate());
    }
    let res = search_forest(&tree.subdirs, depth - 1);
    proof {
        lemma_found_below(tree.subdirs@, tree.dir@, (depth - 1) as nat);
        let f = seq![*tree];
        assert(f.drop_first() =~= Seq::<DirTree>::empty());
        assert(first_found(f.drop_first(), depth as nat) is None);
    }
    res
}

/// The platform-tools folder bundled with the application.
pub open spec fn platform_tools_spec(resource_dir: PathView) -> PathView {
    join_spec(join_spec(resource_dir, "resources"@), "platform-tools"@)
}

/// Where the bundled host toolchain's binaries usually are:
/// `<platform-tools>/bin/sdk/sbf/dependencies/platform-tools/rust/bin`.
pub open spec fn usual_host_bin_spec(resource_dir: PathView) -> PathView {
    join_spec(
        join_spec(
            join_spec(
                join_spec(
                    join_spec(
                        join_spec(
                            join_spec(platform_tools_spec(resource_dir), "bin"@),
                            "sdk"@,
                        ),
                        "sbf"@,
                    ),
                    "dependencies"@,
                ),
                "platform-tools"@,
            ),
            "rust"@,
        ),
        "bin"@,
    )
}

/// The platform-tools folder bundled with the application.
pub fn platform_tools_dir(resource_dir: &ProgramPath) -> (res: ProgramPath)
    ensures
        res@ == platform_tools_spec(resource_dir@),
{
    resource_dir.join("resources").join("platform-tools")
}

/// Where the bundled host toolchain's binaries usually are.
pub fn usual_host_bin(resource_dir: &ProgramPath) -> (res: ProgramPath)
    ensures
        res@ == usual_host_bin_spec(resource_dir@),
{
    platform_tools_dir(resource_dir).join("bin").join("sdk").join("sbf").join("dependencies").join(
        "platform-tools",
    ).join("rust").join("bin")
}

/// The bundled host toolchain's binary folder: none without a resource
/// folder; the usual place when `cargo` is a file there; otherwise the first
/// folder below the platform-tools folder, at most `HOST_SEARCH_DEPTH`
/// levels down, that holds `cargo`.
pub open spec fn bundled_host_bin_spec(
    resource_dir: Option<PathView>,
    usual_has_cargo: bool,
    search: Option<DirTree>,
) -> Option<PathView> {
    match resource_dir {
        None => None,
        Some(r) => if usual_has_cargo {
            Some(usual_host_bin_spec(r))
        } else {
            match search {
                Some(t) => find_dir_spec(t, HOST_SEARCH_DEPTH as nat),
                None => None,
            }
        },
    }
}

/// Whether a search snapshot may be handed to [`bundled_host_bin`]: a folder
/// tree recorded as [`tree_wf`] asks, rooted at the platform-tools folder.
pub fn host_search_is_valid(resource_dir: Option<&ProgramPath>, search: Option<&DirTree>) -> (res:
    bool)
    ensures
        res == (search matches Some(t) ==> tree_wf(*t, HOST_SEARCH_DEPTH as nat) && (
        resource_dir matches Some(r) ==> t.dir@ == platform_tools_spec(r@))),
{
    match search {
        None => true,
        Some(t) => {
            if !tree_is_wf(t, HOST_SEARCH_DEPTH) {
                return false;
            }
            match resource_dir {
                None => true,
                Some(r) => t.dir.same_as(&platform_tools_dir(r)),
            }
        },
    }
}

/// Finds the bundled host toolchain's binary folder, given whether `cargo`
/// is a file at the usual place and, when it is not, the platform-tools
/// folder as the search sees it.
pub fn bundled_host_bin(
    resource_dir: Option<&ProgramPath>,
    usual_has_cargo: bool,
    search: Option<&DirTree>,
) -> (res: Option<ProgramPath>)
    requires
        search matches Some(t) ==> tree_wf(*t, HOST_SEARCH_DEPTH as nat) && (resource_dir matches Some(
            r,
        ) ==> t.dir@ == platform_tools_spec(r@)),
    ensures
        opt_path(res) matches Some(d) ==> resource_dir is Some && lies_within(
            d,
            platform_tools_spec(resource_dir->0@),
            HOST_SEARCH_DEPTH as nat,
        ),
        opt_path(res) == bundled_host_bin_spec(
            match resource_dir {
                Some(r) => Some(r@),
                None => None,
            },
            usual_has_cargo,
            match search {
                Some(t) => Some(*t),
                None => None,
            },
        ),
{
    match resource_dir {
        None => None,
        Some(r) => {
            if usual_has_cargo {
                let usual = usual_host_bin(r);
                assert(usual@.parts.take(platform_tools_spec(r@).parts.len() as int)
                    =~= platform_tools_spec(r@).parts);
                Some(usual)
            } else {
                match search {
                    Some(t) => find_dir_with(t, HOST_SEARCH_DEPTH),
                    None => None,
                }
            }
        },
    }
}


/// Whether the set-up action asks the caller to report its outcome.
pub open spec fn install_awaits(a: InstallActionView) -> bool {
    a is Resolve || a is WriteSetupScript || a is RunSetupScript
}

/// Whether `e` reports the outcome of the action `a`.
pub open spec fn install_answers(a: InstallActionView, e: InstallEventView) -> bool {
    match a {
        InstallActionView::Resolve => e is Resolved,
        InstallActionView::WriteSetupScript => e is ScriptWritten,
        InstallActionView::RunSetupScript => e is SetupFinished,
        _ => false,
    }
}

/// The protocol between the set-up and its caller: every step asks for at
/// least one action; only its last action may ask for an outcome or finish;
/// it finishes exactly when the set-up is done; and otherwise its last action
/// asks for an outcome, which is what the set-up then expects.
pub proof fn install_step_protocol(f: InstallFlow, e: InstallEventView)
    requires
        install_accepts(f.stage, e),
    ensures
        ({
            let (stage, acts) = install_next(f, e);
            &&& acts.len() > 0
            &&& forall|i: int|
                0 <= i < acts.len() - 1 ==> !install_awaits(#[trigger] acts[i]) && !(
                acts[i] is Finish)
            &&& (stage == InstallStage::Done <==> acts.last() is Finish)
            &&& stage != InstallStage::Done ==> install_awaits(acts.last()) && forall|
                next: InstallEventView,
            | install_answers(acts.last(), next) ==> install_accepts(stage, next)
        }),
{
}

/// The set-up starts by asking for the one outcome it first expects.
pub proof fn install_begin_protocol(windows: bool)
    ensures
        forall|next: InstallEventView|
            install_answers(InstallActionView::Resolve, next) ==> install_accepts(
                InstallStage::FirstLookup,
                next,
            ),
{
}

/// The bundled compiler driver is the platform's driver file,
/// `cargo-build-sbf.exe` on Windows and `cargo-build-sbf` elsewhere, in the
/// `bin` folder of the bundled platform tools; it has the file name of the
/// driver of any install root on the same platform.
pub proof fn bundled_tool_is_the_platform_driver(
    resource_dir: PathView,
    windows: bool,
    root: PathView,
)
    ensures
        file_name_spec(bundled_tool_spec(resource_dir, windows)) == Some(
            if windows {
                "cargo-build-sbf.exe"@
            } else {
                "cargo-build-sbf"@
            },
        ),
        file_name_spec(bundled_tool_spec(resource_dir, windows)) == file_name_spec(
            root_tool_spec(root, windows),
        ),
        bundled_tool_spec(resource_dir, windows) == join_spec(
            join_spec(platform_tools_spec(resource_dir), "bin"@),
            file_name_spec(bundled_tool_spec(resource_dir, windows))->0,
        ),
{
}

} // verus!
