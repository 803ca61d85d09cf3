use pexliformation::path::{PathComponent, ProgramPath};
use pexliformation::toolchain::{
    bin_dir, bundled_host_bin, bundled_tool, default_install_roots, exe_name, find_dir_with,
    home_dir, host_cargo_name, info, install, install_begin, platform_tools_dir, resolve,
    root_tool, setup_exit_result, setup_spawn_error, tree_is_wf, host_search_is_valid, usual_host_bin, DirTree, InstallAction, InstallEvent,
    InstallStage, ToolchainInfo, COMPLETE_MESSAGE, FOUND_MESSAGE, SETUP_START_MESSAGE,
    SETUP_WAIT_MESSAGE, STILL_MISSING_ERROR, WINDOWS_ONLY_ERROR,
};

fn path(s: &str) -> ProgramPath {
    let mut components = Vec::new();
    let mut leads = Vec::new();
    let mut pending = String::new();
    let mut rest = s;
    if let Some(r) = s.strip_prefix('/') {
        components.push(PathComponent::RootDir);
        leads.push("/".to_string());
        rest = r;
    }
    for (i, seg) in rest.split('/').enumerate() {
        if i > 0 {
            pending.push('/');
        }
        let comp = match seg {
            "" => None,
            "." if !components.is_empty() => None,
            "." => Some(PathComponent::CurDir),
            ".." => Some(PathComponent::ParentDir),
            n => Some(PathComponent::Normal(n.to_string())),
        };
        match comp {
            Some(c) => {
                components.push(c);
                leads.push(std::mem::take(&mut pending));
            }
            None => pending.push_str(seg),
        }
    }
    ProgramPath { components, leads, tail: pending, separator: '/' }
}

#[test]
fn executable_names_per_platform() {
    assert_eq!(exe_name(true), "cargo-build-sbf.exe");
    assert_eq!(exe_name(false), "cargo-build-sbf");
    assert_eq!(host_cargo_name(true), "cargo.exe");
    assert_eq!(host_cargo_name(false), "cargo");
}

#[test]
fn bundled_tool_lives_under_platform_tools_bin() {
    assert_eq!(
        bundled_tool(&path("/opt/app"), false),
        path("/opt/app/resources/platform-tools/bin/cargo-build-sbf")
    );
}

#[test]
fn default_roots_depend_on_home() {
    let home = path("/home/dev");
    assert_eq!(
        default_install_roots(Some(&home)),
        vec![path("/home/dev/.local/share/solana/install/active_release")]
    );
    assert!(default_install_roots(None).is_empty());
    assert_eq!(
        root_tool(&path("/r"), true),
        path("/r/bin/cargo-build-sbf.exe")
    );
}

#[test]
fn home_prefers_user_profile() {
    assert_eq!(home_dir(Some(path("/u")), Some(path("/h"))), Some(path("/u")));
    assert_eq!(home_dir(None, Some(path("/h"))), Some(path("/h")));
    assert_eq!(home_dir(None, None), None);
}

#[test]
fn resolve_searches_bundled_then_path_then_home() {
    let res = path("/opt/app");
    let home = path("/home/dev");
    let on_path = Some(path("/usr/bin/cargo-build-sbf"));
    assert_eq!(
        resolve(Some(&res), true, on_path.clone_path(), Some(&home), &vec![true], false),
        Some(path("/opt/app/resources/platform-tools/bin/cargo-build-sbf"))
    );
    assert_eq!(
        resolve(Some(&res), false, on_path.clone_path(), Some(&home), &vec![true], false),
        on_path.clone_path()
    );
    assert_eq!(
        resolve(None, true, None, Some(&home), &vec![true], false),
        Some(path("/home/dev/.local/share/solana/install/active_release/bin/cargo-build-sbf"))
    );
    assert_eq!(resolve(None, true, None, Some(&home), &vec![false], false), None);
    assert_eq!(resolve(None, false, None, None, &vec![], false), None);
}

trait ClonePath {
    fn clone_path(&self) -> Option<ProgramPath>;
}

impl ClonePath for Option<ProgramPath> {
    fn clone_path(&self) -> Option<ProgramPath> {
        self.as_ref().map(|p| p.duplicate())
    }
}

#[test]
fn bin_dir_is_the_tool_folder() {
    assert_eq!(bin_dir(&path("/a/bin/cargo-build-sbf")), Some(path("/a/bin")));
    assert_eq!(bin_dir(&path("/")), None);
}

#[test]
fn info_reports_path_and_first_version_line() {
    let tool = path("/usr/bin/cargo-build-sbf");
    assert_eq!(
        info(Some(&tool), Some("solana-cargo-build-sbf 2.1.0\nplatform-tools v1.43\n")),
        ToolchainInfo {
            available: true,
            path: Some("/usr/bin/cargo-build-sbf".to_string()),
            version: Some("solana-cargo-build-sbf 2.1.0".to_string()),
        }
    );
    assert_eq!(
        info(Some(&tool), None),
        ToolchainInfo { available: true, path: Some("/usr/bin/cargo-build-sbf".to_string()), version: None }
    );
    assert_eq!(
        info(Some(&tool), Some("")).version,
        None
    );
    assert_eq!(
        info(None, Some("ignored")),
        ToolchainInfo { available: false, path: None, version: None }
    );
}

#[test]
fn setup_exit_codes_are_reported() {
    assert_eq!(setup_exit_result(true, Some(0)), Ok(()));
    assert_eq!(
        setup_exit_result(false, Some(3)),
        Err("Setup exited with code 3 — see the log above.".to_string())
    );
    assert_eq!(
        setup_exit_result(false, None),
        Err("Setup exited with code -1 — see the log above.".to_string())
    );
}

#[test]
fn install_with_toolchain_present_only_warms_up() {
    let (mut flow, first) = install_begin(true);
    assert_eq!(first, vec![InstallAction::Resolve]);
    let tool = path("/t/cargo-build-sbf");
    let acts = install(&mut flow, InstallEvent::Resolved(Some(tool.duplicate())));
    assert_eq!(
        acts,
        vec![
            InstallAction::Emit(FOUND_MESSAGE.to_string()),
            InstallAction::Warmup(tool),
            InstallAction::Finish(Ok(())),
        ]
    );
    assert_eq!(flow.stage, InstallStage::Done);
}

#[test]
fn install_on_windows_runs_the_setup_and_looks_again() {
    let (mut flow, _) = install_begin(true);
    assert_eq!(install(&mut flow, InstallEvent::Resolved(None)), vec![InstallAction::WriteSetupScript]);
    assert_eq!(
        install(&mut flow, InstallEvent::ScriptWritten(Ok(()))),
        vec![
            InstallAction::Emit(SETUP_START_MESSAGE.to_string()),
            InstallAction::Emit(SETUP_WAIT_MESSAGE.to_string()),
            InstallAction::RunSetupScript,
        ]
    );
    assert_eq!(install(&mut flow, InstallEvent::SetupFinished(Ok(()))), vec![InstallAction::Resolve]);
    let tool = path("/t/cargo-build-sbf.exe");
    assert_eq!(
        install(&mut flow, InstallEvent::Resolved(Some(tool.duplicate()))),
        vec![
            InstallAction::Warmup(tool),
            InstallAction::Emit(COMPLETE_MESSAGE.to_string()),
            InstallAction::Finish(Ok(())),
        ]
    );
    assert_eq!(flow.stage, InstallStage::Done);
}

#[test]
fn install_failures_are_reported() {
    let (mut flow, _) = install_begin(false);
    assert_eq!(
        install(&mut flow, InstallEvent::Resolved(None)),
        vec![InstallAction::Finish(Err(WINDOWS_ONLY_ERROR.to_string()))]
    );
    assert_eq!(
        WINDOWS_ONLY_ERROR,
        "Automatic setup is currently implemented for Windows only."
    );

    let (mut flow, _) = install_begin(true);
    install(&mut flow, InstallEvent::Resolved(None));
    assert_eq!(
        install(&mut flow, InstallEvent::ScriptWritten(Err("disk full".to_string()))),
        vec![InstallAction::Finish(Err("Cannot write setup script: disk full".to_string()))]
    );

    let (mut flow, _) = install_begin(true);
    install(&mut flow, InstallEvent::Resolved(None));
    install(&mut flow, InstallEvent::ScriptWritten(Ok(())));
    assert_eq!(
        install(&mut flow, InstallEvent::SetupFinished(Err("boom".to_string()))),
        vec![InstallAction::Finish(Err("boom".to_string()))]
    );

    let (mut flow, _) = install_begin(true);
    install(&mut flow, InstallEvent::Resolved(None));
    install(&mut flow, InstallEvent::ScriptWritten(Ok(())));
    install(&mut flow, InstallEvent::SetupFinished(Ok(())));
    assert_eq!(
        install(&mut flow, InstallEvent::Resolved(None)),
        vec![InstallAction::Finish(Err(STILL_MISSING_ERROR.to_string()))]
    );
    assert_eq!(
        STILL_MISSING_ERROR,
        "Setup ran but cargo-build-sbf was still not found. Please close and reopen PexliFormation, then try again."
    );
}

fn leaf(p: &str, has_file: bool) -> DirTree {
    DirTree { dir: path(p), has_file, subdirs: vec![] }
}

#[test]
fn find_dir_with_searches_depth_first_within_the_limit() {
    let tree = DirTree {
        dir: path("/pt"),
        has_file: false,
        subdirs: vec![
            DirTree { dir: path("/pt/a"), has_file: false, subdirs: vec![leaf("/pt/a/deep", true)] },
            leaf("/pt/b", true),
        ],
    };
    assert_eq!(find_dir_with(&tree, 3), Some(path("/pt/a/deep")));
    assert_eq!(find_dir_with(&tree, 2), Some(path("/pt/b")));
    assert_eq!(find_dir_with(&tree, 1), None);
    assert_eq!(find_dir_with(&tree, 0), None);
    assert_eq!(find_dir_with(&leaf("/x", true), 1), Some(path("/x")));
}

#[test]
fn bundled_host_bin_prefers_the_usual_place() {
    let res = path("/app");
    assert_eq!(platform_tools_dir(&res), path("/app/resources/platform-tools"));
    let usual = path("/app/resources/platform-tools/bin/sdk/sbf/dependencies/platform-tools/rust/bin");
    assert_eq!(usual_host_bin(&res), usual);
    assert_eq!(bundled_host_bin(Some(&res), true, None), Some(usual));
    let search = DirTree {
        dir: path("/app/resources/platform-tools"),
        has_file: false,
        subdirs: vec![DirTree {
            dir: path("/app/resources/platform-tools/llvm"),
            has_file: false,
            subdirs: vec![leaf("/app/resources/platform-tools/llvm/bin", true)],
        }],
    };
    assert!(host_search_is_valid(Some(&res), Some(&search)));
    assert_eq!(
        bundled_host_bin(Some(&res), false, Some(&search)),
        Some(path("/app/resources/platform-tools/llvm/bin"))
    );
    assert_eq!(bundled_host_bin(None, true, Some(&search)), None);
}

#[test]
fn folder_trees_are_checked_before_the_search() {
    let good = DirTree {
        dir: path("/pt"),
        has_file: false,
        subdirs: vec![
            DirTree { dir: path("/pt/a"), has_file: false, subdirs: vec![leaf("/pt/a/deep", true)] },
            leaf("/pt/b", true),
        ],
    };
    assert!(tree_is_wf(&good, 8));
    let skips_a_level = DirTree { dir: path("/pt"), has_file: false, subdirs: vec![leaf("/pt/a/deep", true)] };
    assert!(!tree_is_wf(&skips_a_level, 8));
    // Below the depth the search reaches, nothing is looked at.
    assert!(tree_is_wf(&skips_a_level, 1));
    let elsewhere = DirTree { dir: path("/pt"), has_file: false, subdirs: vec![leaf("/other/a", true)] };
    assert!(!tree_is_wf(&elsewhere, 8));
    let dotted = DirTree { dir: path("/pt"), has_file: false, subdirs: vec![leaf("/pt/..", true)] };
    assert!(!tree_is_wf(&dotted, 8));
    let res = path("/app");
    let rooted_elsewhere = DirTree { dir: path("/pt"), has_file: false, subdirs: vec![] };
    assert!(!host_search_is_valid(Some(&res), Some(&rooted_elsewhere)));
    assert!(host_search_is_valid(None, Some(&rooted_elsewhere)));
    assert!(host_search_is_valid(Some(&res), None));
    assert!(!host_search_is_valid(Some(&res), Some(&skips_a_level)));
}

#[test]
fn the_search_finds_a_folder_holding_the_file_whenever_one_is_in_reach() {
    // Only a folder three levels down holds the file.
    let tree = DirTree {
        dir: path("/pt"),
        has_file: false,
        subdirs: vec![
            leaf("/pt/a", false),
            DirTree { dir: path("/pt/b"), has_file: false, subdirs: vec![leaf("/pt/b/c", true)] },
        ],
    };
    assert_eq!(find_dir_with(&tree, 3), Some(path("/pt/b/c")));
    assert_eq!(find_dir_with(&tree, 2), None);
    let none_holds = DirTree { dir: path("/pt"), has_file: false, subdirs: vec![leaf("/pt/a", false)] };
    assert_eq!(find_dir_with(&none_holds, 8), None);
}

#[test]
fn setup_spawn_errors_name_the_reason() {
    assert_eq!(setup_spawn_error("no such file"), "Failed to start setup process: no such file");
}
