use pexliformation::converter::{
    build_exit_result, build_spawn_error, private_cargo_home, seeds_cache, cache_message, cargo_home_dir, cargo_manifest, cargo_seed_dir, conversion_result,
    convert, convert_begin, crate_name, destination_dir, freshest_output, output_dirs, program_name,
    search_path, ConvertAction, ConvertEvent, ConvertFlow, ConvertResult, ConvertStage, OutputEntry,
    BUILD_START_MESSAGE, DONE_MESSAGE, NO_CARGO_HOME_ERROR, INSTALLING_MESSAGE, NO_OUTPUT_ERROR,
    SETUP_UNFINISHED_ERROR, UNSUPPORTED_ERROR,
};
use pexliformation::digest::sha256_hex;
use pexliformation::path::{PathComponent, ProgramPath};

fn path(s: &str) -> ProgramPath {
    let mut components = Vec::new();
    let mut leads = Vec::new();
    let mut pending = String::new();
    let mut rest = s;
    if let Some(r) = s.strip_prefix('/') {
        components.push(PathComponent::RootDir);
        leads.push("/".to_string());
        rest = r;
    }
    for (i, seg) in rest.split('/').enumerate() {
        if i > 0 {
            pending.push('/');
        }
        let comp = match seg {
            "" => None,
            "." if !components.is_empty() => None,
            "." => Some(PathComponent::CurDir),
            ".." => Some(PathComponent::ParentDir),
            n => Some(PathComponent::Normal(n.to_string())),
        };
        match comp {
            Some(c) => {
                components.push(c);
                leads.push(std::mem::take(&mut pending));
            }
            None => pending.push_str(seg),
        }
    }
    ProgramPath { components, leads, tail: pending, separator: '/' }
}

fn entry(p: &str, modified: i128) -> OutputEntry {
    OutputEntry { path: path(p), modified }
}

const EXPECTED_MANIFEST: &str = r#"[package]
name = "hello_pexli"
version = "0.1.0"
edition = "2021"

[lib]
crate-type = ["cdylib", "lib"]

[dependencies]
solana-program = "1.18"

[profile.release]
overflow-checks = true
lto = "fat"
codegen-units = 1
"#;

#[test]
fn crate_name_comes_from_the_file_stem() {
    assert_eq!(crate_name(&path("/w/hello-pexli.rs")), "hello_pexli");
    assert_eq!(crate_name(&path("/")), "pexli_program");
}

#[test]
fn manifest_wraps_a_single_file() {
    assert_eq!(cargo_manifest("hello_pexli"), EXPECTED_MANIFEST);
}

#[test]
fn outputs_are_searched_in_deploy_then_release() {
    assert_eq!(
        output_dirs(&path("/p")),
        vec![path("/p/target/deploy"), path("/p/target/sbf-solana-solana/release")]
    );
}

#[test]
fn freshest_program_wins_and_earlier_wins_ties() {
    let entries = vec![
        entry("/p/target/deploy/a.so", 10),
        entry("/p/target/deploy/keypair.json", 99),
        entry("/p/target/sbf-solana-solana/release/b.so", 30),
        entry("/p/target/sbf-solana-solana/release/c.so", 30),
        entry("/p/target/sbf-solana-solana/release/d.so", -5),
    ];
    assert_eq!(freshest_output(&entries), Some(path("/p/target/sbf-solana-solana/release/b.so")));
    assert_eq!(freshest_output(&vec![entry("/p/x.json", 1)]), None);
    assert_eq!(freshest_output(&vec![]), None);
    assert_eq!(freshest_output(&vec![entry("/p/old.so", 0)]), Some(path("/p/old.so")));
}

#[test]
fn destination_keeps_the_text_of_the_chosen_folder() {
    let chosen = path("out/");
    assert_eq!(chosen.render(), "out/");
    assert_eq!(destination_dir(Some(&chosen), &path("/w/a.rs")).render(), "out/");
    let r = conversion_result(&chosen, "hello.so", 1, String::new());
    assert_eq!(r.out_dir, "out/");
    assert_eq!(r.so_path, "out/hello.so");
    assert_eq!(destination_dir(None, &path("a//b/c.rs")).render(), "a//b");
}

#[test]
fn destination_defaults_to_the_input_folder() {
    let input = path("/work/hello.rs");
    assert_eq!(destination_dir(None, &input), path("/work"));
    let chosen = path("/out");
    assert_eq!(destination_dir(Some(&chosen), &input), chosen);
    assert_eq!(destination_dir(None, &path("/")), ProgramPath::current_dir('/'));
}

#[test]
fn program_keeps_its_file_name() {
    assert_eq!(program_name(&path("/d/hello.so")), "hello.so");
    assert_eq!(program_name(&path("/")), "program.so");
}

#[test]
fn conversion_result_names_the_copy() {
    let r = conversion_result(&path("/out"), "hello.so", 42, "ab".to_string());
    assert_eq!(
        r,
        ConvertResult {
            so_path: "/out/hello.so".to_string(),
            out_dir: "/out".to_string(),
            file_name: "hello.so".to_string(),
            size: 42,
            sha256: "ab".to_string(),
        }
    );
}

#[test]
fn search_path_puts_the_tool_folder_first() {
    let existing = vec![path("/usr/bin"), path("/bin")];
    assert_eq!(
        search_path(existing, &path("/pt/bin/cargo-build-sbf")),
        vec![path("/pt/bin"), path("/usr/bin"), path("/bin")]
    );
    assert_eq!(search_path(vec![path("/bin")], &path("/")), vec![path("/bin")]);
}

#[test]
fn build_exit_is_reported_with_its_code() {
    assert_eq!(build_exit_result(true, Some(0)), Ok(()));
    assert_eq!(
        build_exit_result(false, Some(101)),
        Err("SBF build failed (exit 101). See the log for compiler errors.".to_string())
    );
    assert_eq!(
        build_exit_result(false, None),
        Err("SBF build failed (exit -1). See the log for compiler errors.".to_string())
    );
}

#[test]
fn private_cargo_home_paths() {
    let home = cargo_home_dir(&path("/data"));
    assert_eq!(home, path("/data/toolchain/cargo"));
    assert_eq!(cargo_seed_dir(&path("/res")), path("/res/resources/cargo-seed"));
    assert_eq!(cache_message(&home), "Using private toolchain cache: /data/toolchain/cargo");
}

#[test]
fn the_build_never_goes_without_a_private_cargo_home() {
    assert_eq!(private_cargo_home(Some(&path("/data"))), Ok(path("/data/toolchain/cargo")));
    assert_eq!(private_cargo_home(None), Err(NO_CARGO_HOME_ERROR.to_string()));
    assert!(seeds_cache(false, true));
    assert!(!seeds_cache(true, true));
    assert!(!seeds_cache(false, false));
    assert_eq!(build_spawn_error("denied"), "Failed to start cargo build-sbf: denied");
}

#[test]
fn a_finished_conversion_reports_sixty_four_hex_digits() {
    let input = path("/work/p.rs");
    let (mut flow, _) = convert_begin(input.duplicate(), Some(path("/out")));
    flow.stage = ConvertStage::ReadingOutput;
    flow.tool = Some(path("/sdk/cargo-build-sbf"));
    flow.program = Some(path("/tmp/s/target/deploy/p.so"));
    flow.dest_dir = Some(path("/out"));
    flow.file_name = Some("p.so".to_string());
    let actions = convert(&mut flow, ConvertEvent::BytesRead(Ok(b"abc".to_vec())));
    match actions.last() {
        Some(ConvertAction::Finish(Ok(report))) => {
            assert_eq!(
                report.sha256,
                "ba7816bf8f01cfea414140de5dae2223b00361a396177a9cb410ff61f20015ad"
            );
            assert_eq!(report.sha256.len(), 64);
            assert!(report.sha256.chars().all(|c| c.is_ascii_digit() || ('a'..='f').contains(&c)));
            assert_eq!(report.size, 3);
            assert_eq!(report.so_path, "/out/p.so");
        }
        other => panic!("unexpected last action: {:?}", other),
    }
}

fn step(flow: &mut ConvertFlow, event: ConvertEvent) -> Vec<ConvertAction> {
    convert(flow, event)
}

#[test]
fn single_file_is_wrapped_built_and_copied_beside_it() {
    let input = path("/work/hello-pexli.rs");
    let tool = path("/sdk/bin/cargo-build-sbf");
    let scratch = path("/tmp/pexliformation-1");
    let (mut flow, first) = convert_begin(input.duplicate(), None);
    assert_eq!(first, vec![ConvertAction::Resolve]);
    assert_eq!(
        step(&mut flow, ConvertEvent::Resolved(Some(tool.duplicate()))),
        vec![ConvertAction::CheckExists(input.duplicate())]
    );
    assert_eq!(step(&mut flow, ConvertEvent::Exists(true)), vec![ConvertAction::ProbeDir(input.duplicate())]);
    assert_eq!(step(&mut flow, ConvertEvent::IsDir(false)), vec![ConvertAction::CreateScratch]);
    assert_eq!(
        step(&mut flow, ConvertEvent::ScratchCreated(Ok(scratch.duplicate()))),
        vec![ConvertAction::CreateDirAll(path("/tmp/pexliformation-1/src"))]
    );
    assert_eq!(
        step(&mut flow, ConvertEvent::DirCreated(Ok(()))),
        vec![ConvertAction::ReadText(input.duplicate())]
    );
    assert_eq!(
        step(&mut flow, ConvertEvent::SourceRead(Ok("fn entry() {}".to_string()))),
        vec![ConvertAction::WriteText(path("/tmp/pexliformation-1/src/lib.rs"), "fn entry() {}".to_string())]
    );
    assert_eq!(
        step(&mut flow, ConvertEvent::Written(Ok(()))),
        vec![ConvertAction::WriteText(path("/tmp/pexliformation-1/Cargo.toml"), EXPECTED_MANIFEST.to_string())]
    );
    assert_eq!(
        step(&mut flow, ConvertEvent::Written(Ok(()))),
        vec![
            ConvertAction::Emit("Project: /tmp/pexliformation-1".to_string()),
            ConvertAction::Emit(BUILD_START_MESSAGE.to_string()),
            ConvertAction::RunBuild(tool.duplicate(), scratch.duplicate()),
        ]
    );
    assert_eq!(
        step(&mut flow, ConvertEvent::Built(Ok(()))),
        vec![ConvertAction::ListOutputs(output_dirs(&scratch))]
    );
    let listed = vec![
        entry("/tmp/pexliformation-1/target/deploy/hello_pexli.so", 5),
        entry("/tmp/pexliformation-1/target/deploy/hello_pexli-keypair.json", 9),
    ];
    assert_eq!(
        step(&mut flow, ConvertEvent::Listed(listed)),
        vec![
            ConvertAction::Emit("Found SBF program: /tmp/pexliformation-1/target/deploy/hello_pexli.so".to_string()),
            ConvertAction::CreateDirAll(path("/work")),
        ]
    );
    assert_eq!(
        step(&mut flow, ConvertEvent::DirCreated(Ok(()))),
        vec![ConvertAction::CopyFile(
            path("/tmp/pexliformation-1/target/deploy/hello_pexli.so"),
            path("/work/hello_pexli.so"),
        )]
    );
    assert_eq!(
        step(&mut flow, ConvertEvent::Copied(Ok(()))),
        vec![ConvertAction::ReadBytes(path("/work/hello_pexli.so"))]
    );
    let bytes = b"\x7fELF program".to_vec();
    assert_eq!(
        step(&mut flow, ConvertEvent::BytesRead(Ok(bytes.clone()))),
        vec![
            ConvertAction::Emit("Copied SBF program to /work/hello_pexli.so".to_string()),
            ConvertAction::Emit(DONE_MESSAGE.to_string()),
            ConvertAction::Finish(Ok(ConvertResult {
                so_path: "/work/hello_pexli.so".to_string(),
                out_dir: "/work".to_string(),
                file_name: "hello_pexli.so".to_string(),
                size: bytes.len() as u64,
                sha256: sha256_hex(&bytes),
            })),
        ]
    );
    assert_eq!(flow.stage, ConvertStage::Done);
}

#[test]
fn selected_manifest_builds_its_folder() {
    let tool = path("/sdk/cargo-build-sbf");
    let (mut flow, _) = convert_begin(path("/proj/Cargo.toml"), Some(path("/out")));
    step(&mut flow, ConvertEvent::Resolved(Some(tool.duplicate())));
    assert_eq!(
        step(&mut flow, ConvertEvent::Exists(true)),
        vec![
            ConvertAction::Emit("Project: /proj".to_string()),
            ConvertAction::Emit(BUILD_START_MESSAGE.to_string()),
            ConvertAction::RunBuild(tool, path("/proj")),
        ]
    );
    step(&mut flow, ConvertEvent::Built(Ok(())));
    assert_eq!(
        step(&mut flow, ConvertEvent::Listed(vec![entry("/proj/target/deploy/p.so", 1)])),
        vec![
            ConvertAction::Emit("Found SBF program: /proj/target/deploy/p.so".to_string()),
            ConvertAction::CreateDirAll(path("/out")),
        ]
    );
}

#[test]
fn messages_show_paths_as_written() {
    let tool = path("/sdk/cargo-build-sbf");
    let (mut flow, _) = convert_begin(path("/proj//app/"), None);
    step(&mut flow, ConvertEvent::Resolved(Some(tool.duplicate())));
    step(&mut flow, ConvertEvent::Exists(true));
    step(&mut flow, ConvertEvent::IsDir(true));
    assert_eq!(
        step(&mut flow, ConvertEvent::IsFile(true)),
        vec![
            ConvertAction::Emit("Project: /proj//app/".to_string()),
            ConvertAction::Emit(BUILD_START_MESSAGE.to_string()),
            ConvertAction::RunBuild(tool.duplicate(), path("/proj//app/")),
        ]
    );
    let (mut flow, _) = convert_begin(path("missing/./x.rs"), None);
    step(&mut flow, ConvertEvent::Resolved(Some(tool)));
    assert_eq!(
        step(&mut flow, ConvertEvent::Exists(false)),
        vec![ConvertAction::Finish(Err("Input not found: missing/./x.rs".to_string()))]
    );
}

#[test]
fn project_folder_is_built_in_place() {
    let tool = path("/sdk/cargo-build-sbf");
    let (mut flow, _) = convert_begin(path("/proj"), None);
    step(&mut flow, ConvertEvent::Resolved(Some(tool.duplicate())));
    step(&mut flow, ConvertEvent::Exists(true));
    assert_eq!(
        step(&mut flow, ConvertEvent::IsDir(true)),
        vec![ConvertAction::ProbeFile(path("/proj/Cargo.toml"))]
    );
    assert_eq!(
        step(&mut flow, ConvertEvent::IsFile(true)),
        vec![
            ConvertAction::Emit("Project: /proj".to_string()),
            ConvertAction::Emit(BUILD_START_MESSAGE.to_string()),
            ConvertAction::RunBuild(tool, path("/proj")),
        ]
    );
}

#[test]
fn unsupported_and_missing_inputs_are_refused() {
    let tool = path("/sdk/cargo-build-sbf");
    let (mut flow, _) = convert_begin(path("/docs/readme.md"), None);
    step(&mut flow, ConvertEvent::Resolved(Some(tool.duplicate())));
    step(&mut flow, ConvertEvent::Exists(true));
    assert_eq!(
        step(&mut flow, ConvertEvent::IsDir(false)),
        vec![ConvertAction::Finish(Err(UNSUPPORTED_ERROR.to_string()))]
    );
    assert_eq!(
        UNSUPPORTED_ERROR,
        "Unsupported input. Choose a .rs file, a Cargo.toml, or a Cargo project folder."
    );

    let (mut flow, _) = convert_begin(path("/empty-folder"), None);
    step(&mut flow, ConvertEvent::Resolved(Some(tool.duplicate())));
    step(&mut flow, ConvertEvent::Exists(true));
    step(&mut flow, ConvertEvent::IsDir(true));
    assert_eq!(
        step(&mut flow, ConvertEvent::IsFile(false)),
        vec![ConvertAction::Finish(Err(UNSUPPORTED_ERROR.to_string()))]
    );

    let (mut flow, _) = convert_begin(path("/gone.rs"), None);
    step(&mut flow, ConvertEvent::Resolved(Some(tool)));
    assert_eq!(
        step(&mut flow, ConvertEvent::Exists(false)),
        vec![ConvertAction::Finish(Err("Input not found: /gone.rs".to_string()))]
    );
    assert_eq!(flow.stage, ConvertStage::Done);
}

#[test]
fn missing_toolchain_is_installed_first() {
    let (mut flow, _) = convert_begin(path("/a.rs"), None);
    assert_eq!(
        step(&mut flow, ConvertEvent::Resolved(None)),
        vec![ConvertAction::Emit(INSTALLING_MESSAGE.to_string()), ConvertAction::Install]
    );
    assert_eq!(step(&mut flow, ConvertEvent::Installed(Ok(()))), vec![ConvertAction::Resolve]);
    assert_eq!(
        step(&mut flow, ConvertEvent::Resolved(None)),
        vec![ConvertAction::Finish(Err(SETUP_UNFINISHED_ERROR.to_string()))]
    );

    let (mut flow, _) = convert_begin(path("/a.rs"), None);
    step(&mut flow, ConvertEvent::Resolved(None));
    assert_eq!(
        step(&mut flow, ConvertEvent::Installed(Err("Automatic setup is currently implemented for Windows only.".to_string()))),
        vec![ConvertAction::Finish(Err("Automatic setup is currently implemented for Windows only.".to_string()))]
    );
}

#[test]
fn io_failures_end_the_conversion_with_their_reason() {
    let tool = path("/sdk/cargo-build-sbf");
    let (mut flow, _) = convert_begin(path("/w/a.rs"), None);
    step(&mut flow, ConvertEvent::Resolved(Some(tool.duplicate())));
    step(&mut flow, ConvertEvent::Exists(true));
    step(&mut flow, ConvertEvent::IsDir(false));
    assert_eq!(
        step(&mut flow, ConvertEvent::ScratchCreated(Err("no space".to_string()))),
        vec![ConvertAction::Finish(Err("Cannot create temp project: no space".to_string()))]
    );

    let (mut flow, _) = convert_begin(path("/w/a.rs"), None);
    step(&mut flow, ConvertEvent::Resolved(Some(tool.duplicate())));
    step(&mut flow, ConvertEvent::Exists(true));
    step(&mut flow, ConvertEvent::IsDir(false));
    step(&mut flow, ConvertEvent::ScratchCreated(Ok(path("/tmp/s"))));
    step(&mut flow, ConvertEvent::DirCreated(Ok(())));
    assert_eq!(
        step(&mut flow, ConvertEvent::SourceRead(Err("denied".to_string()))),
        vec![ConvertAction::Finish(Err("Cannot read source: denied".to_string()))]
    );

    let (mut flow, _) = convert_begin(path("/p/Cargo.toml"), None);
    step(&mut flow, ConvertEvent::Resolved(Some(tool.duplicate())));
    step(&mut flow, ConvertEvent::Exists(true));
    assert_eq!(
        step(&mut flow, ConvertEvent::Built(Err("SBF build failed (exit 1). See the log for compiler errors.".to_string()))),
        vec![ConvertAction::Finish(Err("SBF build failed (exit 1). See the log for compiler errors.".to_string()))]
    );

    let (mut flow, _) = convert_begin(path("/p/Cargo.toml"), None);
    step(&mut flow, ConvertEvent::Resolved(Some(tool.duplicate())));
    step(&mut flow, ConvertEvent::Exists(true));
    step(&mut flow, ConvertEvent::Built(Ok(())));
    assert_eq!(
        step(&mut flow, ConvertEvent::Listed(vec![])),
        vec![ConvertAction::Finish(Err(NO_OUTPUT_ERROR.to_string()))]
    );

    let (mut flow, _) = convert_begin(path("/p/Cargo.toml"), None);
    step(&mut flow, ConvertEvent::Resolved(Some(tool.duplicate())));
    step(&mut flow, ConvertEvent::Exists(true));
    step(&mut flow, ConvertEvent::Built(Ok(())));
    step(&mut flow, ConvertEvent::Listed(vec![entry("/p/target/deploy/x.so", 1)]));
    assert_eq!(
        step(&mut flow, ConvertEvent::DirCreated(Err("read-only".to_string()))),
        vec![ConvertAction::Finish(Err("Cannot create output folder: read-only".to_string()))]
    );

    let (mut flow, _) = convert_begin(path("/p/Cargo.toml"), None);
    step(&mut flow, ConvertEvent::Resolved(Some(tool.duplicate())));
    step(&mut flow, ConvertEvent::Exists(true));
    step(&mut flow, ConvertEvent::Built(Ok(())));
    step(&mut flow, ConvertEvent::Listed(vec![entry("/p/target/deploy/x.so", 1)]));
    step(&mut flow, ConvertEvent::DirCreated(Ok(())));
    assert_eq!(
        step(&mut flow, ConvertEvent::Copied(Err("busy".to_string()))),
        vec![ConvertAction::Finish(Err("Cannot copy output: busy".to_string()))]
    );

    let (mut flow, _) = convert_begin(path("/p/Cargo.toml"), None);
    step(&mut flow, ConvertEvent::Resolved(Some(tool)));
    step(&mut flow, ConvertEvent::Exists(true));
    step(&mut flow, ConvertEvent::Built(Ok(())));
    step(&mut flow, ConvertEvent::Listed(vec![entry("/p/target/deploy/x.so", 1)]));
    step(&mut flow, ConvertEvent::DirCreated(Ok(())));
    step(&mut flow, ConvertEvent::Copied(Ok(())));
    assert_eq!(
        step(&mut flow, ConvertEvent::BytesRead(Err("gone".to_string()))),
        vec![ConvertAction::Finish(Err("Cannot read output: gone".to_string()))]
    );
}
