//! The conversion of a Rust smart-contract source into an SBF program.
//!
//! Two shapes of input are accepted: a Cargo project (a folder holding a
//! `Cargo.toml`, or the `Cargo.toml` itself), built in place, and a single
//! `.rs` file, wrapped in a throw-away Cargo project first. The build's `.so`
//! output is copied to the chosen output folder (by default beside the input)
//! and reported with its size and SHA-256.
//!
//! The file-system work, the processes and the log are carried out by the
//! caller; this module decides what happens next and builds what is
//! reported.

use vstd::prelude::*;
use vstd::string::StringExecFns;
use crate::path::{
    ProgramPath, join_spec, parent_spec, file_name_spec, file_stem_spec,
    extension_spec, render_spec, opt_path, paths_view, PathView, cur_dir_spec,
};
use crate::text::{
    decimal, decimal_spec, replace_hyphens, hyphens_to_underscores, prefixed, unit_result,
    hex_lower_spec, is_lower_hex_digit,
};
use crate::digest::{sha256_hex, sha256_of};

verus! {

/// What a successful conversion reports: where the program was copied, the
/// folder it is in, its file name, its size in bytes and its SHA-256 in
/// lower-case hexadecimal.
#[derive(Debug, PartialEq, Eq)]
pub struct ConvertResult {
    pub so_path: String,
    pub out_dir: String,
    pub file_name: String,
    pub size: u64,
    pub sha256: String,
}

/// The mathematical value of a [`ConvertResult`].
pub struct ConvertResultView {
    pub so_path: Seq<char>,
    pub out_dir: Seq<char>,
    pub file_name: Seq<char>,
    pub size: u64,
    pub sha256: Seq<char>,
}

impl View for ConvertResult {
    type V = ConvertResultView;

    open spec fn view(&self) -> ConvertResultView {
        ConvertResultView {
            so_path: self.so_path@,
            out_dir: self.out_dir@,
            file_name: self.file_name@,
            size: self.size,
            sha256: self.sha256@,
        }
    }
}

/// The crate name used when the source file has no stem.
pub const DEFAULT_CRATE_NAME: &'static str = "pexli_program";

/// The manifest of a wrapped single-file program, up to its name.
pub const MANIFEST_HEAD: &'static str = "[package]\nname = \"";

/// The manifest of a wrapped single-file program, after its name.
pub const MANIFEST_TAIL: &'static str = "\"\nversion = \"0.1.0\"\nedition = \"2021\"\n\n[lib]\ncrate-type = [\"cdylib\", \"lib\"]\n\n[dependencies]\nsolana-program = \"1.18\"\n\n[profile.release]\noverflow-checks = true\nlto = \"fat\"\ncodegen-units = 1\n";

/// The file name reported when the program's own has none.
pub const DEFAULT_PROGRAM_NAME: &'static str = "program.so";

/// The crate name of a wrapped single file: its stem (or `pexli_program`),
/// with every `-` replaced by `_`.
pub open spec fn crate_name_spec(source: PathView) -> Seq<char> {
    hyphens_to_underscores(
        match file_stem_spec(source) {
            Some(stem) => stem,
            None => DEFAULT_CRATE_NAME@,
        },
    )
}

/// The crate name for wrapping the single source file `source`.
pub fn crate_name(source: &ProgramPath) -> (res: String)
    ensures
        res@ == crate_name_spec(source@),
{
    match source.file_stem() {
        Some(stem) => replace_hyphens(stem.as_str()),
        None => replace_hyphens(DEFAULT_CRATE_NAME),
    }
}

/// The manifest of the throw-away project around a single source file.
pub open spec fn manifest_spec(name: Seq<char>) -> Seq<char> {
    MANIFEST_HEAD@ + name + MANIFEST_TAIL@
}

/// Writes the manifest of the throw-away project for crate `name`: a library
/// built as `cdylib` and `lib`, depending on `solana-program` 1.18, with
/// overflow checks, fat LTO and one codegen unit in release builds.
pub fn cargo_manifest(name: &str) -> (res: String)
    ensures
        res@ == manifest_spec(name@),
{
    let mut res = MANIFEST_HEAD.to_owned();
    res.append(name);
    res.append(MANIFEST_TAIL);
    res
}

/// The folders where the build leaves its `.so`, in the order they are
/// searched: `target/deploy`, then `target/sbf-solana-solana/release`.
pub open spec fn output_dirs_spec(project: PathView) -> Seq<PathView> {
    seq![
        join_spec(join_spec(project, "target"@), "deploy"@),
        join_spec(join_spec(join_spec(project, "target"@), "sbf-solana-solana"@), "release"@),
    ]
}

/// The folders where the build of `project` leaves its `.so`.
pub fn output_dirs(project: &ProgramPath) -> (res: Vec<ProgramPath>)
    ensures
        paths_view(res@) == output_dirs_spec(project@),
{
    let mut res: Vec<ProgramPath> = Vec::new();
    res.push(project.join("target").join("deploy"));
    res.push(project.join("target").join("sbf-solana-solana").join("release"));
    assert(paths_view(res@) =~= output_dirs_spec(project@));
    res
}

/// A file found in an output folder, with its modification time in
/// nanoseconds from the Unix epoch (negative before it; the epoch itself when
/// the time could not be read).
#[derive(Debug, PartialEq, Eq)]
pub struct OutputEntry {
    pub path: ProgramPath,
    pub modified: i128,
}

impl View for OutputEntry {
    type V = (PathView, int);

    open spec fn view(&self) -> (PathView, int) {
        (self.path@, self.modified as int)
    }
}

/// The views of a list of output entries.
pub open spec fn entries_view(v: Seq<OutputEntry>) -> Seq<(PathView, int)> {
    v.map_values(|e: OutputEntry| e@)
}

/// Whether a path names an SBF program (its extension is `so`).
pub open spec fn is_program(p: PathView) -> bool {
    extension_spec(p) == Some("so"@)
}

/// The index of the freshest program among the entries: the one with the
/// latest time, the earliest of them on a tie; none when no entry is a
/// program.
pub open spec fn freshest_index(entries: Seq<(PathView, int)>) -> Option<int>
    decreases entries.len(),
{
    if entries.len() == 0 {
        None
    } else {
        let best = freshest_index(entries.drop_last());
        let last = entries.last();
        if is_program(last.0) && (best is None || last.1 > entries[best->0].1) {
            Some(entries.len() - 1)
        } else {
            best
        }
    }
}

/// The freshest program among the entries, as [`freshest_index`] chooses it.
pub open spec fn freshest_spec(entries: Seq<(PathView, int)>) -> Option<
    PathView,
> {
    match freshest_index(entries) {
        Some(i) => Some(entries[i].0),
        None => None,
    }
}

/// The chosen entry is a program, at least as recent as every program, and
/// strictly more recent than every program listed before it; when none is
/// chosen there is no program.
pub proof fn freshest_is_latest(entries: Seq<(PathView, int)>)
    ensures
        match freshest_index(entries) {
            Some(k) => {
                &&& 0 <= k < entries.len()
                &&& is_program(entries[k].0)
                &&& forall|j: int|
                    0 <= j < entries.len() && is_program(#[trigger] entries[j].0) ==> entries[j].1
                        <= entries[k].1
                &&& forall|j: int|
                    0 <= j < k && is_program(#[trigger] entries[j].0) ==> entries[j].1
                        < entries[k].1
            },
            None => forall|j: int| 0 <= j < entries.len() ==> !is_program(#[trigger] entries[j].0),
        },
    decreases entries.len(),
{
    if entries.len() > 0 {
        let front = entries.drop_last();
        freshest_is_latest(front);
        assert forall|j: int| 0 <= j < front.len() implies front[j] == entries[j] by {}
    }
}

fn is_program_path(p: &ProgramPath) -> (res: bool)
    ensures
        res == is_program(p@),
{
    match p.extension() {
        Some(ext) => ext == "so".to_owned(),
        None => false,
    }
}

/// Picks the freshest `.so` among the files listed in the output folders, in
/// listing order.
pub fn freshest_output(entries: &Vec<OutputEntry>) -> (res: Option<ProgramPath>)
    ensures
        opt_path(res) == freshest_spec(entries_view(entries@)),
{
    let ghost ev = entries_view(entries@);
    let n = entries.len();
    let mut best: Option<usize> = None;
    let mut best_time: i128 = 0;
    for i in 0..n
        invariant
            n == entries@.len(),
            ev == entries_view(entries@),
            freshest_index(ev.take(i as int)) == match best {
                Some(b) => Some(b as int),
                None => None::<int>,
            },
            best is Some ==> best->0 < i && best_time == entries@[best->0 as int].modified,
    {
        assert(ev.take(i + 1).drop_last() =~= ev.take(i as int));
        let e = &entries[i];
        if is_program_path(&e.path) && (best.is_none() || e.modified > best_time) {
            best = Some(i);
            best_time = e.modified;
        }
    }
    assert(ev.take(n as int) =~= ev);
    match best {
        Some(b) => Some(entries[b].path.duplicate()),
        None => None,
    }
}

/// The output folder: the one chosen, else the folder of the input, else `.`.
pub open spec fn destination_spec(
    output_dir: Option<PathView>,
    input: PathView,
) -> PathView {
    match output_dir {
        Some(d) => d,
        None => match parent_spec(input) {
            Some(p) => p,
            None => cur_dir_spec(input.separator),
        },
    }
}

/// The folder the program is copied to.
pub fn destination_dir(output_dir: Option<&ProgramPath>, input: &ProgramPath) -> (res: ProgramPath)
    ensures
        res@ == destination_spec(
            match output_dir {
                Some(d) => Some(d@),
                None => None,
            },
            input@,
        ),
{
    match output_dir {
        Some(d) => d.duplicate(),
        None => match input.parent() {
            Some(p) => p,
            None => ProgramPath::current_dir(input.separator),
        },
    }
}

/// The file name the program keeps: its own, or `program.so`.
pub open spec fn program_name_spec(program: PathView) -> Seq<char> {
    match file_name_spec(program) {
        Some(n) => n,
        None => DEFAULT_PROGRAM_NAME@,
    }
}

/// The file name under which the program is copied.
pub fn program_name(program: &ProgramPath) -> (res: String)
    ensures
        res@ == program_name_spec(program@),
{
    match program.file_name() {
        Some(n) => n,
        None => DEFAULT_PROGRAM_NAME.to_owned(),
    }
}

/// The report of a conversion whose program was copied as `file_name` into
/// `dest_dir`, with the given size and digest text.
pub open spec fn conversion_result_spec(
    dest_dir: PathView,
    file_name: Seq<char>,
    size: u64,
    sha256: Seq<char>,
) -> ConvertResultView {
    ConvertResultView {
        so_path: render_spec(join_spec(dest_dir, file_name)),
        out_dir: render_spec(dest_dir),
        file_name,
        size,
        sha256,
    }
}

/// Builds the report of a conversion from where the program was copied, its
/// size and its digest text.
pub fn conversion_result(
    dest_dir: &ProgramPath,
    file_name: &str,
    size: u64,
    sha256: String,
) -> (res: ConvertResult)
    ensures
        res@ == conversion_result_spec(dest_dir@, file_name@, size, sha256@),
{
    ConvertResult {
        so_path: dest_dir.join(file_name).render(),
        out_dir: dest_dir.render(),
        file_name: file_name.to_owned(),
        size,
        sha256,
    }
}

/// The search path for the build: the driver's own folder first, when it has
/// one, then the folders already there.
pub open spec fn search_path_spec(
    existing: Seq<PathView>,
    tool: PathView,
) -> Seq<PathView> {
    match parent_spec(tool) {
        Some(dir) => seq![dir] + existing,
        None => existing,
    }
}

/// Puts the driver's folder in front of the search path.
pub fn search_path(existing: Vec<ProgramPath>, tool: &ProgramPath) -> (res: Vec<ProgramPath>)
    ensures
        paths_view(res@) == search_path_spec(paths_view(existing@), tool@),
{
    let mut paths = existing;
    let ghost before = paths_view(paths@);
    match crate::toolchain::bin_dir(tool) {
        Some(dir) => {
            paths.insert(0, dir);
            assert(paths_view(paths@) =~= search_path_spec(before, tool@));
        },
        None => {},
    }
    paths
}

/// The error text of a build that exited unsuccessfully.
pub open spec fn build_exit_error_spec(code: Option<i32>) -> Seq<char> {
    "SBF build failed (exit "@ + decimal_spec(
        match code {
            Some(c) => c as int,
            None => -1,
        },
    ) + "). See the log for compiler errors."@
}

/// The outcome of the build from its exit status: success when it
/// succeeded, otherwise an error naming its exit code (or -1 when it has
/// none).
pub fn build_exit_result(success: bool, code: Option<i32>) -> (res: Result<(), String>)
    ensures
        unit_result(res) == (if success {
            Ok(())
        } else {
            Err(build_exit_error_spec(code))
        }),
{
    if success {
        Ok(())
    } else {
        let c: i32 = match code {
            Some(c) => c,
            None => -1,
        };
        let mut msg = "SBF build failed (exit ".to_owned();
        let digits = decimal(c);
        msg.append(digits.as_str());
        msg.append("). See the log for compiler errors.");
        Err(msg)
    }
}

/// What precedes the reason when the build cannot be started.
pub const BUILD_SPAWN_ERROR: &'static str = "Failed to start cargo build-sbf: ";

/// What precedes the private cargo home in the log.
pub const CACHE_MESSAGE: &'static str = "Using private toolchain cache: ";

/// Reported while the bundled crate cache is copied in.
pub const SEED_MESSAGE: &'static str = "Preparing the bundled crate cache (first run only)…";

/// The error when the build cannot be started.
pub fn build_spawn_error(reason: &str) -> (res: String)
    ensures
        res@ == BUILD_SPAWN_ERROR@ + reason@,
{
    prefixed(BUILD_SPAWN_ERROR, reason)
}

/// The error when the application's data folder is unknown: the build never
/// uses the user's own cargo home, so without a private one it is refused.
pub const NO_CARGO_HOME_ERROR: &'static str = "Could not locate the application data folder for the private toolchain cache.";

/// The private cargo home of a build, given the application's data folder
/// when it is known; without it there is none and the build is refused.
pub fn private_cargo_home(data_dir: Option<&ProgramPath>) -> (res: Result<ProgramPath, String>)
    ensures
        match data_dir {
            Some(d) => res matches Ok(h) && h@ == join_spec(
                join_spec(d@, "toolchain"@),
                "cargo"@,
            ),
            None => res matches Err(e) && e@ == NO_CARGO_HOME_ERROR@,
        },
{
    match data_dir {
        Some(d) => Ok(cargo_home_dir(d)),
        None => Err(NO_CARGO_HOME_ERROR.to_owned()),
    }
}

/// Whether the bundled crate cache is copied into the private cargo home:
/// only when the home is first created, and the cache is bundled.
pub fn seeds_cache(home_existed: bool, seed_is_dir: bool) -> (res: bool)
    ensures
        res == (!home_existed && seed_is_dir),
{
    !home_existed && seed_is_dir
}

/// The application-private cargo home: `<data>/toolchain/cargo`.
pub fn cargo_home_dir(data_dir: &ProgramPath) -> (res: ProgramPath)
    ensures
        res@ == join_spec(join_spec(data_dir@, "toolchain"@), "cargo"@),
{
    data_dir.join("toolchain").join("cargo")
}

/// The bundled crate cache: `<resources>/resources/cargo-seed`.
pub fn cargo_seed_dir(resource_dir: &ProgramPath) -> (res: ProgramPath)
    ensures
        res@ == join_spec(join_spec(resource_dir@, "resources"@), "cargo-seed"@),
{
    resource_dir.join("resources").join("cargo-seed")
}

/// The log line that names the private cargo home.
pub fn cache_message(cargo_home: &ProgramPath) -> (res: String)
    ensures
        res@ == CACHE_MESSAGE@ + render_spec(cargo_home@),
{
    let shown = cargo_home.render();
    prefixed(CACHE_MESSAGE, shown.as_str())
}


/// Reported when the toolchain is missing and about to be installed.
pub const INSTALLING_MESSAGE: &'static str = "SBF toolchain not found — installing it now (one-time setup)…";

/// The error when the toolchain is still missing after the set-up.
pub const SETUP_UNFINISHED_ERROR: &'static str = "SBF toolchain setup did not finish. Please try again, or restart the app.";

/// What precedes the input in the error for a missing input.
pub const INPUT_NOT_FOUND_ERROR: &'static str = "Input not found: ";

/// What precedes the project folder in the log.
pub const PROJECT_MESSAGE: &'static str = "Project: ";

/// Reported when the build starts.
pub const BUILD_START_MESSAGE: &'static str = "Starting SBF build (cargo build-sbf)…";

/// The error for an input that is neither a `.rs` file nor a Cargo project.
pub const UNSUPPORTED_ERROR: &'static str = "Unsupported input. Choose a .rs file, a Cargo.toml, or a Cargo project folder.";

/// The prefix of the throw-away project folder's name.
pub const SCRATCH_PREFIX: &'static str = "pexliformation-";

/// What precedes the reason when the throw-away project cannot be created.
pub const SCRATCH_ERROR: &'static str = "Cannot create temp project: ";

/// What precedes the reason when the source file cannot be read.
pub const READ_SOURCE_ERROR: &'static str = "Cannot read source: ";

/// The error when the build left no program behind.
pub const NO_OUTPUT_ERROR: &'static str = "Build finished but no .so (SBF program) was produced.";

/// What precedes the program's path in the log once it is found.
pub const FOUND_MESSAGE: &'static str = "Found SBF program: ";

/// What precedes the reason when the output folder cannot be created.
pub const CREATE_OUTPUT_ERROR: &'static str = "Cannot create output folder: ";

/// What precedes the reason when the program cannot be copied.
pub const COPY_ERROR: &'static str = "Cannot copy output: ";

/// What precedes the reason when the copied program cannot be read.
pub const READ_OUTPUT_ERROR: &'static str = "Cannot read output: ";

/// What precedes the copy's path in the log.
pub const COPIED_MESSAGE: &'static str = "Copied SBF program to ";

/// The last line of the log of a successful conversion.
pub const DONE_MESSAGE: &'static str = "Done.";

/// Where a conversion stands: what it is waiting for.
#[derive(Debug, PartialEq, Eq, Structural, Clone, Copy)]
pub enum ConvertStage {
    /// The first toolchain lookup.
    FirstLookup,
    /// The toolchain set-up.
    Installing,
    /// The lookup after the set-up.
    SecondLookup,
    /// Whether the input exists.
    CheckingInput,
    /// Whether the input is a folder.
    ProbingFolder,
    /// Whether the folder holds a `Cargo.toml` file.
    ProbingManifest,
    /// The throw-away project folder.
    CreatingScratch,
    /// Its `src` folder.
    CreatingScratchSrc,
    /// The text of the single source file.
    ReadingSource,
    /// Writing it as the project's `src/lib.rs`.
    WritingLib,
    /// Writing the project's `Cargo.toml`.
    WritingManifest,
    /// The build.
    Building,
    /// The listing of the output folders.
    Listing,
    /// The output folder.
    CreatingDest,
    /// The copy of the program.
    Copying,
    /// The copy's bytes.
    ReadingOutput,
    /// Finished; nothing more is expected.
    Done,
}

/// A conversion in progress.
#[derive(Debug, PartialEq, Eq)]
pub struct ConvertFlow {
    pub stage: ConvertStage,
    /// The selected input.
    pub input: ProgramPath,
    /// The output folder chosen, if any.
    pub output_dir: Option<ProgramPath>,
    /// The compiler driver, once found.
    pub tool: Option<ProgramPath>,
    /// The throw-away project folder, once created.
    pub scratch: Option<ProgramPath>,
    /// The project being built.
    pub project: Option<ProgramPath>,
    /// The program the build produced.
    pub program: Option<ProgramPath>,
    /// The folder the program is copied to.
    pub dest_dir: Option<ProgramPath>,
    /// The file name the program is copied under.
    pub file_name: Option<String>,
}

/// The mathematical value of a [`ConvertFlow`].
pub struct ConvertFlowView {
    pub stage: ConvertStage,
    pub input: PathView,
    pub output_dir: Option<PathView>,
    pub tool: Option<PathView>,
    pub scratch: Option<PathView>,
    pub project: Option<PathView>,
    pub program: Option<PathView>,
    pub dest_dir: Option<PathView>,
    pub file_name: Option<Seq<char>>,
}

/// The view of an optional string.
pub open spec fn opt_chars(s: Option<String>) -> Option<Seq<char>> {
    match s {
        Some(t) => Some(t@),
        None => None,
    }
}

impl View for ConvertFlow {
    type V = ConvertFlowView;

    open spec fn view(&self) -> ConvertFlowView {
        ConvertFlowView {
            stage: self.stage,
            input: self.input@,
            output_dir: opt_path(self.output_dir),
            tool: opt_path(self.tool),
            scratch: opt_path(self.scratch),
            project: opt_path(self.project),
            program: opt_path(self.program),
            dest_dir: opt_path(self.dest_dir),
            file_name: opt_chars(self.file_name),
        }
    }
}

/// What the caller reports back after carrying out an action.
#[derive(Debug, PartialEq, Eq)]
pub enum ConvertEvent {
    /// The outcome of a toolchain lookup.
    Resolved(Option<ProgramPath>),
    /// The outcome of the toolchain set-up.
    Installed(Result<(), String>),
    /// Whether the input exists.
    Exists(bool),
    /// Whether the probed path is a folder.
    IsDir(bool),
    /// Whether the probed path is a file.
    IsFile(bool),
    /// The throw-away project folder, or why it could not be created.
    ScratchCreated(Result<ProgramPath, String>),
    /// The outcome of creating a folder and its parents.
    DirCreated(Result<(), String>),
    /// The text of the source file, or why it could not be read.
    SourceRead(Result<String, String>),
    /// The outcome of writing a file.
    Written(Result<(), String>),
    /// The outcome of the build.
    Built(Result<(), String>),
    /// The files in the output folders, folder by folder in the order asked,
    /// each folder in its listing order; a folder that cannot be listed adds
    /// nothing.
    Listed(Vec<OutputEntry>),
    /// The outcome of the copy.
    Copied(Result<(), String>),
    /// The bytes of the copy, or why they could not be read.
    BytesRead(Result<Vec<u8>, String>),
}

/// The mathematical value of a [`ConvertEvent`].
pub enum ConvertEventView {
    Resolved(Option<PathView>),
    Installed(Result<(), Seq<char>>),
    Exists(bool),
    IsDir(bool),
    IsFile(bool),
    ScratchCreated(Result<PathView, Seq<char>>),
    DirCreated(Result<(), Seq<char>>),
    SourceRead(Result<Seq<char>, Seq<char>>),
    Written(Result<(), Seq<char>>),
    Built(Result<(), Seq<char>>),
    Listed(Seq<(PathView, int)>),
    Copied(Result<(), Seq<char>>),
    BytesRead(Result<Seq<u8>, Seq<char>>),
}

impl View for ConvertEvent {
    type V = ConvertEventView;

    open spec fn view(&self) -> ConvertEventView {
        match self {
            ConvertEvent::Resolved(t) => ConvertEventView::Resolved(opt_path(*t)),
            ConvertEvent::Installed(r) => ConvertEventView::Installed(unit_result(*r)),
            ConvertEvent::Exists(b) => ConvertEventView::Exists(*b),
            ConvertEvent::IsDir(b) => ConvertEventView::IsDir(*b),
            ConvertEvent::IsFile(b) => ConvertEventView::IsFile(*b),
            ConvertEvent::ScratchCreated(r) => ConvertEventView::ScratchCreated(
                match r {
                    Ok(p) => Ok(p@),
                    Err(e) => Err(e@),
                },
            ),
            ConvertEvent::DirCreated(r) => ConvertEventView::DirCreated(unit_result(*r)),
            ConvertEvent::SourceRead(r) => ConvertEventView::SourceRead(
                match r {
                    Ok(t) => Ok(t@),
                    Err(e) => Err(e@),
                },
            ),
            ConvertEvent::Written(r) => ConvertEventView::Written(unit_result(*r)),
            ConvertEvent::Built(r) => ConvertEventView::Built(unit_result(*r)),
            ConvertEvent::Listed(v) => ConvertEventView::Listed(entries_view(v@)),
            ConvertEvent::Copied(r) => ConvertEventView::Copied(unit_result(*r)),
            ConvertEvent::BytesRead(r) => ConvertEventView::BytesRead(
                match r {
                    Ok(b) => Ok(b@),
                    Err(e) => Err(e@),
                },
            ),
        }
    }
}

/// What the caller is asked to do, in order.
#[derive(Debug, PartialEq, Eq)]
pub enum ConvertAction {
    /// Look the toolchain up; report `Resolved`.
    Resolve,
    /// Run the toolchain set-up; report `Installed`.
    Install,
    /// Show a line in the log.
    Emit(String),
    /// Check that the path exists; report `Exists`.
    CheckExists(ProgramPath),
    /// Check whether the path is a folder; report `IsDir`.
    ProbeDir(ProgramPath),
    /// Check whether the path is a file; report `IsFile`.
    ProbeFile(ProgramPath),
    /// Create a fresh temporary folder whose name starts with
    /// `SCRATCH_PREFIX`, kept until the conversion ends; report
    /// `ScratchCreated`.
    CreateScratch,
    /// Create the folder and its parents; report `DirCreated`.
    CreateDirAll(ProgramPath),
    /// Read the file as text; report `SourceRead`.
    ReadText(ProgramPath),
    /// Write the text to the file; report `Written`.
    WriteText(ProgramPath, String),
    /// Run the build of the project with the driver, streaming its log;
    /// report `Built`.
    RunBuild(ProgramPath, ProgramPath),
    /// List the files of these folders; report `Listed`.
    ListOutputs(Vec<ProgramPath>),
    /// Copy the first file to the second; report `Copied`.
    CopyFile(ProgramPath, ProgramPath),
    /// Read the file's bytes; report `BytesRead`.
    ReadBytes(ProgramPath),
    /// The conversion is over, with this outcome.
    Finish(Result<ConvertResult, String>),
}

/// The mathematical value of a [`ConvertAction`].
pub enum ConvertActionView {
    Resolve,
    Install,
    Emit(Seq<char>),
    CheckExists(PathView),
    ProbeDir(PathView),
    ProbeFile(PathView),
    CreateScratch,
    CreateDirAll(PathView),
    ReadText(PathView),
    WriteText(PathView, Seq<char>),
    RunBuild(PathView, PathView),
    ListOutputs(Seq<PathView>),
    CopyFile(PathView, PathView),
    ReadBytes(PathView),
    Finish(Result<ConvertResultView, Seq<char>>),
}

impl View for ConvertAction {
    type V = ConvertActionView;

    open spec fn view(&self) -> ConvertActionView {
        match self {
            ConvertAction::Resolve => ConvertActionView::Resolve,
            ConvertAction::Install => ConvertActionView::Install,
            ConvertAction::Emit(m) => ConvertActionView::Emit(m@),
            ConvertAction::CheckExists(p) => ConvertActionView::CheckExists(p@),
            ConvertAction::ProbeDir(p) => ConvertActionView::ProbeDir(p@),
            ConvertAction::ProbeFile(p) => ConvertActionView::ProbeFile(p@),
            ConvertAction::CreateScratch => ConvertActionView::CreateScratch,
            ConvertAction::CreateDirAll(p) => ConvertActionView::CreateDirAll(p@),
            ConvertAction::ReadText(p) => ConvertActionView::ReadText(p@),
            ConvertAction::WriteText(p, t) => ConvertActionView::WriteText(p@, t@),
            ConvertAction::RunBuild(t, p) => ConvertActionView::RunBuild(t@, p@),
            ConvertAction::ListOutputs(v) => ConvertActionView::ListOutputs(paths_view(v@)),
            ConvertAction::CopyFile(a, b) => ConvertActionView::CopyFile(a@, b@),
            ConvertAction::ReadBytes(p) => ConvertActionView::ReadBytes(p@),
            ConvertAction::Finish(r) => ConvertActionView::Finish(
                match r {
                    Ok(c) => Ok(c@),
                    Err(e) => Err(e@),
                },
            ),
        }
    }
}

/// The views of a list of conversion actions.
pub open spec fn convert_actions_view(v: Seq<ConvertAction>) -> Seq<ConvertActionView> {
    v.map_values(|a: ConvertAction| a@)
}

/// Whether the conversion, at this stage, expects this kind of event.
pub open spec fn convert_accepts(stage: ConvertStage, e: ConvertEventView) -> bool {
    match stage {
        ConvertStage::FirstLookup | ConvertStage::SecondLookup => e is Resolved,
        ConvertStage::Installing => e is Installed,
        ConvertStage::CheckingInput => e is Exists,
        ConvertStage::ProbingFolder => e is IsDir,
        ConvertStage::ProbingManifest => e is IsFile,
        ConvertStage::CreatingScratch => e is ScratchCreated,
        ConvertStage::CreatingScratchSrc | ConvertStage::CreatingDest => e is DirCreated,
        ConvertStage::ReadingSource => e is SourceRead,
        ConvertStage::WritingLib | ConvertStage::WritingManifest => e is Written,
        ConvertStage::Building => e is Built,
        ConvertStage::Listing => e is Listed,
        ConvertStage::Copying => e is Copied,
        ConvertStage::ReadingOutput => e is BytesRead,
        ConvertStage::Done => false,
    }
}

/// Whether the stage comes after the toolchain was found.
pub open spec fn has_toolchain(stage: ConvertStage) -> bool {
    !(stage == ConvertStage::FirstLookup || stage == ConvertStage::Installing || stage
        == ConvertStage::SecondLookup || stage == ConvertStage::Done)
}

/// Whether the stage works inside the throw-away project.
pub open spec fn in_scratch(stage: ConvertStage) -> bool {
    stage == ConvertStage::CreatingScratchSrc || stage == ConvertStage::ReadingSource || stage
        == ConvertStage::WritingLib || stage == ConvertStage::WritingManifest
}

/// Whether the stage handles the produced program.
pub open spec fn delivering(stage: ConvertStage) -> bool {
    stage == ConvertStage::CreatingDest || stage == ConvertStage::Copying || stage
        == ConvertStage::ReadingOutput
}

/// What a conversion holds at each stage: the toolchain once it is found,
/// the throw-away project while it is filled, the project while it is built
/// and searched, the program, its destination and file name while it is
/// delivered.
pub open spec fn convert_wf(f: ConvertFlowView) -> bool {
    &&& has_toolchain(f.stage) ==> f.tool is Some
    &&& in_scratch(f.stage) ==> f.scratch is Some
    &&& (f.stage == ConvertStage::Building || f.stage == ConvertStage::Listing) ==> f.project is Some
    &&& delivering(f.stage) ==> f.program is Some && f.dest_dir is Some && f.file_name is Some
}

/// Ends the conversion with an error.
pub open spec fn fail_with(f: ConvertFlowView, reason: Seq<char>) -> (ConvertFlowView, Seq<
    ConvertActionView,
>) {
    (ConvertFlowView { stage: ConvertStage::Done, ..f }, seq![ConvertActionView::Finish(Err(reason))])
}

/// Announces the project and starts its build with the toolchain found.
pub open spec fn start_build(f: ConvertFlowView, project: PathView) -> (
    ConvertFlowView,
    Seq<ConvertActionView>,
) {
    (
        ConvertFlowView { stage: ConvertStage::Building, project: Some(project), ..f },
        seq![
            ConvertActionView::Emit(PROJECT_MESSAGE@ + render_spec(project)),
            ConvertActionView::Emit(BUILD_START_MESSAGE@),
            ConvertActionView::RunBuild(f.tool->0, project),
        ],
    )
}

/// An input that is not a Cargo project: a `.rs` file is wrapped in a
/// throw-away project, anything else is refused.
pub open spec fn wrap_or_refuse(f: ConvertFlowView) -> (ConvertFlowView, Seq<ConvertActionView>) {
    if extension_spec(f.input) == Some("rs"@) {
        (
            ConvertFlowView { stage: ConvertStage::CreatingScratch, ..f },
            seq![ConvertActionView::CreateScratch],
        )
    } else {
        fail_with(f, UNSUPPORTED_ERROR@)
    }
}

/// The folder built for a selected `Cargo.toml`: its parent, or `.`.
pub open spec fn manifest_folder(input: PathView) -> PathView {
    match parent_spec(input) {
        Some(p) => p,
        None => cur_dir_spec(input.separator),
    }
}

/// The conversion's next state and actions after an event it expects.
pub open spec fn convert_next(f: ConvertFlowView, e: ConvertEventView) -> (
    ConvertFlowView,
    Seq<ConvertActionView>,
) {
    match (f.stage, e) {
        (ConvertStage::FirstLookup, ConvertEventView::Resolved(Some(t))) => (
            ConvertFlowView { stage: ConvertStage::CheckingInput, tool: Some(t), ..f },
            seq![ConvertActionView::CheckExists(f.input)],
        ),
        (ConvertStage::FirstLookup, ConvertEventView::Resolved(None)) => (
            ConvertFlowView { stage: ConvertStage::Installing, ..f },
            seq![ConvertActionView::Emit(INSTALLING_MESSAGE@), ConvertActionView::Install],
        ),
        (ConvertStage::Installing, ConvertEventView::Installed(Err(reason))) => fail_with(
            f,
            reason,
        ),
        (ConvertStage::Installing, ConvertEventView::Installed(Ok(()))) => (
            ConvertFlowView { stage: ConvertStage::SecondLookup, ..f },
            seq![ConvertActionView::Resolve],
        ),
        (ConvertStage::SecondLookup, ConvertEventView::Resolved(Some(t))) => (
            ConvertFlowView { stage: ConvertStage::CheckingInput, tool: Some(t), ..f },
            seq![ConvertActionView::CheckExists(f.input)],
        ),
        (ConvertStage::SecondLookup, ConvertEventView::Resolved(None)) => fail_with(
            f,
            SETUP_UNFINISHED_ERROR@,
        ),
        (ConvertStage::CheckingInput, ConvertEventView::Exists(false)) => fail_with(
            f,
            INPUT_NOT_FOUND_ERROR@ + render_spec(f.input),
        ),
        (ConvertStage::CheckingInput, ConvertEventView::Exists(true)) => if file_name_spec(f.input)
            == Some("Cargo.toml"@) {
            start_build(f, manifest_folder(f.input))
        } else {
            (
                ConvertFlowView { stage: ConvertStage::ProbingFolder, ..f },
                seq![ConvertActionView::ProbeDir(f.input)],
            )
        },
        (ConvertStage::ProbingFolder, ConvertEventView::IsDir(true)) => (
            ConvertFlowView { stage: ConvertStage::ProbingManifest, ..f },
            seq![ConvertActionView::ProbeFile(join_spec(f.input, "Cargo.toml"@))],
        ),
        (ConvertStage::ProbingFolder, ConvertEventView::IsDir(false)) => wrap_or_refuse(f),
        (ConvertStage::ProbingManifest, ConvertEventView::IsFile(true)) => start_build(f, f.input),
        (ConvertStage::ProbingManifest, ConvertEventView::IsFile(false)) => wrap_or_refuse(f),
        (ConvertStage::CreatingScratch, ConvertEventView::ScratchCreated(Err(reason))) => fail_with(
            f,
            SCRATCH_ERROR@ + reason,
        ),
        (ConvertStage::CreatingScratch, ConvertEventView::ScratchCreated(Ok(dir))) => (
            ConvertFlowView { stage: ConvertStage::CreatingScratchSrc, scratch: Some(dir), ..f },
            seq![ConvertActionView::CreateDirAll(join_spec(dir, "src"@))],
        ),
        (ConvertStage::CreatingScratchSrc, ConvertEventView::DirCreated(Err(reason))) => fail_with(
            f,
            reason,
        ),
        (ConvertStage::CreatingScratchSrc, ConvertEventView::DirCreated(Ok(()))) => (
            ConvertFlowView { stage: ConvertStage::ReadingSource, ..f },
            seq![ConvertActionView::ReadText(f.input)],
        ),
        (ConvertStage::ReadingSource, ConvertEventView::SourceRead(Err(reason))) => fail_with(
            f,
            READ_SOURCE_ERROR@ + reason,
        ),
        (ConvertStage::ReadingSource, ConvertEventView::SourceRead(Ok(text))) => (
            ConvertFlowView { stage: ConvertStage::WritingLib, ..f },
            seq![
                ConvertActionView::WriteText(
                    join_spec(join_spec(f.scratch->0, "src"@), "lib.rs"@),
                    text,
                ),
            ],
        ),
        (ConvertStage::WritingLib, ConvertEventView::Written(Err(reason))) => fail_with(f, reason),
        (ConvertStage::WritingLib, ConvertEventView::Written(Ok(()))) => (
            ConvertFlowView { stage: ConvertStage::WritingManifest, ..f },
            seq![
                ConvertActionView::WriteText(
                    join_spec(f.scratch->0, "Cargo.toml"@),
                    manifest_spec(crate_name_spec(f.input)),
                ),
            ],
        ),
        (ConvertStage::WritingManifest, ConvertEventView::Written(Err(reason))) => fail_with(
            f,
            reason,
        ),
        (ConvertStage::WritingManifest, ConvertEventView::Written(Ok(()))) => start_build(
            f,
            f.scratch->0,
        ),
        (ConvertStage::Building, ConvertEventView::Built(Err(reason))) => fail_with(f, reason),
        (ConvertStage::Building, ConvertEventView::Built(Ok(()))) => (
            ConvertFlowView { stage: ConvertStage::Listing, ..f },
            seq![ConvertActionView::ListOutputs(output_dirs_spec(f.project->0))],
        ),
        (ConvertStage::Listing, ConvertEventView::Listed(entries)) => match freshest_spec(
            entries,
        ) {
            None => fail_with(f, NO_OUTPUT_ERROR@),
            Some(program) => {
                let dest = destination_spec(f.output_dir, f.input);
                (
                    ConvertFlowView {
                        stage: ConvertStage::CreatingDest,
                        program: Some(program),
                        dest_dir: Some(dest),
                        file_name: Some(program_name_spec(program)),
                        ..f
                    },
                    seq![
                        ConvertActionView::Emit(FOUND_MESSAGE@ + render_spec(program)),
                        ConvertActionView::CreateDirAll(dest),
                    ],
                )
            },
        },
        (ConvertStage::CreatingDest, ConvertEventView::DirCreated(Err(reason))) => fail_with(
            f,
            CREATE_OUTPUT_ERROR@ + reason,
        ),
        (ConvertStage::CreatingDest, ConvertEventView::DirCreated(Ok(()))) => (
            ConvertFlowView { stage: ConvertStage::Copying, ..f },
            seq![
                ConvertActionView::CopyFile(
                    f.program->0,
                    join_spec(f.dest_dir->0, f.file_name->0),
                ),
            ],
        ),
        (ConvertStage::Copying, ConvertEventView::Copied(Err(reason))) => fail_with(
            f,
            COPY_ERROR@ + reason,
        ),
        (ConvertStage::Copying, ConvertEventView::Copied(Ok(()))) => (
            ConvertFlowView { stage: ConvertStage::ReadingOutput, ..f },
            seq![ConvertActionView::ReadBytes(join_spec(f.dest_dir->0, f.file_name->0))],
        ),
        (ConvertStage::ReadingOutput, ConvertEventView::BytesRead(Err(reason))) => fail_with(
            f,
            READ_OUTPUT_ERROR@ + reason,
        ),
        (ConvertStage::ReadingOutput, ConvertEventView::BytesRead(Ok(bytes))) => (
            ConvertFlowView { stage: ConvertStage::Done, ..f },
            seq![
                ConvertActionView::Emit(
                    COPIED_MESSAGE@ + render_spec(join_spec(f.dest_dir->0, f.file_name->0)),
                ),
                ConvertActionView::Emit(DONE_MESSAGE@),
                ConvertActionView::Finish(
                    Ok(
                        conversion_result_spec(
                            f.dest_dir->0,
                            f.file_name->0,
                            bytes.len() as u64,
                            hex_lower_spec(sha256_of(bytes)),
                        ),
                    ),
                ),
            ],
        ),
        _ => (f, Seq::empty()),
    }
}


/// Starts a conversion of `input`, copying the program to `output_dir` when
/// one is chosen: the first thing to do is to look the toolchain up.
pub fn convert_begin(input: ProgramPath, output_dir: Option<ProgramPath>) -> (res: (
    ConvertFlow,
    Vec<ConvertAction>,
))
    ensures
        res.0@ == (ConvertFlowView {
            stage: ConvertStage::FirstLookup,
            input: input@,
            output_dir: opt_path(output_dir),
            tool: None,
            scratch: None,
            project: None,
            program: None,
            dest_dir: None,
            file_name: None,
        }),
        convert_actions_view(res.1@) == seq![ConvertActionView::Resolve],
{
    let actions = vec![ConvertAction::Resolve];
    assert(convert_actions_view(actions@) =~= seq![ConvertActionView::Resolve]);
    (
        ConvertFlow {
            stage: ConvertStage::FirstLookup,
            input,
            output_dir,
            tool: None,
            scratch: None,
            project: None,
            program: None,
            dest_dir: None,
            file_name: None,
        },
        actions,
    )
}

/// Whether `s` has the form of a reported SHA-256 digest: 64 lower-case
/// hexadecimal digits.
pub open spec fn is_hex_digest(s: Seq<char>) -> bool {
    &&& s.len() == 64
    &&& forall|j: int| 0 <= j < s.len() ==> is_lower_hex_digit(#[trigger] s[j])
}

/// Whether every successful report among `acts` carries a digest of the
/// form [`is_hex_digest`] describes.
pub open spec fn reports_hex_digests(acts: Seq<ConvertActionView>) -> bool {
    forall|i: int|
        #![trigger acts[i]]
        0 <= i < acts.len() ==> match acts[i] {
            ConvertActionView::Finish(Ok(r)) => is_hex_digest(r.sha256),
            _ => true,
        }
}

/// One step of a conversion as [`convert`] promises it.
spec fn steps_to(
    f: ConvertFlowView,
    e: ConvertEventView,
    g: ConvertFlowView,
    acts: Seq<ConvertActionView>,
) -> bool {
    &&& (g, acts) == convert_next(f, e)
    &&& convert_wf(g)
    &&& reports_hex_digests(acts)
}

fn fail(flow: &mut ConvertFlow, reason: String) -> (actions: Vec<ConvertAction>)
    ensures
        (final(flow)@, convert_actions_view(actions@)) == fail_with(old(flow)@, reason@),
        reports_hex_digests(convert_actions_view(actions@)),
{
    flow.stage = ConvertStage::Done;
    let ghost r = reason@;
    let actions = vec![ConvertAction::Finish(Err(reason))];
    assert(convert_actions_view(actions@) =~= seq![ConvertActionView::Finish(Err(r))]);
    actions
}

fn copy_path(p: &Option<ProgramPath>) -> (res: ProgramPath)
    requires
        p is Some,
    ensures
        res@ == p->0@,
{
    match p {
        Some(q) => q.duplicate(),
        None => ProgramPath::empty('/'),
    }
}

fn begin_building(flow: &mut ConvertFlow, project: ProgramPath) -> (actions: Vec<ConvertAction>)
    requires
        old(flow).tool is Some,
    ensures
        (final(flow)@, convert_actions_view(actions@)) == start_build(old(flow)@, project@),
        reports_hex_digests(convert_actions_view(actions@)),
{
    let shown = project.render();
    let tool = copy_path(&flow.tool);
    let project_copy = project.duplicate();
    let mut actions: Vec<ConvertAction> = Vec::new();
    actions.push(ConvertAction::Emit(prefixed(PROJECT_MESSAGE, shown.as_str())));
    actions.push(ConvertAction::Emit(BUILD_START_MESSAGE.to_owned()));
    actions.push(ConvertAction::RunBuild(tool, project_copy));
    flow.stage = ConvertStage::Building;
    flow.project = Some(project);
    assert(convert_actions_view(actions@) =~= start_build(old(flow)@, project@).1);
    actions
}

fn wrap_or_refuse_input(flow: &mut ConvertFlow) -> (actions: Vec<ConvertAction>)
    ensures
        (final(flow)@, convert_actions_view(actions@)) == wrap_or_refuse(old(flow)@),
        reports_hex_digests(convert_actions_view(actions@)),
{
    let is_rust = match flow.input.extension() {
        Some(ext) => ext == "rs".to_owned(),
        None => false,
    };
    if is_rust {
        flow.stage = ConvertStage::CreatingScratch;
        single(ConvertAction::CreateScratch)
    } else {
        fail(flow, UNSUPPORTED_ERROR.to_owned())
    }
}

fn single(action: ConvertAction) -> (actions: Vec<ConvertAction>)
    requires
        !(action is Finish),
    ensures
        convert_actions_view(actions@) == seq![action@],
        reports_hex_digests(convert_actions_view(actions@)),
{
    let ghost a = action@;
    let actions = vec![action];
    assert(convert_actions_view(actions@) =~= seq![a]);
    actions
}

fn on_resolved(flow: &mut ConvertFlow, tool: Option<ProgramPath>) -> (actions: Vec<ConvertAction>)
    requires
        convert_accepts(old(flow).stage, ConvertEvent::Resolved(tool)@),
        convert_wf(old(flow)@),
    ensures
        steps_to(
            old(flow)@,
            ConvertEvent::Resolved(tool)@,
            final(flow)@,
            convert_actions_view(actions@),
        ),
{
    match tool {
        Some(t) => {
            flow.stage = ConvertStage::CheckingInput;
            flow.tool = Some(t);
            single(ConvertAction::CheckExists(flow.input.duplicate()))
        },
        None => {
            if flow.stage == ConvertStage::FirstLookup {
                flow.stage = ConvertStage::Installing;
                let mut actions: Vec<ConvertAction> = Vec::new();
                actions.push(ConvertAction::Emit(INSTALLING_MESSAGE.to_owned()));
                actions.push(ConvertAction::Install);
                assert(convert_actions_view(actions@) =~= seq![
                    ConvertActionView::Emit(INSTALLING_MESSAGE@),
                    ConvertActionView::Install,
                ]);
                actions
            } else {
                fail(flow, SETUP_UNFINISHED_ERROR.to_owned())
            }
        },
    }
}

fn on_installed(flow: &mut ConvertFlow, outcome: Result<(), String>) -> (actions: Vec<
    ConvertAction,
>)
    requires
        convert_accepts(old(flow).stage, ConvertEvent::Installed(outcome)@),
        convert_wf(old(flow)@),
    ensures
        steps_to(
            old(flow)@,
            ConvertEvent::Installed(outcome)@,
            final(flow)@,
            convert_actions_view(actions@),
        ),
{
    match outcome {
        Err(reason) => fail(flow, reason),
        Ok(()) => {
            flow.stage = ConvertStage::SecondLookup;
            single(ConvertAction::Resolve)
        },
    }
}

fn on_exists(flow: &mut ConvertFlow, found: bool) -> (actions: Vec<ConvertAction>)
    requires
        convert_accepts(old(flow).stage, ConvertEvent::Exists(found)@),
        convert_wf(old(flow)@),
    ensures
        steps_to(
            old(flow)@,
            ConvertEvent::Exists(found)@,
            final(flow)@,
            convert_actions_view(actions@),
        ),
{
    if !found {
        let shown = flow.input.render();
        return fail(flow, prefixed(INPUT_NOT_FOUND_ERROR, shown.as_str()));
    }
    let is_manifest = match flow.input.file_name() {
        Some(n) => n == "Cargo.toml".to_owned(),
        None => false,
    };
    if is_manifest {
        let folder = match flow.input.parent() {
            Some(p) => p,
            None => ProgramPath::current_dir(flow.input.separator),
        };
        begin_building(flow, folder)
    } else {
        flow.stage = ConvertStage::ProbingFolder;
        single(ConvertAction::ProbeDir(flow.input.duplicate()))
    }
}

fn on_is_dir(flow: &mut ConvertFlow, is_dir: bool) -> (actions: Vec<ConvertAction>)
    requires
        convert_accepts(old(flow).stage, ConvertEvent::IsDir(is_dir)@),
        convert_wf(old(flow)@),
    ensures
        steps_to(
            old(flow)@,
            ConvertEvent::IsDir(is_dir)@,
            final(flow)@,
            convert_actions_view(actions@),
        ),
{
    if is_dir {
        flow.stage = ConvertStage::ProbingManifest;
        single(ConvertAction::ProbeFile(flow.input.join("Cargo.toml")))
    } else {
        wrap_or_refuse_input(flow)
    }
}

fn on_is_file(flow: &mut ConvertFlow, is_file: bool) -> (actions: Vec<ConvertAction>)
    requires
        convert_accepts(old(flow).stage, ConvertEvent::IsFile(is_file)@),
        convert_wf(old(flow)@),
    ensures
        steps_to(
            old(flow)@,
            ConvertEvent::IsFile(is_file)@,
            final(flow)@,
            convert_actions_view(actions@),
        ),
{
    if is_file {
        let project = flow.input.duplicate();
        begin_building(flow, project)
    } else {
        wrap_or_refuse_input(flow)
    }
}

fn on_scratch(flow: &mut ConvertFlow, outcome: Result<ProgramPath, String>) -> (actions: Vec<
    ConvertAction,
>)
    requires
        convert_accepts(old(flow).stage, ConvertEvent::ScratchCreated(outcome)@),
        convert_wf(old(flow)@),
    ensures
        steps_to(
            old(flow)@,
            ConvertEvent::ScratchCreated(outcome)@,
            final(flow)@,
            convert_actions_view(actions@),
        ),
{
    match outcome {
        Err(reason) => fail(flow, prefixed(SCRATCH_ERROR, reason.as_str())),
        Ok(dir) => {
            let src = dir.join("src");
            flow.stage = ConvertStage::CreatingScratchSrc;
            flow.scratch = Some(dir);
            single(ConvertAction::CreateDirAll(src))
        },
    }
}

fn on_dir_created(flow: &mut ConvertFlow, outcome: Result<(), String>) -> (actions: Vec<
    ConvertAction,
>)
    requires
        convert_accepts(old(flow).stage, ConvertEvent::DirCreated(outcome)@),
        convert_wf(old(flow)@),
    ensures
        steps_to(
            old(flow)@,
            ConvertEvent::DirCreated(outcome)@,
            final(flow)@,
            convert_actions_view(actions@),
        ),
{
    let for_scratch = flow.stage == ConvertStage::CreatingScratchSrc;
    match outcome {
        Err(reason) => {
            if for_scratch {
                fail(flow, reason)
            } else {
                fail(flow, prefixed(CREATE_OUTPUT_ERROR, reason.as_str()))
            }
        },
        Ok(()) => {
            if for_scratch {
                flow.stage = ConvertStage::ReadingSource;
                single(ConvertAction::ReadText(flow.input.duplicate()))
            } else {
                let from = copy_path(&flow.program);
                let to = match &flow.file_name {
                    Some(n) => copy_path(&flow.dest_dir).join(n.as_str()),
                    None => ProgramPath::empty('/'),
                };
                flow.stage = ConvertStage::Copying;
                single(ConvertAction::CopyFile(from, to))
            }
        },
    }
}

fn on_source_read(flow: &mut ConvertFlow, outcome: Result<String, String>) -> (actions: Vec<
    ConvertAction,
>)
    requires
        convert_accepts(old(flow).stage, ConvertEvent::SourceRead(outcome)@),
        convert_wf(old(flow)@),
    ensures
        steps_to(
            old(flow)@,
            ConvertEvent::SourceRead(outcome)@,
            final(flow)@,
            convert_actions_view(actions@),
        ),
{
    match outcome {
        Err(reason) => fail(flow, prefixed(READ_SOURCE_ERROR, reason.as_str())),
        Ok(text) => {
            let lib = copy_path(&flow.scratch).join("src").join("lib.rs");
            flow.stage = ConvertStage::WritingLib;
            single(ConvertAction::WriteText(lib, text))
        },
    }
}

fn on_written(flow: &mut ConvertFlow, outcome: Result<(), String>) -> (actions: Vec<
    ConvertAction,
>)
    requires
        convert_accepts(old(flow).stage, ConvertEvent::Written(outcome)@),
        convert_wf(old(flow)@),
    ensures
        steps_to(
            old(flow)@,
            ConvertEvent::Written(outcome)@,
            final(flow)@,
            convert_actions_view(actions@),
        ),
{
    match outcome {
        Err(reason) => fail(flow, reason),
        Ok(()) => {
            if flow.stage == ConvertStage::WritingLib {
                let manifest_path = copy_path(&flow.scratch).join("Cargo.toml");
                let name = crate_name(&flow.input);
                let manifest = cargo_manifest(name.as_str());
                flow.stage = ConvertStage::WritingManifest;
                single(ConvertAction::WriteText(manifest_path, manifest))
            } else {
                let project = copy_path(&flow.scratch);
                begin_building(flow, project)
            }
        },
    }
}

fn on_built(flow: &mut ConvertFlow, outcome: Result<(), String>) -> (actions: Vec<ConvertAction>)
    requires
        convert_accepts(old(flow).stage, ConvertEvent::Built(outcome)@),
        convert_wf(old(flow)@),
    ensures
        steps_to(
            old(flow)@,
            ConvertEvent::Built(outcome)@,
            final(flow)@,
            convert_actions_view(actions@),
        ),
{
    match outcome {
        Err(reason) => fail(flow, reason),
        Ok(()) => {
            let dirs = output_dirs(&copy_path(&flow.project));
            flow.stage = ConvertStage::Listing;
            single(ConvertAction::ListOutputs(dirs))
        },
    }
}

fn on_listed(flow: &mut ConvertFlow, entries: Vec<OutputEntry>) -> (actions: Vec<ConvertAction>)
    requires
        convert_accepts(old(flow).stage, ConvertEvent::Listed(entries)@),
        convert_wf(old(flow)@),
    ensures
        steps_to(
            old(flow)@,
            ConvertEvent::Listed(entries)@,
            final(flow)@,
            convert_actions_view(actions@),
        ),
{
    match freshest_output(&entries) {
        None => fail(flow, NO_OUTPUT_ERROR.to_owned()),
        Some(program) => {
            let dest = destination_dir(flow.output_dir.as_ref(), &flow.input);
            let name = program_name(&program);
            let shown = program.render();
            let mut actions: Vec<ConvertAction> = Vec::new();
            actions.push(ConvertAction::Emit(prefixed(FOUND_MESSAGE, shown.as_str())));
            actions.push(ConvertAction::CreateDirAll(dest.duplicate()));
            flow.stage = ConvertStage::CreatingDest;
            flow.program = Some(program);
            flow.dest_dir = Some(dest);
            flow.file_name = Some(name);
            assert(convert_actions_view(actions@) =~= convert_next(
                old(flow)@,
                ConvertEventView::Listed(entries_view(entries@)),
            ).1);
            actions
        },
    }
}

fn on_copied(flow: &mut ConvertFlow, outcome: Result<(), String>) -> (actions: Vec<
    ConvertAction,
>)
    requires
        convert_accepts(old(flow).stage, ConvertEvent::Copied(outcome)@),
        convert_wf(old(flow)@),
    ensures
        steps_to(
            old(flow)@,
            ConvertEvent::Copied(outcome)@,
            final(flow)@,
            convert_actions_view(actions@),
        ),
{
    match outcome {
        Err(reason) => fail(flow, prefixed(COPY_ERROR, reason.as_str())),
        Ok(()) => {
            let to = match &flow.file_name {
                Some(n) => copy_path(&flow.dest_dir).join(n.as_str()),
                None => ProgramPath::empty('/'),
            };
            flow.stage = ConvertStage::ReadingOutput;
            single(ConvertAction::ReadBytes(to))
        },
    }
}

fn on_bytes_read(flow: &mut ConvertFlow, outcome: Result<Vec<u8>, String>) -> (actions: Vec<
    ConvertAction,
>)
    requires
        convert_accepts(old(flow).stage, ConvertEvent::BytesRead(outcome)@),
        convert_wf(old(flow)@),
    ensures
        steps_to(
            old(flow)@,
            ConvertEvent::BytesRead(outcome)@,
            final(flow)@,
            convert_actions_view(actions@),
        ),
{
    let bytes = match outcome {
        Err(reason) => {
            return fail(flow, prefixed(READ_OUTPUT_ERROR, reason.as_str()));
        },
        Ok(bytes) => bytes,
    };
    let dest_dir = copy_path(&flow.dest_dir);
    let name = match &flow.file_name {
        Some(n) => n.clone(),
        None => String::new(),
    };
    let dest = dest_dir.join(name.as_str());
    let shown = dest.render();
    let size = bytes.len() as u64;
    let digest = sha256_hex(bytes.as_slice());
    let ghost digest_text = digest@;
    let report = conversion_result(&dest_dir, name.as_str(), size, digest);
    let mut actions: Vec<ConvertAction> = Vec::new();
    actions.push(ConvertAction::Emit(prefixed(COPIED_MESSAGE, shown.as_str())));
    actions.push(ConvertAction::Emit(DONE_MESSAGE.to_owned()));
    actions.push(ConvertAction::Finish(Ok(report)));
    flow.stage = ConvertStage::Done;
    assert(convert_actions_view(actions@) =~= convert_next(
        old(flow)@,
        ConvertEventView::BytesRead(Ok(bytes@)),
    ).1);
    assert(is_hex_digest(digest_text));
    actions
}

/// Advances a conversion by one event and returns the actions to carry out
/// next, in order. A report of success among them carries the SHA-256 of the
/// bytes read back as 64 lower-case hexadecimal digits.
pub fn convert(flow: &mut ConvertFlow, event: ConvertEvent) -> (actions: Vec<ConvertAction>)
    requires
        convert_accepts(old(flow).stage, event@),
        convert_wf(old(flow)@),
    ensures
        (final(flow)@, convert_actions_view(actions@)) == convert_next(old(flow)@, event@),
        convert_wf(final(flow)@),
        reports_hex_digests(convert_actions_view(actions@)),
{
    match event {
        ConvertEvent::Resolved(tool) => on_resolved(flow, tool),
        ConvertEvent::Installed(outcome) => on_installed(flow, outcome),
        ConvertEvent::Exists(found) => on_exists(flow, found),
        ConvertEvent::IsDir(is_dir) => on_is_dir(flow, is_dir),
        ConvertEvent::IsFile(is_file) => on_is_file(flow, is_file),
        ConvertEvent::ScratchCreated(outcome) => on_scratch(flow, outcome),
        ConvertEvent::DirCreated(outcome) => on_dir_created(flow, outcome),
        ConvertEvent::SourceRead(outcome) => on_source_read(flow, outcome),
        ConvertEvent::Written(outcome) => on_written(flow, outcome),
        ConvertEvent::Built(outcome) => on_built(flow, outcome),
        ConvertEvent::Listed(entries) => on_listed(flow, entries),
        ConvertEvent::Copied(outcome) => on_copied(flow, outcome),
        ConvertEvent::BytesRead(outcome) => on_bytes_read(flow, outcome),
    }
}

/// What holds of every conversion between events: [`convert_wf`], and while
/// the program is delivered, it is a `.so`, its destination is the chosen
/// output folder (or the input's folder, or `.`), and it keeps its own file
/// name (or `program.so`).
pub open spec fn convert_inv(f: ConvertFlowView) -> bool {
    &&& convert_wf(f)
    &&& delivering(f.stage) ==> {
        &&& f.dest_dir == Some(destination_spec(f.output_dir, f.input))
        &&& is_program(f.program->0)
        &&& f.file_name == Some(program_name_spec(f.program->0))
    }
}

/// A conversion starts in a state where its invariant holds.
pub proof fn convert_begin_establishes_invariant(
    input: PathView,
    output_dir: Option<PathView>,
)
    ensures
        convert_inv(
            ConvertFlowView {
                stage: ConvertStage::FirstLookup,
                input,
                output_dir,
                tool: None,
                scratch: None,
                project: None,
                program: None,
                dest_dir: None,
                file_name: None,
            },
        ),
{
}

/// Every step keeps the invariant and never changes the input or the chosen
/// output folder.
pub proof fn convert_step_keeps_invariant(f: ConvertFlowView, e: ConvertEventView)
    requires
        convert_inv(f),
        convert_accepts(f.stage, e),
    ensures
        convert_inv(convert_next(f, e).0),
        convert_next(f, e).0.input == f.input,
        convert_next(f, e).0.output_dir == f.output_dir,
{
    if let ConvertEventView::Listed(entries) = e {
        freshest_is_latest(entries);
    }
}

/// A conversion that succeeds reports the copy it made: the program, a
/// `.so`, was copied under its own file name (or `program.so`) into the
/// chosen output folder (or beside the input, or `.`), and the reported size
/// and SHA-256 are those of the bytes read back from the copy.
pub proof fn convert_success_reports_copy(
    f: ConvertFlowView,
    e: ConvertEventView,
    r: ConvertResultView,
)
    requires
        convert_inv(f),
        convert_accepts(f.stage, e),
        convert_next(f, e).1.contains(ConvertActionView::Finish(Ok(r))),
    ensures
        e is BytesRead && e->BytesRead_0 is Ok,
        f.program is Some && is_program(f.program->0),
        r == conversion_result_spec(
            destination_spec(f.output_dir, f.input),
            program_name_spec(f.program->0),
            (e->BytesRead_0->Ok_0).len() as u64,
            hex_lower_spec(sha256_of(e->BytesRead_0->Ok_0)),
        ),
{
    let acts = convert_next(f, e).1;
    let k = choose|k: int| 0 <= k < acts.len() && acts[k] == ConvertActionView::Finish(Ok(r));
    if let ConvertEventView::Listed(entries) = e {
        freshest_is_latest(entries);
    }
}

/// Whether the event reports a failure: a missing input, or an error from
/// the set-up, the file system or the build.
pub open spec fn is_failure(e: ConvertEventView) -> bool {
    match e {
        ConvertEventView::Exists(b) => !b,
        ConvertEventView::Installed(r) => r is Err,
        ConvertEventView::ScratchCreated(r) => r is Err,
        ConvertEventView::DirCreated(r) => r is Err,
        ConvertEventView::SourceRead(r) => r is Err,
        ConvertEventView::Written(r) => r is Err,
        ConvertEventView::Built(r) => r is Err,
        ConvertEventView::Copied(r) => r is Err,
        ConvertEventView::BytesRead(r) => r is Err,
        _ => false,
    }
}

/// A reported failure ends the conversion at once with an error, and nothing
/// else is done.
pub proof fn convert_failure_ends(f: ConvertFlowView, e: ConvertEventView)
    requires
        convert_accepts(f.stage, e),
        is_failure(e),
    ensures
        convert_next(f, e).0.stage == ConvertStage::Done,
        convert_next(f, e).1.len() == 1,
        convert_next(f, e).1[0] is Finish && convert_next(f, e).1[0]->Finish_0 is Err,
{
}

/// The position of a stage in the order in which a conversion goes through
/// them.
pub open spec fn convert_rank(stage: ConvertStage) -> nat {
    match stage {
        ConvertStage::FirstLookup => 0,
        ConvertStage::Installing => 1,
        ConvertStage::SecondLookup => 2,
        ConvertStage::CheckingInput => 3,
        ConvertStage::ProbingFolder => 4,
        ConvertStage::ProbingManifest => 5,
        ConvertStage::CreatingScratch => 6,
        ConvertStage::CreatingScratchSrc => 7,
        ConvertStage::ReadingSource => 8,
        ConvertStage::WritingLib => 9,
        ConvertStage::WritingManifest => 10,
        ConvertStage::Building => 11,
        ConvertStage::Listing => 12,
        ConvertStage::CreatingDest => 13,
        ConvertStage::Copying => 14,
        ConvertStage::ReadingOutput => 15,
        ConvertStage::Done => 16,
    }
}

/// Every step moves the conversion strictly forward, so a conversion takes
/// at most sixteen events from its start before it is done.
pub proof fn convert_step_moves_forward(f: ConvertFlowView, e: ConvertEventView)
    requires
        convert_accepts(f.stage, e),
    ensures
        convert_rank(convert_next(f, e).0.stage) > convert_rank(f.stage),
{
}

/// The conversion driven through a sequence of events: the final state and
/// every action asked for on the way, or `None` when an event comes that the
/// conversion does not expect at that point.
pub open spec fn convert_run(f: ConvertFlowView, events: Seq<ConvertEventView>) -> Option<
    (ConvertFlowView, Seq<ConvertActionView>),
>
    decreases events.len(),
{
    if events.len() == 0 {
        Some((f, Seq::empty()))
    } else if !convert_accepts(f.stage, events[0]) {
        None
    } else {
        let (g, acts) = convert_next(f, events[0]);
        match convert_run(g, events.drop_first()) {
            Some((h, rest)) => Some((h, acts + rest)),
            None => None,
        }
    }
}

/// A step taken once the toolchain is known neither looks it up nor installs
/// it, and leaves the conversion with the toolchain known or done.
#[verifier::rlimit(40)]
pub proof fn convert_step_after_toolchain(f: ConvertFlowView, e: ConvertEventView)
    requires
        has_toolchain(f.stage),
        convert_accepts(f.stage, e),
    ensures
        has_toolchain(convert_next(f, e).0.stage) || convert_next(f, e).0.stage
            == ConvertStage::Done,
        forall|i: int|
            0 <= i < convert_next(f, e).1.len() ==> !(#[trigger] convert_next(f, e).1[i] is Install)
                && !(convert_next(f, e).1[i] is Resolve),
{
    if let ConvertEventView::Listed(entries) = e {
        freshest_is_latest(entries);
    }
}

/// Once the toolchain is known (or the conversion is over), no later step
/// looks it up again or installs it.
pub proof fn convert_no_lookup_after_toolchain(f: ConvertFlowView, events: Seq<ConvertEventView>)
    requires
        has_toolchain(f.stage) || f.stage == ConvertStage::Done,
        convert_run(f, events) is Some,
    ensures
        ({
            let acts = (convert_run(f, events)->0).1;
            forall|i: int|
                0 <= i < acts.len() ==> !(#[trigger] acts[i] is Install) && !(acts[i] is Resolve)
        }),
    decreases events.len(),
{
    if events.len() > 0 {
        convert_step_after_toolchain(f, events[0]);
        let (g, acts) = convert_next(f, events[0]);
        let rest = events.drop_first();
        convert_no_lookup_after_toolchain(g, rest);
        let tail = (convert_run(g, rest)->0).1;
        let all = (convert_run(f, events)->0).1;
        assert(all =~= acts + tail);
        assert forall|i: int| 0 <= i < all.len() implies !(#[trigger] all[i] is Install) && !(
        all[i] is Resolve) by {
            if i >= acts.len() {
                assert(all[i] == tail[i - acts.len()]);
            } else {
                assert(all[i] == acts[i]);
            }
        }
    }
}

/// When the first lookup finds the toolchain, the set-up is never run.
pub proof fn convert_found_toolchain_is_not_installed(
    f: ConvertFlowView,
    tool: PathView,
    events: Seq<ConvertEventView>,
)
    requires
        f.stage == ConvertStage::FirstLookup,
        events.len() > 0,
        events[0] == ConvertEventView::Resolved(Some(tool)),
        convert_run(f, events) is Some,
    ensures
        ({
            let acts = (convert_run(f, events)->0).1;
            forall|i: int| 0 <= i < acts.len() ==> !(#[trigger] acts[i] is Install)
        }),
{
    let (g, first) = convert_next(f, events[0]);
    let rest = events.drop_first();
    convert_no_lookup_after_toolchain(g, rest);
    let tail = (convert_run(g, rest)->0).1;
    let all = (convert_run(f, events)->0).1;
    assert(all =~= first + tail);
    assert forall|i: int| 0 <= i < all.len() implies !(#[trigger] all[i] is Install) by {
        if i >= first.len() {
            assert(all[i] == tail[i - first.len()]);
        }
    }
}


/// The build is run only with the toolchain that was found, and on one of
/// three projects: the folder of a selected `Cargo.toml`, a selected folder
/// once its `Cargo.toml` was found to be a file, or the throw-away project
/// once its manifest was written.
pub proof fn convert_builds_selected_project(
    f: ConvertFlowView,
    e: ConvertEventView,
    tool: PathView,
    project: PathView,
)
    requires
        convert_wf(f),
        convert_accepts(f.stage, e),
        convert_next(f, e).1.contains(ConvertActionView::RunBuild(tool, project)),
    ensures
        f.tool is Some && tool == f.tool->0,
        ({
            ||| (f.stage == ConvertStage::CheckingInput && file_name_spec(f.input) == Some(
                "Cargo.toml"@,
            ) && project == manifest_folder(f.input))
            ||| (f.stage == ConvertStage::ProbingManifest && e == ConvertEventView::IsFile(true)
                && project == f.input)
            ||| (f.stage == ConvertStage::WritingManifest && f.scratch is Some && project
                == f.scratch->0)
        }),
{
    let acts = convert_next(f, e).1;
    let k = choose|k: int| 0 <= k < acts.len() && acts[k] == ConvertActionView::RunBuild(tool, project);
    if let ConvertEventView::Listed(entries) = e {
        freshest_is_latest(entries);
    }
}


/// Along any sequence of events the conversion expects, the invariant holds
/// at the end, and the input and the chosen output folder are those it
/// started with.
pub proof fn convert_run_keeps_invariant(f: ConvertFlowView, events: Seq<ConvertEventView>)
    requires
        convert_inv(f),
        convert_run(f, events) is Some,
    ensures
        convert_inv((convert_run(f, events)->0).0),
        (convert_run(f, events)->0).0.input == f.input,
        (convert_run(f, events)->0).0.output_dir == f.output_dir,
    decreases events.len(),
{
    if events.len() > 0 {
        convert_step_keeps_invariant(f, events[0]);
        let g = convert_next(f, events[0]).0;
        convert_run_keeps_invariant(g, events.drop_first());
    }
}


/// Whether the conversion action asks the caller to report its outcome.
pub open spec fn convert_awaits(a: ConvertActionView) -> bool {
    !(a is Emit) && !(a is Finish)
}

/// Whether `e` reports the outcome of the action `a`.
pub open spec fn convert_answers(a: ConvertActionView, e: ConvertEventView) -> bool {
    match a {
        ConvertActionView::Resolve => e is Resolved,
        ConvertActionView::Install => e is Installed,
        ConvertActionView::CheckExists(_) => e is Exists,
        ConvertActionView::ProbeDir(_) => e is IsDir,
        ConvertActionView::ProbeFile(_) => e is IsFile,
        ConvertActionView::CreateScratch => e is ScratchCreated,
        ConvertActionView::CreateDirAll(_) => e is DirCreated,
        ConvertActionView::ReadText(_) => e is SourceRead,
        ConvertActionView::WriteText(_, _) => e is Written,
        ConvertActionView::RunBuild(_, _) => e is Built,
        ConvertActionView::ListOutputs(_) => e is Listed,
        ConvertActionView::CopyFile(_, _) => e is Copied,
        ConvertActionView::ReadBytes(_) => e is BytesRead,
        _ => false,
    }
}

/// The protocol between a conversion and its caller: every step asks for at
/// least one action; only its last action may ask for an outcome or finish;
/// it finishes exactly when the conversion is done; and otherwise its last
/// action asks for an outcome, which is what the conversion then expects.
#[verifier::rlimit(40)]
pub proof fn convert_step_protocol(f: ConvertFlowView, e: ConvertEventView)
    requires
        convert_accepts(f.stage, e),
    ensures
        ({
            let (g, acts) = convert_next(f, e);
            &&& acts.len() > 0
            &&& forall|i: int|
                0 <= i < acts.len() - 1 ==> !convert_awaits(#[trigger] acts[i]) && !(
                acts[i] is Finish)
            &&& (g.stage == ConvertStage::Done <==> acts.last() is Finish)
            &&& g.stage != ConvertStage::Done ==> convert_awaits(acts.last()) && forall|
                next: ConvertEventView,
            | convert_answers(acts.last(), next) ==> convert_accepts(g.stage, next)
        }),
{
    if let ConvertEventView::Listed(entries) = e {
        freshest_is_latest(entries);
    }
}

/// A conversion starts by asking for the one outcome it first expects.
pub proof fn convert_begin_protocol()
    ensures
        forall|next: ConvertEventView|
            convert_answers(ConvertActionView::Resolve, next) ==> convert_accepts(
                ConvertStage::FirstLookup,
                next,
            ),
{
}

/// The program is copied into the chosen output folder (or, when none was
/// chosen, into the input's folder, or `.`), under its own file name (or
/// `program.so`), and what is copied is the program the build produced.
pub proof fn convert_copies_into_the_output_folder(
    f: ConvertFlowView,
    e: ConvertEventView,
    from: PathView,
    to: PathView,
)
    requires
        convert_inv(f),
        convert_accepts(f.stage, e),
        convert_next(f, e).1.contains(ConvertActionView::CopyFile(from, to)),
    ensures
        f.program == Some(from),
        is_program(from),
        file_name_spec(to) == Some(program_name_spec(from)),
        f.output_dir matches Some(o) ==> to == join_spec(o, program_name_spec(from)),
        f.output_dir is None ==> to == join_spec(
            match parent_spec(f.input) {
                Some(p) => p,
                None => cur_dir_spec(f.input.separator),
            },
            program_name_spec(from),
        ),
{
    let acts = convert_next(f, e).1;
    let k = choose|k: int| 0 <= k < acts.len() && acts[k] == ConvertActionView::CopyFile(from, to);
    if let ConvertEventView::Listed(entries) = e {
        freshest_is_latest(entries);
    }
}

/// The file the program is copied to is the file read back afterwards, and
/// the one reported: the report names it and gives the size of the bytes
/// read from it.
pub proof fn convert_reads_back_and_reports_the_copy(f: ConvertFlowView, bytes: Seq<u8>)
    requires
        convert_inv(f),
        f.stage == ConvertStage::CreatingDest,
    ensures
        ({
            let (g, copy) = convert_next(f, ConvertEventView::DirCreated(Ok(())));
            let (h, read) = convert_next(g, ConvertEventView::Copied(Ok(())));
            let (_, done) = convert_next(h, ConvertEventView::BytesRead(Ok(bytes)));
            &&& copy.len() == 1
            &&& copy[0] is CopyFile
            &&& read == seq![ConvertActionView::ReadBytes(copy[0]->CopyFile_1)]
            &&& done.last() matches ConvertActionView::Finish(Ok(r)) && r.so_path == render_spec(
                copy[0]->CopyFile_1,
            ) && r.size == bytes.len() as u64 && r.file_name == program_name_spec(
                copy[0]->CopyFile_0,
            )
        }),
{
}

/// A toolchain that a lookup finds, the first or the one after the set-up,
/// is the one the conversion goes on with: the input is checked next, and
/// the conversion does not end there.
pub proof fn convert_goes_on_with_a_found_toolchain(f: ConvertFlowView, t: PathView)
    requires
        f.stage == ConvertStage::FirstLookup || f.stage == ConvertStage::SecondLookup,
    ensures
        ({
            let (g, acts) = convert_next(f, ConvertEventView::Resolved(Some(t)));
            &&& g.stage == ConvertStage::CheckingInput
            &&& g.tool == Some(t)
            &&& g.input == f.input
            &&& acts == seq![ConvertActionView::CheckExists(f.input)]
            &&& forall|i: int| 0 <= i < acts.len() ==> !(#[trigger] acts[i] is Finish)
        }),
{
}

/// A single source file is wrapped as it was read: the text written as the
/// throw-away project's `src/lib.rs` is exactly the text of the source.
pub proof fn convert_wraps_the_source_unchanged(f: ConvertFlowView, text: Seq<char>)
    requires
        convert_wf(f),
        f.stage == ConvertStage::ReadingSource,
    ensures
        ({
            let (g, acts) = convert_next(f, ConvertEventView::SourceRead(Ok(text)));
            &&& acts.len() == 1
            &&& acts[0] is WriteText
            &&& acts[0]->WriteText_1 == text
            &&& acts[0]->WriteText_0 == join_spec(join_spec(f.scratch->0, "src"@), "lib.rs"@)
            &&& file_name_spec(acts[0]->WriteText_0) == Some("lib.rs"@)
            &&& g.scratch == f.scratch
            &&& g.input == f.input
        }),
{
}

} // verus!
