//! The packing pipeline's decision core: a state machine from build stage
//! and observed event to next state and next action.
//!
//! Every external effect — running a tool, reading a directory, renaming or
//! installing a file — is an [`Action`] handed to an unverified driver, and
//! every outcome comes back as an [`Event`].  The machine decides the exact
//! command line of every tool invocation, which archive and object file are
//! picked, and that any nonzero exit status halts the build before the next
//! stage, with no install action ever issued afterwards.
use vstd::prelude::*;
use crate::archive::{affix_pred, find_by_affix, find_by_infix, infix_pred};
use crate::bytes;
use crate::hex::{hex_parse, hex_render, lemma_hex_round_trip, render_hex_u64};
use crate::resolver::{resolve_entry, resolve_spec, ResolveError};
use crate::select::first_where;
use crate::tokens;

verus! {

/// The external tools the pipeline drives.
#[derive(Clone, Copy, Debug, PartialEq, Eq, Structural)]
pub enum Tool {
    Ar,
    Ld,
    Objcopy,
    Nm,
    Nasm,
    Rustc,
}

/// The name under which a tool is invoked.
pub open spec fn tool_name_of(t: Tool) -> Seq<u8> {
    match t {
        Tool::Ar => tokens::tool_ar(),
        Tool::Ld => tokens::tool_ld(),
        Tool::Objcopy => tokens::tool_objcopy(),
        Tool::Nm => tokens::tool_nm(),
        Tool::Nasm => tokens::tool_nasm(),
        Tool::Rustc => tokens::tool_rustc(),
    }
}

/// The executable form of `tool_name_of`.
pub fn tool_name(t: Tool) -> (r: Vec<u8>)
    ensures
        r@ == tool_name_of(t),
{
    match t {
        Tool::Ar => tokens::tool_ar_vec(),
        Tool::Ld => tokens::tool_ld_vec(),
        Tool::Objcopy => tokens::tool_objcopy_vec(),
        Tool::Nm => tokens::tool_nm_vec(),
        Tool::Nasm => tokens::tool_nasm_vec(),
        Tool::Rustc => tokens::tool_rustc_vec(),
    }
}

/// Why a build aborted.
#[derive(Clone, Copy, Debug, PartialEq, Eq, Structural)]
pub enum BuildError {
    /// A required external tool is absent; detected before any stage runs.
    MissingTool,
    /// The layout script or the bootstrap template could not be written.
    AssetWrite,
    /// No object file in the unpacked archive matches the program's name.
    MissingObject,
    /// The selected object file could not take its canonical name.
    RenameFailed,
    /// The symbol table has no line for the entry symbol.
    NoEntrySymbol,
    /// The entry symbol's address field is missing or not hexadecimal.
    AddressParse,
    /// An external tool exited with the recorded nonzero status.
    ToolFailure { tool: Tool, status: u64 },
    /// The finished executable could not be placed at its canonical path.
    InstallFailed,
    /// The driver answered a stage with an event of the wrong shape.
    Protocol,
}

/// The pipeline's stages, in the order a successful build passes them.
#[derive(Clone, Copy, Debug, PartialEq, Eq, Structural)]
pub enum Stage {
    /// Waiting for the once-only presence check of the external tools.
    CheckTools,
    /// Waiting for the layout script and bootstrap template copies.
    PrepareAssets,
    /// Waiting for the listing of the prebuilt-archive directory.
    Materialize,
    /// Waiting for the fallback compiler to produce the archive.
    Compile,
    /// Waiting for the archiver to unpack the archive.
    Unpack,
    /// Waiting for the scratch directory listing to pick the object file.
    SelectObject,
    /// Waiting for the object file to take its canonical name.
    Rename,
    /// Waiting for the linker.
    Link,
    /// Waiting for the section copier to extract the payload blob.
    Extract,
    /// Waiting for the symbol-table report.
    Resolve,
    /// Waiting for the assembler to build the final executable.
    Assemble,
    /// Waiting for the executable to reach its canonical path.
    Install,
    /// The build finished; the artifact is installed.
    Done,
    /// The build aborted; no further action will ever be an invocation.
    Failed,
}

/// One tool invocation: program, arguments in order, optional working
/// directory.
pub struct CommandSpec {
    pub tool: Tool,
    pub args: Vec<Vec<u8>>,
    pub dir: Option<Vec<u8>>,
}

/// Mathematical form of a command.
pub ghost struct CmdModel {
    pub tool: Tool,
    pub args: Seq<Seq<u8>>,
    pub dir: Option<Seq<u8>>,
}

impl View for CommandSpec {
    type V = CmdModel;

    open spec fn view(&self) -> CmdModel {
        CmdModel { tool: self.tool, args: self.args.deep_view(), dir: self.dir.deep_view() }
    }
}

/// The configuration fixed once at pipeline start: the project root, the
/// build profile and the scratch directory.
pub struct BuildConfig {
    pub manifest_dir: Vec<u8>,
    pub profile: Vec<u8>,
    pub work_dir: Vec<u8>,
}

/// Mathematical form of the configuration.
pub ghost struct CfgModel {
    pub manifest_dir: Seq<u8>,
    pub profile: Seq<u8>,
    pub work_dir: Seq<u8>,
}

impl View for BuildConfig {
    type V = CfgModel;

    open spec fn view(&self) -> CfgModel {
        CfgModel {
            manifest_dir: self.manifest_dir@,
            profile: self.profile@,
            work_dir: self.work_dir@,
        }
    }
}

/// What the driver reports back to the machine.
pub enum Event {
    /// Whether every required tool answered the presence check.
    ToolsChecked { all_present: bool },
    /// A directory listing, or nothing if the directory could not be read.
    Listing { names: Option<Vec<Vec<u8>>> },
    /// A tool finished with this status; zero is success.
    Exited { status: u64 },
    /// A tool finished with this status and this captured report.
    ExitedOut { status: u64, out: Vec<u8> },
    /// A file operation (asset write, rename, install) succeeded or not.
    FileOp { ok: bool },
}

/// Mathematical form of an event.
pub ghost enum EventModel {
    ToolsChecked { all_present: bool },
    Listing { names: Option<Seq<Seq<u8>>> },
    Exited { status: u64 },
    ExitedOut { status: u64, out: Seq<u8> },
    FileOp { ok: bool },
}

impl View for Event {
    type V = EventModel;

    open spec fn view(&self) -> EventModel {
        match self {
            Event::ToolsChecked { all_present } => EventModel::ToolsChecked {
                all_present: *all_present,
            },
            Event::Listing { names } => EventModel::Listing { names: names.deep_view() },
            Event::Exited { status } => EventModel::Exited { status: *status },
            Event::ExitedOut { status, out } => EventModel::ExitedOut {
                status: *status,
                out: out@,
            },
            Event::FileOp { ok } => EventModel::FileOp { ok: *ok },
        }
    }
}

/// What the machine asks the driver to do next.
pub enum Action {
    /// Write the layout script and the bootstrap template to these paths.
    WriteAssets { script_to: Vec<u8>, stub_to: Vec<u8> },
    /// List the names in this directory.
    ReadDir { dir: Vec<u8> },
    /// Run this command and report its exit status.
    Run { cmd: CommandSpec },
    /// Run this command and report its exit status and captured report.
    RunRead { cmd: CommandSpec },
    /// Rename a file.
    RenameFile { from: Vec<u8>, to: Vec<u8> },
    /// Copy the finished executable to its canonical path and mark it
    /// executable.
    InstallFile { from: Vec<u8>, to: Vec<u8> },
    /// The build aborted for this reason; perform nothing further.
    Report { error: BuildError },
    /// The build finished.
    Finished,
}

/// Mathematical form of an action.
pub ghost enum ActionModel {
    WriteAssets { script_to: Seq<u8>, stub_to: Seq<u8> },
    ReadDir { dir: Seq<u8> },
    Run { cmd: CmdModel },
    RunRead { cmd: CmdModel },
    RenameFile { from: Seq<u8>, to: Seq<u8> },
    InstallFile { from: Seq<u8>, to: Seq<u8> },
    Report { error: BuildError },
    Finished,
}

impl View for Action {
    type V = ActionModel;

    open spec fn view(&self) -> ActionModel {
        match self {
            Action::WriteAssets { script_to, stub_to } => ActionModel::WriteAssets {
                script_to: script_to@,
                stub_to: stub_to@,
            },
            Action::ReadDir { dir } => ActionModel::ReadDir { dir: dir@ },
            Action::Run { cmd } => ActionModel::Run { cmd: cmd@ },
            Action::RunRead { cmd } => ActionModel::RunRead { cmd: cmd@ },
            Action::RenameFile { from, to } => ActionModel::RenameFile { from: from@, to: to@ },
            Action::InstallFile { from, to } => ActionModel::InstallFile { from: from@, to: to@ },
            Action::Report { error } => ActionModel::Report { error: *error },
            Action::Finished => ActionModel::Finished,
        }
    }
}

/// The machine's state: the stage it waits in, the archive path once chosen,
/// and the error once failed.
pub struct BuildState {
    pub stage: Stage,
    pub archive: Vec<u8>,
    pub error: Option<BuildError>,
}

/// Mathematical form of the state.
pub ghost struct StateModel {
    pub stage: Stage,
    pub archive: Seq<u8>,
    pub error: Option<BuildError>,
}

impl View for BuildState {
    type V = StateModel;

    open spec fn view(&self) -> StateModel {
        StateModel { stage: self.stage, archive: self.archive@, error: self.error }
    }
}

/// A directory entry under its directory.
pub open spec fn joined(dir: Seq<u8>, name: Seq<u8>) -> Seq<u8> {
    dir + seq![47u8] + name
}

/// The per-profile output directory: `<root>/target/<profile>`.
pub open spec fn profile_dir_of(cfg: CfgModel) -> Seq<u8> {
    joined(joined(cfg.manifest_dir, tokens::seg_target()), cfg.profile)
}

/// Where prebuilt archives are searched: `<root>/target/<profile>/deps`.
pub open spec fn deps_dir_of(cfg: CfgModel) -> Seq<u8> {
    joined(profile_dir_of(cfg), tokens::seg_deps())
}

/// The canonical install path: `<root>/target/<profile>/tinyrust`.
pub open spec fn install_path_of(cfg: CfgModel) -> Seq<u8> {
    joined(profile_dir_of(cfg), tokens::fname_exec())
}

/// A scratch file under the working directory.
pub open spec fn work_file_of(cfg: CfgModel, name: Seq<u8>) -> Seq<u8> {
    joined(cfg.work_dir, name)
}

/// The executable form of `deps_dir_of`.
pub fn deps_dir_path(cfg: &BuildConfig) -> (r: Vec<u8>)
    ensures
        r@ == deps_dir_of(cfg@),
{
    let seg = tokens::seg_target_vec();
    let t = bytes::join_path(cfg.manifest_dir.as_slice(), seg.as_slice());
    let p = bytes::join_path(t.as_slice(), cfg.profile.as_slice());
    let seg2 = tokens::seg_deps_vec();
    bytes::join_path(p.as_slice(), seg2.as_slice())
}

/// The executable form of `install_path_of`.
pub fn install_path(cfg: &BuildConfig) -> (r: Vec<u8>)
    ensures
        r@ == install_path_of(cfg@),
{
    let seg = tokens::seg_target_vec();
    let t = bytes::join_path(cfg.manifest_dir.as_slice(), seg.as_slice());
    let p = bytes::join_path(t.as_slice(), cfg.profile.as_slice());
    let name = tokens::fname_exec_vec();
    bytes::join_path(p.as_slice(), name.as_slice())
}

/// The executable form of `work_file_of`.
pub fn work_file(cfg: &BuildConfig, name: &[u8]) -> (r: Vec<u8>)
    ensures
        r@ == work_file_of(cfg@, name@),
{
    bytes::join_path(cfg.work_dir.as_slice(), name)
}

/// Unpack the archive in place: `ar x <archive>`, run in the scratch
/// directory.
pub open spec fn ar_cmd(cfg: CfgModel, archive: Seq<u8>) -> CmdModel {
    CmdModel {
        tool: Tool::Ar,
        args: seq![tokens::tok_extract(), archive],
        dir: Some(cfg.work_dir),
    }
}

/// Compile the program source directly: optimized, static relocation model,
/// the one external dependency linked by name.
pub open spec fn rustc_cmd(cfg: CfgModel, out: Seq<u8>) -> CmdModel {
    CmdModel {
        tool: Tool::Rustc,
        args: seq![
            joined(cfg.manifest_dir, tokens::seg_src_lib()),
            tokens::tok_outfmt_flag(),
            tokens::tok_codegen_flag(),
            tokens::tok_static_reloc(),
            tokens::tok_extern_flag(),
            tokens::tok_extern_dep(),
            tokens::tok_out_flag(),
            out,
        ],
        dir: None,
    }
}

/// Link the canonical object against the layout script, discarding unused
/// sections, with `main` as the entry symbol.
pub open spec fn ld_cmd(cfg: CfgModel) -> CmdModel {
    CmdModel {
        tool: Tool::Ld,
        args: seq![
            tokens::tok_gc_sections(),
            tokens::tok_entry_flag(),
            tokens::tok_entry_symbol(),
            tokens::tok_script_flag(),
            work_file_of(cfg, tokens::fname_script()),
            tokens::tok_out_flag(),
            work_file_of(cfg, tokens::fname_payload()),
            work_file_of(cfg, tokens::fname_object()),
        ],
        dir: None,
    }
}

/// Copy exactly the `combined` section out of the linked image as a flat
/// binary blob.
pub open spec fn objcopy_cmd(cfg: CfgModel) -> CmdModel {
    CmdModel {
        tool: Tool::Objcopy,
        args: seq![
            tokens::tok_section_flag(),
            tokens::tok_section_name(),
            tokens::tok_outfmt_flag(),
            tokens::tok_binary(),
            work_file_of(cfg, tokens::fname_payload()),
            work_file_of(cfg, tokens::fname_payload_bin()),
        ],
        dir: None,
    }
}

/// Dump the linked image's symbol table in the line-stable format.
pub open spec fn nm_cmd(cfg: CfgModel) -> CmdModel {
    CmdModel {
        tool: Tool::Nm,
        args: seq![
            tokens::tok_format_flag(),
            tokens::tok_posix(),
            work_file_of(cfg, tokens::fname_payload()),
        ],
        dir: None,
    }
}

/// Assemble the bootstrap stub into the final flat executable, with the
/// resolved entry address and the payload blob's path as its two defines.
pub open spec fn nasm_cmd(cfg: CfgModel, addr: u64) -> CmdModel {
    CmdModel {
        tool: Tool::Nasm,
        args: seq![
            tokens::tok_format_flag(),
            tokens::tok_bin(),
            tokens::tok_out_flag(),
            work_file_of(cfg, tokens::fname_exec()),
            tokens::tok_entry_def_prefix() + hex_render(addr as nat),
            tokens::tok_payload_def_prefix() + work_file_of(cfg, tokens::fname_payload_bin())
                + tokens::tok_quote(),
            work_file_of(cfg, tokens::fname_stub()),
        ],
        dir: None,
    }
}

/// The executable form of `ar_cmd`.
pub fn ar_args(cfg: &BuildConfig, archive: &[u8]) -> (r: CommandSpec)
    ensures
        r@ == ar_cmd(cfg@, archive@),
{
    let mut args: Vec<Vec<u8>> = Vec::new();
    args.push(tokens::tok_extract_vec());
    args.push(bytes::to_vec(archive));
    let work = bytes::to_vec(cfg.work_dir.as_slice());
    proof {
        bytes::lemma_bytes_deep_view(work);
        assert(args.deep_view() =~~= ar_cmd(cfg@, archive@).args);
    }
    CommandSpec { tool: Tool::Ar, args, dir: Some(work) }
}

/// The executable form of `rustc_cmd`.
pub fn rustc_args(cfg: &BuildConfig, out: &[u8]) -> (r: CommandSpec)
    ensures
        r@ == rustc_cmd(cfg@, out@),
{
    let seg = tokens::seg_src_lib_vec();
    let src = bytes::join_path(cfg.manifest_dir.as_slice(), seg.as_slice());
    let mut args: Vec<Vec<u8>> = Vec::new();
    args.push(src);
    args.push(tokens::tok_outfmt_flag_vec());
    args.push(tokens::tok_codegen_flag_vec());
    args.push(tokens::tok_static_reloc_vec());
    args.push(tokens::tok_extern_flag_vec());
    args.push(tokens::tok_extern_dep_vec());
    args.push(tokens::tok_out_flag_vec());
    args.push(bytes::to_vec(out));
    proof {
        assert(args.deep_view() =~~= rustc_cmd(cfg@, out@).args);
    }
    CommandSpec { tool: Tool::Rustc, args, dir: None }
}

/// The executable form of `ld_cmd`.
pub fn ld_args(cfg: &BuildConfig) -> (r: CommandSpec)
    ensures
        r@ == ld_cmd(cfg@),
{
    let script = tokens::fname_script_vec();
    let payload = tokens::fname_payload_vec();
    let object = tokens::fname_object_vec();
    let mut args: Vec<Vec<u8>> = Vec::new();
    args.push(tokens::tok_gc_sections_vec());
    args.push(tokens::tok_entry_flag_vec());
    args.push(tokens::tok_entry_symbol_vec());
    args.push(tokens::tok_script_flag_vec());
    args.push(work_file(cfg, script.as_slice()));
    args.push(tokens::tok_out_flag_vec());
    args.push(work_file(cfg, payload.as_slice()));
    args.push(work_file(cfg, object.as_slice()));
    proof {
        assert(args.deep_view() =~~= ld_cmd(cfg@).args);
    }
    CommandSpec { tool: Tool::Ld, args, dir: None }
}

/// The executable form of `objcopy_cmd`.
pub fn objcopy_args(cfg: &BuildConfig) -> (r: CommandSpec)
    ensures
        r@ == objcopy_cmd(cfg@),
{
    let payload = tokens::fname_payload_vec();
    let blob = tokens::fname_payload_bin_vec();
    let mut args: Vec<Vec<u8>> = Vec::new();
    args.push(tokens::tok_section_flag_vec());
    args.push(tokens::tok_section_name_vec());
    args.push(tokens::tok_outfmt_flag_vec());
    args.push(tokens::tok_binary_vec());
    args.push(work_file(cfg, payload.as_slice()));
    args.push(work_file(cfg, blob.as_slice()));
    proof {
        assert(args.deep_view() =~~= objcopy_cmd(cfg@).args);
    }
    CommandSpec { tool: Tool::Objcopy, args, dir: None }
}

/// The executable form of `nm_cmd`.
pub fn nm_args(cfg: &BuildConfig) -> (r: CommandSpec)
    ensures
        r@ == nm_cmd(cfg@),
{
    let payload = tokens::fname_payload_vec();
    let mut args: Vec<Vec<u8>> = Vec::new();
    args.push(tokens::tok_format_flag_vec());
    args.push(tokens::tok_posix_vec());
    args.push(work_file(cfg, payload.as_slice()));
    proof {
        assert(args.deep_view() =~~= nm_cmd(cfg@).args);
    }
    CommandSpec { tool: Tool::Nm, args, dir: None }
}

/// The executable form of `nasm_cmd`.
pub fn nasm_args(cfg: &BuildConfig, addr: u64) -> (r: CommandSpec)
    ensures
        r@ == nasm_cmd(cfg@, addr),
{
    let exec_name = tokens::fname_exec_vec();
    let blob_name = tokens::fname_payload_bin_vec();
    let stub_name = tokens::fname_stub_vec();
    let addr_digits = render_hex_u64(addr);
    let entry_prefix = tokens::tok_entry_def_prefix_vec();
    let entry_def = bytes::concat2(entry_prefix.as_slice(), addr_digits.as_slice());
    let payload_prefix = tokens::tok_payload_def_prefix_vec();
    let blob_path = work_file(cfg, blob_name.as_slice());
    let quote = tokens::tok_quote_vec();
    let payload_def = bytes::concat3(
        payload_prefix.as_slice(),
        blob_path.as_slice(),
        quote.as_slice(),
    );
    let mut args: Vec<Vec<u8>> = Vec::new();
    args.push(tokens::tok_format_flag_vec());
    args.push(tokens::tok_bin_vec());
    args.push(tokens::tok_out_flag_vec());
    args.push(work_file(cfg, exec_name.as_slice()));
    args.push(entry_def);
    args.push(payload_def);
    args.push(work_file(cfg, stub_name.as_slice()));
    proof {
        assert(args.deep_view() =~~= nasm_cmd(cfg@, addr).args);
    }
    CommandSpec { tool: Tool::Nasm, args, dir: None }
}

/// The state every build starts in.
pub open spec fn init_of() -> StateModel {
    StateModel { stage: Stage::CheckTools, archive: Seq::empty(), error: None }
}

/// The executable form of `init_of`.
pub fn init() -> (r: BuildState)
    ensures
        r@ == init_of(),
{
    let r = BuildState { stage: Stage::CheckTools, archive: Vec::new(), error: None };
    proof {
        assert(r@.archive =~= Seq::<u8>::empty());
    }
    r
}

/// The tools whose presence is checked once, before any stage runs.
pub open spec fn required_tools_of() -> Seq<Seq<u8>> {
    seq![
        tokens::tool_ar(),
        tokens::tool_ld(),
        tokens::tool_objcopy(),
        tokens::tool_nasm(),
        tokens::tool_nm(),
    ]
}

/// The executable form of `required_tools_of`.
pub fn required_tools() -> (r: Vec<Vec<u8>>)
    ensures
        r.deep_view() == required_tools_of(),
{
    let mut r: Vec<Vec<u8>> = Vec::new();
    r.push(tokens::tool_ar_vec());
    r.push(tokens::tool_ld_vec());
    r.push(tokens::tool_objcopy_vec());
    r.push(tokens::tool_nasm_vec());
    r.push(tokens::tool_nm_vec());
    proof {
        assert(r.deep_view() =~~= required_tools_of());
    }
    r
}

/// Halting on `e`: the stage becomes `Failed`, the error is recorded, and
/// the only action is to report it.
pub open spec fn fail_of(s: StateModel, e: BuildError) -> (StateModel, ActionModel) {
    (
        StateModel { stage: Stage::Failed, archive: s.archive, error: Some(e) },
        ActionModel::Report { error: e },
    )
}

/// The fallback branch of materialization: no prebuilt archive was found, so
/// the compiler is invoked directly and its output becomes the archive.
pub open spec fn compile_of(cfg: CfgModel, s: StateModel) -> (StateModel, ActionModel) {
    let out = work_file_of(cfg, tokens::fname_archive());
    (
        StateModel { stage: Stage::Compile, archive: out, error: s.error },
        ActionModel::Run { cmd: rustc_cmd(cfg, out) },
    )
}

/// The error a failed build keeps reporting.
pub open spec fn error_of(s: StateModel) -> BuildError {
    match s.error {
        Some(e) => e,
        None => BuildError::Protocol,
    }
}

/// The whole transition relation: given the stage the machine waits in and
/// the event the driver reports, the next state and the next action.
pub open spec fn next_of(cfg: CfgModel, s: StateModel, e: EventModel) -> (StateModel, ActionModel) {
    match (s.stage, e) {
        (Stage::CheckTools, EventModel::ToolsChecked { all_present }) => if all_present {
            (
                StateModel { stage: Stage::PrepareAssets, archive: s.archive, error: s.error },
                ActionModel::WriteAssets {
                    script_to: work_file_of(cfg, tokens::fname_script()),
                    stub_to: work_file_of(cfg, tokens::fname_stub()),
                },
            )
        } else {
            fail_of(s, BuildError::MissingTool)
        },
        (Stage::PrepareAssets, EventModel::FileOp { ok }) => if ok {
            (
                StateModel { stage: Stage::Materialize, archive: s.archive, error: s.error },
                ActionModel::ReadDir { dir: deps_dir_of(cfg) },
            )
        } else {
            fail_of(s, BuildError::AssetWrite)
        },
        (Stage::Materialize, EventModel::Listing { names }) => match names {
            Some(ns) => match first_where(
                ns,
                affix_pred(tokens::rlib_prefix(), tokens::rlib_suffix()),
            ) {
                Some(i) => {
                    let a = joined(deps_dir_of(cfg), ns[i]);
                    (
                        StateModel { stage: Stage::Unpack, archive: a, error: s.error },
                        ActionModel::Run { cmd: ar_cmd(cfg, a) },
                    )
                },
                None => compile_of(cfg, s),
            },
            None => compile_of(cfg, s),
        },
        (Stage::Compile, EventModel::Exited { status }) => if status == 0 {
            (
                StateModel { stage: Stage::Unpack, archive: s.archive, error: s.error },
                ActionModel::Run { cmd: ar_cmd(cfg, s.archive) },
            )
        } else {
            fail_of(s, BuildError::ToolFailure { tool: Tool::Rustc, status })
        },
        (Stage::Unpack, EventModel::Exited { status }) => if status == 0 {
            (
                StateModel { stage: Stage::SelectObject, archive: s.archive, error: s.error },
                ActionModel::ReadDir { dir: cfg.work_dir },
            )
        } else {
            fail_of(s, BuildError::ToolFailure { tool: Tool::Ar, status })
        },
        (Stage::SelectObject, EventModel::Listing { names }) => match names {
            Some(ns) => match first_where(
                ns,
                infix_pred(tokens::obj_infix(), tokens::obj_suffix()),
            ) {
                Some(i) => (
                    StateModel { stage: Stage::Rename, archive: s.archive, error: s.error },
                    ActionModel::RenameFile {
                        from: work_file_of(cfg, ns[i]),
                        to: work_file_of(cfg, tokens::fname_object()),
                    },
                ),
                None => fail_of(s, BuildError::MissingObject),
            },
            None => fail_of(s, BuildError::MissingObject),
        },
        (Stage::Rename, EventModel::FileOp { ok }) => if ok {
            (
                StateModel { stage: Stage::Link, archive: s.archive, error: s.error },
                ActionModel::Run { cmd: ld_cmd(cfg) },
            )
        } else {
            fail_of(s, BuildError::RenameFailed)
        },
        (Stage::Link, EventModel::Exited { status }) => if status == 0 {
            (
                StateModel { stage: Stage::Extract, archive: s.archive, error: s.error },
                ActionModel::Run { cmd: objcopy_cmd(cfg) },
            )
        } else {
            fail_of(s, BuildError::ToolFailure { tool: Tool::Ld, status })
        },
        (Stage::Extract, EventModel::Exited { status }) => if status == 0 {
            (
                StateModel { stage: Stage::Resolve, archive: s.archive, error: s.error },
                ActionModel::RunRead { cmd: nm_cmd(cfg) },
            )
        } else {
            fail_of(s, BuildError::ToolFailure { tool: Tool::Objcopy, status })
        },
        (Stage::Resolve, EventModel::ExitedOut { status, out }) => if status == 0 {
            match resolve_spec(out) {
                Ok(addr) => (
                    StateModel { stage: Stage::Assemble, archive: s.archive, error: s.error },
                    ActionModel::Run { cmd: nasm_cmd(cfg, addr) },
                ),
                Err(ResolveError::NoEntry) => fail_of(s, BuildError::NoEntrySymbol),
                Err(ResolveError::BadAddress) => fail_of(s, BuildError::AddressParse),
            }
        } else {
            fail_of(s, BuildError::ToolFailure { tool: Tool::Nm, status })
        },
        (Stage::Assemble, EventModel::Exited { status }) => if status == 0 {
            (
                StateModel { stage: Stage::Install, archive: s.archive, error: s.error },
                ActionModel::InstallFile {
                    from: work_file_of(cfg, tokens::fname_exec()),
                    to: install_path_of(cfg),
                },
            )
        } else {
            fail_of(s, BuildError::ToolFailure { tool: Tool::Nasm, status })
        },
        (Stage::Install, EventModel::FileOp { ok }) => if ok {
            (
                StateModel { stage: Stage::Done, archive: s.archive, error: s.error },
                ActionModel::Finished,
            )
        } else {
            fail_of(s, BuildError::InstallFailed)
        },
        (Stage::Done, _) => (s, ActionModel::Finished),
        (Stage::Failed, _) => (s, ActionModel::Report { error: error_of(s) }),
        _ => fail_of(s, BuildError::Protocol),
    }
}

/// One step of the machine.
pub fn step(cfg: &BuildConfig, state: &BuildState, event: Event) -> (r: (BuildState, Action))
    ensures
        (r.0@, r.1@) == next_of(cfg@, state@, event@),
{
    match (state.stage, event) {
        (Stage::CheckTools, Event::ToolsChecked { all_present }) => if all_present {
            let script = tokens::fname_script_vec();
            let stub = tokens::fname_stub_vec();
            (
                advance(state, Stage::PrepareAssets),
                Action::WriteAssets {
                    script_to: work_file(cfg, script.as_slice()),
                    stub_to: work_file(cfg, stub.as_slice()),
                },
            )
        } else {
            fail(state, BuildError::MissingTool)
        },
        (Stage::PrepareAssets, Event::FileOp { ok }) => if ok {
            (advance(state, Stage::Materialize), Action::ReadDir { dir: deps_dir_path(cfg) })
        } else {
            fail(state, BuildError::AssetWrite)
        },
        (Stage::Materialize, Event::Listing { names }) => match names {
            Some(ns) => {
                let prefix = tokens::rlib_prefix_vec();
                let suffix = tokens::rlib_suffix_vec();
                match find_by_affix(&ns, prefix.as_slice(), suffix.as_slice()) {
                    Some(i) => {
                        proof {
                            assert(ns@[i as int]@ == ns.deep_view()[i as int]);
                        }
                        let dd = deps_dir_path(cfg);
                        let a = bytes::join_path(dd.as_slice(), ns[i].as_slice());
                        let cmd = ar_args(cfg, a.as_slice());
                        (
                            BuildState { stage: Stage::Unpack, archive: a, error: state.error },
                            Action::Run { cmd },
                        )
                    },
                    None => start_compile(cfg, state),
                }
            },
            None => start_compile(cfg, state),
        },
        (Stage::Compile, Event::Exited { status }) => if status == 0 {
            let cmd = ar_args(cfg, state.archive.as_slice());
            (advance(state, Stage::Unpack), Action::Run { cmd })
        } else {
            fail(state, BuildError::ToolFailure { tool: Tool::Rustc, status })
        },
        (Stage::Unpack, Event::Exited { status }) => if status == 0 {
            (
                advance(state, Stage::SelectObject),
                Action::ReadDir { dir: bytes::to_vec(cfg.work_dir.as_slice()) },
            )
        } else {
            fail(state, BuildError::ToolFailure { tool: Tool::Ar, status })
        },
        (Stage::SelectObject, Event::Listing { names }) => match names {
            Some(ns) => {
                let infix = tokens::obj_infix_vec();
                let suffix = tokens::obj_suffix_vec();
                match find_by_infix(&ns, infix.as_slice(), suffix.as_slice()) {
                    Some(i) => {
                        proof {
                            assert(ns@[i as int]@ == ns.deep_view()[i as int]);
                        }
                        let canonical = tokens::fname_object_vec();
                        (
                            advance(state, Stage::Rename),
                            Action::RenameFile {
                                from: work_file(cfg, ns[i].as_slice()),
                                to: work_file(cfg, canonical.as_slice()),
                            },
                        )
                    },
                    None => fail(state, BuildError::MissingObject),
                }
            },
            None => fail(state, BuildError::MissingObject),
        },
        (Stage::Rename, Event::FileOp { ok }) => if ok {
            let cmd = ld_args(cfg);
            (advance(state, Stage::Link), Action::Run { cmd })
        } else {
            fail(state, BuildError::RenameFailed)
        },
        (Stage::Link, Event::Exited { status }) => if status == 0 {
            let cmd = objcopy_args(cfg);
            (advance(state, Stage::Extract), Action::Run { cmd })
        } else {
            fail(state, BuildError::ToolFailure { tool: Tool::Ld, status })
        },
        (Stage::Extract, Event::Exited { status }) => if status == 0 {
            let cmd = nm_args(cfg);
            (advance(state, Stage::Resolve), Action::RunRead { cmd })
        } else {
            fail(state, BuildError::ToolFailure { tool: Tool::Objcopy, status })
        },
        (Stage::Resolve, Event::ExitedOut { status, out }) => if status == 0 {
            match resolve_entry(out.as_slice()) {
                Ok(addr) => {
                    let cmd = nasm_args(cfg, addr);
                    (advance(state, Stage::Assemble), Action::Run { cmd })
                },
                Err(ResolveError::NoEntry) => fail(state, BuildError::NoEntrySymbol),
                Err(ResolveError::BadAddress) => fail(state, BuildError::AddressParse),
            }
        } else {
            fail(state, BuildError::ToolFailure { tool: Tool::Nm, status })
        },
        (Stage::Assemble, Event::Exited { status }) => if status == 0 {
            let exec_name = tokens::fname_exec_vec();
            (
                advance(state, Stage::Install),
                Action::InstallFile {
                    from: work_file(cfg, exec_name.as_slice()),
                    to: install_path(cfg),
                },
            )
        } else {
            fail(state, BuildError::ToolFailure { tool: Tool::Nasm, status })
        },
        (Stage::Install, Event::FileOp { ok }) => if ok {
            (advance(state, Stage::Done), Action::Finished)
        } else {
            fail(state, BuildError::InstallFailed)
        },
        (Stage::Done, _) => (copy_state(state), Action::Finished),
        (Stage::Failed, _) => {
            let error = match state.error {
                Some(e) => e,
                None => BuildError::Protocol,
            };
            (copy_state(state), Action::Report { error })
        },
        (_, _) => fail(state, BuildError::Protocol),
    }
}

/// The state after a whole sequence of events, one step per event.
pub open spec fn run_of(cfg: CfgModel, s: StateModel, events: Seq<EventModel>) -> StateModel
    decreases events.len(),
{
    if events.len() == 0 {
        s
    } else {
        run_of(cfg, next_of(cfg, s, events[0]).0, events.drop_first())
    }
}

/// A tool that exits nonzero halts the build at once: from any stage still
/// in flight, the machine moves to `Failed` and only reports — it runs no
/// further command and installs nothing.
pub proof fn lemma_nonzero_exit_halts(cfg: CfgModel, s: StateModel, e: EventModel)
    requires
        s.stage != Stage::Done,
        match e {
            EventModel::Exited { status } => status != 0,
            EventModel::ExitedOut { status, .. } => status != 0,
            _ => false,
        },
    ensures
        next_of(cfg, s, e).0.stage == Stage::Failed,
        next_of(cfg, s, e).1 is Report,
{
}

/// The install action is issued exactly once, and only when the assembler
/// has succeeded; its destination is the canonical install path.  Together
/// with `lemma_nonzero_exit_halts` this says that no failing build ever
/// writes the install path.
pub proof fn lemma_install_only_after_assemble(cfg: CfgModel, s: StateModel, e: EventModel)
    ensures
        next_of(cfg, s, e).1 is InstallFile ==> s.stage == Stage::Assemble && e == (EventModel::Exited { status: 0 })
            && next_of(cfg, s, e).1 == (ActionModel::InstallFile {
            from: work_file_of(cfg, tokens::fname_exec()),
            to: install_path_of(cfg),
        }),
{
}

/// A failed build stays failed, whatever else the driver reports.
pub proof fn lemma_failed_is_absorbing(cfg: CfgModel, s: StateModel, e: EventModel)
    requires
        s.stage == Stage::Failed,
    ensures
        next_of(cfg, s, e).0 == s,
        next_of(cfg, s, e).1 is Report,
{
}

/// The decision core is a function of the configuration and the observed
/// events alone: two runs from equal configurations, equal states and equal
/// event sequences end in equal states.  Byte-identical artifacts across two
/// full builds then rest only on the external tools behaving the same.
pub proof fn lemma_run_deterministic(
    cfg1: CfgModel,
    cfg2: CfgModel,
    s1: StateModel,
    s2: StateModel,
    events1: Seq<EventModel>,
    events2: Seq<EventModel>,
)
    requires
        cfg1 == cfg2,
        s1 == s2,
        events1 == events2,
    ensures
        run_of(cfg1, s1, events1) == run_of(cfg2, s2, events2),
{
}

/// The assemble command carries exactly what the earlier stages produced:
/// parsing the digits after the address define's prefix gives back the
/// resolved address, and the path quoted in the payload define is exactly
/// the path the extract command wrote the payload blob to.
pub proof fn lemma_assemble_passes_through(cfg: CfgModel, addr: u64)
    ensures
        nasm_cmd(cfg, addr).args[4] == tokens::tok_entry_def_prefix() + hex_render(addr as nat),
        hex_parse(
            nasm_cmd(cfg, addr).args[4].skip(tokens::tok_entry_def_prefix().len() as int),
        ) == Some(addr),
        nasm_cmd(cfg, addr).args[5] == tokens::tok_payload_def_prefix() + objcopy_cmd(cfg).args[5]
            + tokens::tok_quote(),
{
    lemma_hex_round_trip(addr);
    assert((tokens::tok_entry_def_prefix() + hex_render(addr as nat)).skip(
        tokens::tok_entry_def_prefix().len() as int,
    ) =~= hex_render(addr as nat));
}

/// The same state, one stage further.
fn advance(state: &BuildState, stage: Stage) -> (r: BuildState)
    ensures
        r@ == (StateModel { stage, archive: state@.archive, error: state@.error }),
{
    BuildState { stage, archive: bytes::to_vec(state.archive.as_slice()), error: state.error }
}

/// An exact copy of the state.
fn copy_state(state: &BuildState) -> (r: BuildState)
    ensures
        r@ == state@,
{
    BuildState {
        stage: state.stage,
        archive: bytes::to_vec(state.archive.as_slice()),
        error: state.error,
    }
}

/// The executable form of `fail_of`.
fn fail(state: &BuildState, error: BuildError) -> (r: (BuildState, Action))
    ensures
        (r.0@, r.1@) == fail_of(state@, error),
{
    (
        BuildState {
            stage: Stage::Failed,
            archive: bytes::to_vec(state.archive.as_slice()),
            error: Some(error),
        },
        Action::Report { error },
    )
}

/// The executable form of `compile_of`.
fn start_compile(cfg: &BuildConfig, state: &BuildState) -> (r: (BuildState, Action))
    ensures
        (r.0@, r.1@) == compile_of(cfg@, state@),
{
    let name = tokens::fname_archive_vec();
    let out = work_file(cfg, name.as_slice());
    let cmd = rustc_args(cfg, out.as_slice());
    (BuildState { stage: Stage::Compile, archive: out, error: state.error }, Action::Run { cmd })
}

} // verus!
