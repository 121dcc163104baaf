//! Plans for the outside work: each operation of the orchestrator is first
//! computed here as plain values — which directories to create, which files
//! to copy, which program to spawn with which arguments, environment and
//! working directory — and the caller then executes the plan verbatim.

use vstd::prelude::*;

use crate::paths::path_join;
use crate::paths::targets_dir;
use crate::paths::wasm_dir;
use crate::paths::workspace_dir;
use crate::paths::Fuzzer;
use crate::text::dec_str;
use crate::text::u64_to_string;

verus! {

/// One environment variable handed to a spawned process.
pub struct EnvVar {
    pub name: String,
    pub value: String,
}

/// One subprocess invocation: program, arguments, environment overrides and
/// working directory.
pub struct CommandPlan {
    pub program: String,
    pub args: Vec<String>,
    pub env: Vec<EnvVar>,
    pub cwd: String,
}

/// One file copy.
pub struct CopyStep {
    pub from: String,
    pub to: String,
}

/// A workspace materialization step: directories to create (in order),
/// then files to copy (in order), each overwriting what exists.
pub struct WorkspacePlan {
    pub create_dirs: Vec<String>,
    pub copies: Vec<CopyStep>,
}

/// A recursive directory copy with its policy flags, as the copier
/// interprets them: `overwrite` prevails, and `skip_exist` is consulted
/// only when `overwrite` is unset.
pub struct DirCopySpec {
    pub from: String,
    pub to: String,
    /// Files already present are overwritten, not merged.
    pub overwrite: bool,
    /// Keep files already present; yields to `overwrite` when both are set.
    pub skip_exist: bool,
    /// The source directory's contents land inside the destination.
    pub copy_inside: bool,
}

/// The copy that materializes the shared target sources into the ephemeral
/// workspace: `<root>/targets` into `<root>/workspace`. Both policy flags
/// are set; the copier gives `overwrite` precedence, so files already
/// present are overwritten.
pub fn prepare_target_workspace_plan(root: &str) -> (p: DirCopySpec)
    ensures
        p.from@ == root@ + "/"@ + "targets"@,
        p.to@ == root@ + "/"@ + "workspace"@,
        p.overwrite,
        p.skip_exist,
        p.copy_inside,
{
    DirCopySpec {
        from: targets_dir(root),
        to: workspace_dir(root),
        overwrite: true,
        skip_exist: true,
        copy_inside: true,
    }
}

/// The steps that materialize an engine's build tree under the workspace:
/// create `<root>/workspace/<out_dir>` and its `src/`, then copy the
/// engine's build manifest, harness template and library entry point into
/// place.
pub fn prepare_fuzzer_workspace_plan(root: &str, fuzzer: Fuzzer, out_dir: &str) -> (p:
    WorkspacePlan)
    ensures
        p.create_dirs@.len() == 2,
        p.create_dirs@[0]@ == root@ + "/"@ + "workspace"@ + "/"@ + out_dir@,
        p.create_dirs@[1]@ == root@ + "/"@ + "workspace"@ + "/"@ + out_dir@ + "/"@ + "src"@,
        p.copies@.len() == 3,
        p.copies@[0].from@ == fuzzer.dir_spec(root@) + "/"@ + "Cargo.toml"@,
        p.copies@[0].to@ == p.create_dirs@[0]@ + "/"@ + "Cargo.toml"@,
        p.copies@[1].from@ == fuzzer.dir_spec(root@) + "/"@ + "template.rs"@,
        p.copies@[1].to@ == p.create_dirs@[0]@ + "/"@ + "template.rs"@,
        p.copies@[2].from@ == fuzzer.dir_spec(root@) + "/"@ + "src"@ + "/"@ + "lib.rs"@,
        p.copies@[2].to@ == p.create_dirs@[1]@ + "/"@ + "lib.rs"@,
{
    let ws = workspace_dir(root);
    let out = path_join(ws.as_str(), out_dir);
    let out_src = path_join(out.as_str(), "src");
    let fdir = fuzzer.dir(root);
    let fsrc = path_join(fdir.as_str(), "src");
    let mut create_dirs: Vec<String> = Vec::new();
    create_dirs.push(path_join(ws.as_str(), out_dir));
    create_dirs.push(path_join(out.as_str(), "src"));
    let mut copies: Vec<CopyStep> = Vec::new();
    copies.push(
        CopyStep {
            from: path_join(fdir.as_str(), "Cargo.toml"),
            to: path_join(out.as_str(), "Cargo.toml"),
        },
    );
    copies.push(
        CopyStep {
            from: path_join(fdir.as_str(), "template.rs"),
            to: path_join(out.as_str(), "template.rs"),
        },
    );
    copies.push(
        CopyStep {
            from: path_join(fsrc.as_str(), "lib.rs"),
            to: path_join(out_src.as_str(), "lib.rs"),
        },
    );
    WorkspacePlan { create_dirs, copies }
}

/// The steps that materialize the lightweight debug build tree: create
/// `<root>/workspace/<out_dir>` and its `src/`, then copy the static debug
/// definition's manifest and entry point into place.
pub fn prepare_debug_workspace_plan(root: &str, out_dir: &str) -> (p: WorkspacePlan)
    ensures
        p.create_dirs@.len() == 2,
        p.create_dirs@[0]@ == root@ + "/"@ + "workspace"@ + "/"@ + out_dir@,
        p.create_dirs@[1]@ == root@ + "/"@ + "workspace"@ + "/"@ + out_dir@ + "/"@ + "src"@,
        p.copies@.len() == 2,
        p.copies@[0].from@ == root@ + "/"@ + "debug"@ + "/"@ + "Cargo.toml"@,
        p.copies@[0].to@ == p.create_dirs@[0]@ + "/"@ + "Cargo.toml"@,
        p.copies@[1].from@ == root@ + "/"@ + "debug"@ + "/"@ + "src"@ + "/"@ + "lib.rs"@,
        p.copies@[1].to@ == p.create_dirs@[1]@ + "/"@ + "lib.rs"@,
{
    let ws = workspace_dir(root);
    let out = path_join(ws.as_str(), out_dir);
    let out_src = path_join(out.as_str(), "src");
    let debug_init = path_join(root, "debug");
    let debug_src = path_join(debug_init.as_str(), "src");
    let mut create_dirs: Vec<String> = Vec::new();
    create_dirs.push(path_join(ws.as_str(), out_dir));
    create_dirs.push(path_join(out.as_str(), "src"));
    let mut copies: Vec<CopyStep> = Vec::new();
    copies.push(
        CopyStep {
            from: path_join(debug_init.as_str(), "Cargo.toml"),
            to: path_join(out.as_str(), "Cargo.toml"),
        },
    );
    copies.push(
        CopyStep {
            from: path_join(debug_src.as_str(), "lib.rs"),
            to: path_join(out_src.as_str(), "lib.rs"),
        },
    );
    WorkspacePlan { create_dirs, copies }
}

/// The honggfuzz runtime-argument line: the configured per-target timeout,
/// followed by whatever override the environment supplied, space-separated.
pub open spec fn hfuzz_run_args_spec(timeout: Option<u64>, extra: Seq<char>) -> Seq<char> {
    match timeout {
        Option::Some(t) => "--run_time "@ + dec_str(t as nat) + " "@ + extra,
        Option::None => " "@ + extra,
    }
}

/// Builds the honggfuzz runtime-argument line.
pub fn hfuzz_run_args(timeout: Option<u64>, extra: &str) -> (r: String)
    ensures
        r@ == hfuzz_run_args_spec(timeout, extra@),
{
    match timeout {
        Some(t) => {
            let mut r = String::from_str("--run_time ");
            let ts = u64_to_string(t);
            r.append(ts.as_str());
            r.append(" ");
            r.append(extra);
            r
        },
        None => {
            let mut r = String::from_str(" ");
            r.append(extra);
            r
        },
    }
}

/// The invocation that fuzzes one target with honggfuzz: `cargo hfuzz run
/// <target>` in the engine's work directory, with the runtime-argument line
/// and the seed corpus handed over in the environment.
pub fn run_honggfuzz_plan(root: &str, target: &str, timeout: Option<u64>, extra: &str) -> (p:
    CommandPlan)
    ensures
        p.program@ == "cargo"@,
        p.args@.len() == 3,
        p.args@[0]@ == "hfuzz"@,
        p.args@[1]@ == "run"@,
        p.args@[2]@ == target@,
        p.env@.len() == 2,
        p.env@[0].name@ == "HFUZZ_RUN_ARGS"@,
        p.env@[0].value@ == hfuzz_run_args_spec(timeout, extra@),
        p.env@[1].name@ == "HFUZZ_INPUT"@,
        p.env@[1].value@ == root@ + "/"@ + "workspace"@ + "/"@ + "corpora"@ + "/"@ + "wasm"@,
        p.cwd@ == Fuzzer::Honggfuzz.work_dir_spec(root@),
{
    let mut args: Vec<String> = Vec::new();
    args.push(String::from_str("hfuzz"));
    args.push(String::from_str("run"));
    args.push(String::from_str(target));
    let mut env: Vec<EnvVar> = Vec::new();
    env.push(
        EnvVar { name: String::from_str("HFUZZ_RUN_ARGS"), value: hfuzz_run_args(timeout, extra) },
    );
    env.push(EnvVar { name: String::from_str("HFUZZ_INPUT"), value: wasm_dir(root) });
    CommandPlan {
        program: String::from_str("cargo"),
        args,
        env,
        cwd: Fuzzer::Honggfuzz.work_dir(root),
    }
}

/// The invocation that builds every target with honggfuzz: `cargo hfuzz
/// build` in the engine's static definition directory.
pub fn build_honggfuzz_plan(root: &str) -> (p: CommandPlan)
    ensures
        p.program@ == "cargo"@,
        p.args@.len() == 2,
        p.args@[0]@ == "hfuzz"@,
        p.args@[1]@ == "build"@,
        p.env@.len() == 0,
        p.cwd@ == Fuzzer::Honggfuzz.dir_spec(root@),
{
    let mut args: Vec<String> = Vec::new();
    args.push(String::from_str("hfuzz"));
    args.push(String::from_str("build"));
    CommandPlan {
        program: String::from_str("cargo"),
        args,
        env: Vec::new(),
        cwd: Fuzzer::Honggfuzz.dir(root),
    }
}

/// The invocation that builds one target with afl: `cargo afl build --bin
/// <target>` in the engine's work directory.
pub fn build_afl_plan(root: &str, target: &str) -> (p: CommandPlan)
    ensures
        p.program@ == "cargo"@,
        p.args@.len() == 4,
        p.args@[0]@ == "afl"@,
        p.args@[1]@ == "build"@,
        p.args@[2]@ == "--bin"@,
        p.args@[3]@ == target@,
        p.env@.len() == 0,
        p.cwd@ == Fuzzer::Afl.work_dir_spec(root@),
{
    let mut args: Vec<String> = Vec::new();
    args.push(String::from_str("afl"));
    args.push(String::from_str("build"));
    args.push(String::from_str("--bin"));
    args.push(String::from_str(target));
    CommandPlan {
        program: String::from_str("cargo"),
        args,
        env: Vec::new(),
        cwd: Fuzzer::Afl.work_dir(root),
    }
}

/// The build invocations for the whole discovered target set with afl, one
/// per target, in discovery order.
pub fn build_targets_afl_plans(root: &str, targets: &Vec<String>) -> (ps: Vec<CommandPlan>)
    ensures
        ps@.len() == targets@.len(),
        forall|i: int|
            0 <= i < ps@.len() ==> {
                &&& (#[trigger] ps@[i]).program@ == "cargo"@
                &&& ps@[i].args@.len() == 4
                &&& ps@[i].args@[0]@ == "afl"@
                &&& ps@[i].args@[1]@ == "build"@
                &&& ps@[i].args@[2]@ == "--bin"@
                &&& ps@[i].args@[3]@ == targets.deep_view()[i]
                &&& ps@[i].env@.len() == 0
                &&& ps@[i].cwd@ == Fuzzer::Afl.work_dir_spec(root@)
            },
{
    let n = targets.len();
    let mut ps: Vec<CommandPlan> = Vec::new();
    let mut i: usize = 0;
    while i < n
        invariant
            n == targets@.len(),
            0 <= i <= n,
            ps@.len() == i,
            forall|k: int|
                0 <= k < i ==> {
                    &&& (#[trigger] ps@[k]).program@ == "cargo"@
                    &&& ps@[k].args@.len() == 4
                    &&& ps@[k].args@[0]@ == "afl"@
                    &&& ps@[k].args@[1]@ == "build"@
                    &&& ps@[k].args@[2]@ == "--bin"@
                    &&& ps@[k].args@[3]@ == targets.deep_view()[k]
                    &&& ps@[k].env@.len() == 0
                    &&& ps@[k].cwd@ == Fuzzer::Afl.work_dir_spec(root@)
                },
        decreases n - i,
    {
        ps.push(build_afl_plan(root, targets[i].as_str()));
        i = i + 1;
    }
    ps
}

/// Where afl reads its inputs for one run: an existing fuzzing session
/// (a non-empty queue) resumes with `-`, otherwise the seed corpus seeds it.
pub fn afl_input_arg(root: &str, existing_session: bool) -> (r: String)
    ensures
        existing_session ==> r@ == "-"@,
        !existing_session ==> r@ == root@ + "/"@ + "workspace"@ + "/"@ + "corpora"@ + "/"@
            + "wasm"@,
{
    if existing_session {
        String::from_str("-")
    } else {
        wasm_dir(root)
    }
}

/// The invocation that fuzzes one target with afl: `cargo afl fuzz -i
/// <input> -o <session dir> -- ./target/debug/<target>` in the engine's
/// work directory; a configured timeout is propagated as the engine's
/// session-length flag `-V <seconds>`, before the `--` separator.
pub fn run_afl_plan(root: &str, target: &str, timeout: Option<u64>, existing_session: bool) -> (p:
    CommandPlan)
    ensures
        p.program@ == "cargo"@,
        p.args@.len() >= 6,
        p.args@[0]@ == "afl"@,
        p.args@[1]@ == "fuzz"@,
        p.args@[2]@ == "-i"@,
        existing_session ==> p.args@[3]@ == "-"@,
        !existing_session ==> p.args@[3]@ == root@ + "/"@ + "workspace"@ + "/"@ + "corpora"@ + "/"@
            + "wasm"@,
        p.args@[4]@ == "-o"@,
        p.args@[5]@ == Fuzzer::Afl.workspace_dir_spec(root@),
        timeout is None ==> p.args@.len() == 8 && p.args@[6]@ == "--"@ && p.args@[7]@
            == "./target/debug/"@ + target@,
        timeout matches Some(t) ==> p.args@.len() == 10 && p.args@[6]@ == "-V"@ && p.args@[7]@
            == dec_str(t as nat) && p.args@[8]@ == "--"@ && p.args@[9]@ == "./target/debug/"@
            + target@,
        p.env@.len() == 0,
        p.cwd@ == Fuzzer::Afl.work_dir_spec(root@),
{
    let mut args: Vec<String> = Vec::new();
    args.push(String::from_str("afl"));
    args.push(String::from_str("fuzz"));
    args.push(String::from_str("-i"));
    args.push(afl_input_arg(root, existing_session));
    args.push(String::from_str("-o"));
    args.push(Fuzzer::Afl.workspace_dir(root));
    match timeout {
        Some(t) => {
            args.push(String::from_str("-V"));
            args.push(u64_to_string(t));
        },
        None => {},
    }
    args.push(String::from_str("--"));
    let mut bin = String::from_str("./target/debug/");
    bin.append(target);
    args.push(bin);
    CommandPlan {
        program: String::from_str("cargo"),
        args,
        env: Vec::new(),
        cwd: Fuzzer::Afl.work_dir(root),
    }
}

/// The invocation that registers one target with the libfuzzer layout:
/// `cargo fuzz add <target>` in the engine's `fuzz/` directory.
pub fn libfuzzer_add_plan(root: &str, target: &str) -> (p: CommandPlan)
    ensures
        p.program@ == "cargo"@,
        p.args@.len() == 3,
        p.args@[0]@ == "fuzz"@,
        p.args@[1]@ == "add"@,
        p.args@[2]@ == target@,
        p.env@.len() == 0,
        p.cwd@ == Fuzzer::Libfuzzer.work_dir_spec(root@) + "/"@ + "fuzz"@,
{
    let mut args: Vec<String> = Vec::new();
    args.push(String::from_str("fuzz"));
    args.push(String::from_str("add"));
    args.push(String::from_str(target));
    let wd = Fuzzer::Libfuzzer.work_dir(root);
    CommandPlan {
        program: String::from_str("cargo"),
        args,
        env: Vec::new(),
        cwd: path_join(wd.as_str(), "fuzz"),
    }
}

/// The libfuzzer session-length argument for a configured timeout; empty
/// when none is configured.
pub fn libfuzzer_max_time_arg(timeout: Option<u64>) -> (r: String)
    ensures
        timeout matches Some(t) ==> r@ == "-max_total_time="@ + dec_str(t as nat),
        timeout is None ==> r@ == ""@,
{
    match timeout {
        Some(t) => {
            let mut r = String::from_str("-max_total_time=");
            let ts = u64_to_string(t);
            r.append(ts.as_str());
            r
        },
        None => String::from_str(""),
    }
}

/// The invocation that fuzzes one target with libfuzzer: `cargo fuzz run
/// <target> <seed corpus>` in the engine's `fuzz/` directory; a configured
/// timeout is propagated to the engine as its session-length argument,
/// behind the `--` separator.
pub fn run_libfuzzer_plan(root: &str, target: &str, timeout: Option<u64>) -> (p: CommandPlan)
    ensures
        p.program@ == "cargo"@,
        p.args@.len() >= 4,
        p.args@[0]@ == "fuzz"@,
        p.args@[1]@ == "run"@,
        p.args@[2]@ == target@,
        p.args@[3]@ == root@ + "/"@ + "workspace"@ + "/"@ + "corpora"@ + "/"@ + "wasm"@,
        timeout is None ==> p.args@.len() == 4,
        timeout matches Some(t) ==> p.args@.len() == 6 && p.args@[4]@ == "--"@ && p.args@[5]@
            == "-max_total_time="@ + dec_str(t as nat),
        p.env@.len() == 0,
        p.cwd@ == Fuzzer::Libfuzzer.work_dir_spec(root@) + "/"@ + "fuzz"@,
{
    let mut args: Vec<String> = Vec::new();
    args.push(String::from_str("fuzz"));
    args.push(String::from_str("run"));
    args.push(String::from_str(target));
    args.push(wasm_dir(root));
    match timeout {
        Some(_) => {
            args.push(String::from_str("--"));
            args.push(libfuzzer_max_time_arg(timeout));
        },
        None => {},
    }
    let wd = Fuzzer::Libfuzzer.work_dir(root);
    CommandPlan {
        program: String::from_str("cargo"),
        args,
        env: Vec::new(),
        cwd: path_join(wd.as_str(), "fuzz"),
    }
}

/// The invocation that builds one target's debug binary: `cargo build --bin
/// debug_<target>` in the materialized debug workspace.
pub fn run_debug_plan(root: &str, target: &str) -> (p: CommandPlan)
    ensures
        p.program@ == "cargo"@,
        p.args@.len() == 3,
        p.args@[0]@ == "build"@,
        p.args@[1]@ == "--bin"@,
        p.args@[2]@ == "debug_"@ + target@,
        p.env@.len() == 0,
        p.cwd@ == root@ + "/"@ + "workspace"@ + "/"@ + "debug"@,
{
    let mut args: Vec<String> = Vec::new();
    args.push(String::from_str("build"));
    args.push(String::from_str("--bin"));
    let mut bin = String::from_str("debug_");
    bin.append(target);
    args.push(bin);
    let ws = workspace_dir(root);
    CommandPlan {
        program: String::from_str("cargo"),
        args,
        env: Vec::new(),
        cwd: path_join(ws.as_str(), "debug"),
    }
}

/// The dependency-refresh invocation run between cycles: `cargo update` at
/// the campaign root.
pub fn cargo_update_plan(root: &str) -> (p: CommandPlan)
    ensures
        p.program@ == "cargo"@,
        p.args@.len() == 1,
        p.args@[0]@ == "update"@,
        p.env@.len() == 0,
        p.cwd@ == root@,
{
    let mut args: Vec<String> = Vec::new();
    args.push(String::from_str("update"));
    CommandPlan {
        program: String::from_str("cargo"),
        args,
        env: Vec::new(),
        cwd: String::from_str(root),
    }
}


/// The libfuzzer layout's `fuzz/` directory under the engine's work tree.
pub fn libfuzzer_fuzz_dir(root: &str) -> (p: String)
    ensures
        p@ == Fuzzer::Libfuzzer.work_dir_spec(root@) + "/"@ + "fuzz"@,
{
    let wd = Fuzzer::Libfuzzer.work_dir(root);
    path_join(wd.as_str(), "fuzz")
}

/// The directory of generated libfuzzer harnesses, purged and re-created on
/// every libfuzzer run.
pub fn libfuzzer_fuzz_targets_dir(root: &str) -> (p: String)
    ensures
        p@ == Fuzzer::Libfuzzer.work_dir_spec(root@) + "/"@ + "fuzz"@ + "/"@ + "fuzz_targets"@,
{
    let fd = libfuzzer_fuzz_dir(root);
    path_join(fd.as_str(), "fuzz_targets")
}

/// The steps that materialize the libfuzzer `fuzz/` tree: create the
/// harness directory (after the caller purged it) and copy the static
/// definition's fuzz build manifest into place.
pub fn libfuzzer_fuzz_workspace_plan(root: &str) -> (p: WorkspacePlan)
    ensures
        p.create_dirs@.len() == 1,
        p.create_dirs@[0]@ == Fuzzer::Libfuzzer.work_dir_spec(root@) + "/"@ + "fuzz"@ + "/"@
            + "fuzz_targets"@,
        p.copies@.len() == 1,
        p.copies@[0].from@ == Fuzzer::Libfuzzer.dir_spec(root@) + "/"@ + "fuzz"@ + "/"@
            + "Cargo.toml"@,
        p.copies@[0].to@ == Fuzzer::Libfuzzer.work_dir_spec(root@) + "/"@ + "fuzz"@ + "/"@
            + "Cargo.toml"@,
{
    let fuzz_dir = libfuzzer_fuzz_dir(root);
    let ldir = Fuzzer::Libfuzzer.dir(root);
    let lfuzz = path_join(ldir.as_str(), "fuzz");
    let mut create_dirs: Vec<String> = Vec::new();
    create_dirs.push(libfuzzer_fuzz_targets_dir(root));
    let mut copies: Vec<CopyStep> = Vec::new();
    copies.push(
        CopyStep {
            from: path_join(lfuzz.as_str(), "Cargo.toml"),
            to: path_join(fuzz_dir.as_str(), "Cargo.toml"),
        },
    );
    WorkspacePlan { create_dirs, copies }
}

} // verus!
