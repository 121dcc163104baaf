//! The filesystem layout policy: where the shared targets, the per-engine
//! definition trees and the ephemeral workspace live, as pure functions of an
//! explicit root path and the selected engine.

use vstd::prelude::*;

verus! {

/// One wrapped fuzzing engine, a closed set of three variants. Immutable once
/// selected for a run; each variant owns its own directory layout, so no two
/// engines ever share a work directory.
#[derive(Clone, Copy, PartialEq, Eq, Structural, Debug)]
pub enum Fuzzer {
    Afl,
    Honggfuzz,
    Libfuzzer,
}

/// Joins one path component onto a base path with a `/` separator.
pub fn path_join(base: &str, component: &str) -> (p: String)
    ensures
        p@ == base@ + "/"@ + component@,
{
    let mut p = String::from_str(base);
    p.append("/");
    p.append(component);
    p
}

/// The directory scanned for fuzz targets: `<root>/targets`.
pub fn targets_dir(root: &str) -> (p: String)
    ensures
        p@ == root@ + "/"@ + "targets"@,
{
    path_join(root, "targets")
}

/// The source file whose text is scanned for entry points:
/// `<root>/targets/src/lib.rs`.
pub fn targets_source_file(root: &str) -> (p: String)
    ensures
        p@ == root@ + "/"@ + "targets"@ + "/"@ + "src"@ + "/"@ + "lib.rs"@,
{
    let t = targets_dir(root);
    let s = path_join(t.as_str(), "src");
    path_join(s.as_str(), "lib.rs")
}

/// The ephemeral workspace root: `<root>/workspace`.
pub fn workspace_dir(root: &str) -> (p: String)
    ensures
        p@ == root@ + "/"@ + "workspace"@,
{
    path_join(root, "workspace")
}

/// The shared corpus directory: `<root>/workspace/corpora`.
pub fn corpora_dir(root: &str) -> (p: String)
    ensures
        p@ == root@ + "/"@ + "workspace"@ + "/"@ + "corpora"@,
{
    let w = workspace_dir(root);
    path_join(w.as_str(), "corpora")
}

/// The seed corpus of WebAssembly inputs: `<root>/workspace/corpora/wasm`.
pub fn wasm_dir(root: &str) -> (p: String)
    ensures
        p@ == root@ + "/"@ + "workspace"@ + "/"@ + "corpora"@ + "/"@ + "wasm"@,
{
    let c = corpora_dir(root);
    path_join(c.as_str(), "wasm")
}

/// The materialized debug build tree: `<root>/workspace/debug`.
pub fn debug_workspace_dir(root: &str) -> (p: String)
    ensures
        p@ == root@ + "/"@ + "workspace"@ + "/"@ + "debug"@,
{
    let w = workspace_dir(root);
    path_join(w.as_str(), "debug")
}

/// The static debug definition's harness template:
/// `<root>/debug/debug_template.rs`.
pub fn debug_template_file(root: &str) -> (p: String)
    ensures
        p@ == root@ + "/"@ + "debug"@ + "/"@ + "debug_template.rs"@,
{
    let d = path_join(root, "debug");
    path_join(d.as_str(), "debug_template.rs")
}

impl Fuzzer {
    /// Where the engine's static definition directory lies under `root`.
    pub open spec fn dir_spec(self, root: Seq<char>) -> Seq<char> {
        match self {
            Fuzzer::Afl => root + "/"@ + "fuzzer-afl"@,
            Fuzzer::Honggfuzz => root + "/"@ + "fuzzer-honggfuzz"@,
            Fuzzer::Libfuzzer => root + "/"@ + "fuzzer-libfuzzer"@,
        }
    }

    /// Where the engine's ephemeral work directory lies under `root`.
    pub open spec fn work_dir_spec(self, root: Seq<char>) -> Seq<char> {
        match self {
            Fuzzer::Afl => root + "/"@ + "workspace"@ + "/"@ + "afl"@,
            Fuzzer::Honggfuzz => root + "/"@ + "workspace"@ + "/"@ + "hfuzz"@,
            Fuzzer::Libfuzzer => root + "/"@ + "workspace"@ + "/"@ + "libfuzzer"@,
        }
    }

    /// Where the engine keeps its own persistent fuzzing state under `root`.
    pub open spec fn workspace_dir_spec(self, root: Seq<char>) -> Seq<char> {
        match self {
            Fuzzer::Afl => self.work_dir_spec(root) + "/"@ + "afl_workspace"@,
            Fuzzer::Honggfuzz => self.work_dir_spec(root) + "/"@ + "hfuzz_workspace"@,
            Fuzzer::Libfuzzer => self.work_dir_spec(root) + "/"@ + "libfuzzer_workspace"@,
        }
    }

    /// The engine's display name, as the command line spells it.
    pub fn name(&self) -> (n: String)
        ensures
            self is Afl ==> n@ == "Afl"@,
            self is Honggfuzz ==> n@ == "Honggfuzz"@,
            self is Libfuzzer ==> n@ == "Libfuzzer"@,
    {
        match self {
            Fuzzer::Afl => String::from_str("Afl"),
            Fuzzer::Honggfuzz => String::from_str("Honggfuzz"),
            Fuzzer::Libfuzzer => String::from_str("Libfuzzer"),
        }
    }

    /// The name of the engine's materialized tree under the workspace.
    pub fn work_subdir(&self) -> (n: String)
        ensures
            self is Afl ==> n@ == "afl"@,
            self is Honggfuzz ==> n@ == "hfuzz"@,
            self is Libfuzzer ==> n@ == "libfuzzer"@,
    {
        match self {
            Fuzzer::Afl => String::from_str("afl"),
            Fuzzer::Honggfuzz => String::from_str("hfuzz"),
            Fuzzer::Libfuzzer => String::from_str("libfuzzer"),
        }
    }

    /// The engine's static definition directory: `<root>/fuzzer-<engine>`.
    pub fn dir(&self, root: &str) -> (p: String)
        ensures
            p@ == self.dir_spec(root@),
    {
        match self {
            Fuzzer::Afl => path_join(root, "fuzzer-afl"),
            Fuzzer::Honggfuzz => path_join(root, "fuzzer-honggfuzz"),
            Fuzzer::Libfuzzer => path_join(root, "fuzzer-libfuzzer"),
        }
    }

    /// The engine's ephemeral work directory: `<root>/workspace/<engine>`.
    pub fn work_dir(&self, root: &str) -> (p: String)
        ensures
            p@ == self.work_dir_spec(root@),
    {
        let w = workspace_dir(root);
        match self {
            Fuzzer::Afl => path_join(w.as_str(), "afl"),
            Fuzzer::Honggfuzz => path_join(w.as_str(), "hfuzz"),
            Fuzzer::Libfuzzer => path_join(w.as_str(), "libfuzzer"),
        }
    }

    /// The engine's own persistent fuzzing-state directory:
    /// `<root>/workspace/<engine>/<engine>_workspace`.
    pub fn workspace_dir(&self, root: &str) -> (p: String)
        ensures
            p@ == self.workspace_dir_spec(root@),
    {
        let w = self.work_dir(root);
        match self {
            Fuzzer::Afl => path_join(w.as_str(), "afl_workspace"),
            Fuzzer::Honggfuzz => path_join(w.as_str(), "hfuzz_workspace"),
            Fuzzer::Libfuzzer => path_join(w.as_str(), "libfuzzer_workspace"),
        }
    }
}

} // verus!
