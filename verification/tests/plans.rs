use warf::paths::corpora_dir;
use warf::paths::debug_template_file;
use warf::paths::debug_workspace_dir;
use warf::paths::targets_dir;
use warf::paths::targets_source_file;
use warf::paths::wasm_dir;
use warf::paths::workspace_dir;
use warf::paths::Fuzzer;
use warf::plans::afl_input_arg;
use warf::plans::build_afl_plan;
use warf::plans::build_honggfuzz_plan;
use warf::plans::build_targets_afl_plans;
use warf::plans::cargo_update_plan;
use warf::plans::hfuzz_run_args;
use warf::plans::libfuzzer_add_plan;
use warf::plans::libfuzzer_fuzz_dir;
use warf::plans::libfuzzer_fuzz_targets_dir;
use warf::plans::libfuzzer_fuzz_workspace_plan;
use warf::plans::libfuzzer_max_time_arg;
use warf::plans::prepare_debug_workspace_plan;
use warf::plans::prepare_fuzzer_workspace_plan;
use warf::plans::prepare_target_workspace_plan;
use warf::plans::run_afl_plan;
use warf::plans::run_debug_plan;
use warf::plans::run_honggfuzz_plan;
use warf::plans::run_libfuzzer_plan;
use warf::text::u64_to_string;

#[test]
fn directory_layout_is_the_documented_one() {
    assert_eq!(targets_dir("/r"), "/r/targets");
    assert_eq!(targets_source_file("/r"), "/r/targets/src/lib.rs");
    assert_eq!(workspace_dir("/r"), "/r/workspace");
    assert_eq!(corpora_dir("/r"), "/r/workspace/corpora");
    assert_eq!(wasm_dir("/r"), "/r/workspace/corpora/wasm");
    assert_eq!(debug_workspace_dir("/r"), "/r/workspace/debug");
    assert_eq!(debug_template_file("/r"), "/r/debug/debug_template.rs");
}

#[test]
fn each_engine_owns_its_three_directories() {
    assert_eq!(Fuzzer::Afl.dir("/r"), "/r/fuzzer-afl");
    assert_eq!(Fuzzer::Honggfuzz.dir("/r"), "/r/fuzzer-honggfuzz");
    assert_eq!(Fuzzer::Libfuzzer.dir("/r"), "/r/fuzzer-libfuzzer");
    assert_eq!(Fuzzer::Afl.work_dir("/r"), "/r/workspace/afl");
    assert_eq!(Fuzzer::Honggfuzz.work_dir("/r"), "/r/workspace/hfuzz");
    assert_eq!(Fuzzer::Libfuzzer.work_dir("/r"), "/r/workspace/libfuzzer");
    assert_eq!(Fuzzer::Afl.workspace_dir("/r"), "/r/workspace/afl/afl_workspace");
    assert_eq!(Fuzzer::Honggfuzz.workspace_dir("/r"), "/r/workspace/hfuzz/hfuzz_workspace");
    assert_eq!(
        Fuzzer::Libfuzzer.workspace_dir("/r"),
        "/r/workspace/libfuzzer/libfuzzer_workspace"
    );
    assert_eq!(Fuzzer::Afl.name(), "Afl");
    assert_eq!(Fuzzer::Honggfuzz.work_subdir(), "hfuzz");
}

#[test]
fn decimal_rendering_is_exact() {
    assert_eq!(u64_to_string(0), "0");
    assert_eq!(u64_to_string(7), "7");
    assert_eq!(u64_to_string(10), "10");
    assert_eq!(u64_to_string(12345), "12345");
    assert_eq!(u64_to_string(u64::MAX), "18446744073709551615");
}

#[test]
fn hfuzz_argument_line_carries_timeout_and_override() {
    assert_eq!(hfuzz_run_args(Some(10), "extra"), "--run_time 10 extra");
    assert_eq!(hfuzz_run_args(None, "extra"), " extra");
    assert_eq!(hfuzz_run_args(Some(90), ""), "--run_time 90 ");
}

#[test]
fn honggfuzz_run_plan_is_exact() {
    let p = run_honggfuzz_plan("/r", "tgt", Some(10), "env-args");
    assert_eq!(p.program, "cargo");
    let args: Vec<&str> = p.args.iter().map(|s| s.as_str()).collect();
    assert_eq!(args, vec!["hfuzz", "run", "tgt"]);
    assert_eq!(p.env.len(), 2);
    assert_eq!(p.env[0].name, "HFUZZ_RUN_ARGS");
    assert_eq!(p.env[0].value, "--run_time 10 env-args");
    assert_eq!(p.env[1].name, "HFUZZ_INPUT");
    assert_eq!(p.env[1].value, "/r/workspace/corpora/wasm");
    assert_eq!(p.cwd, "/r/workspace/hfuzz");
}

#[test]
fn afl_run_plan_seeds_or_resumes() {
    let fresh = run_afl_plan("/r", "tgt", None, false);
    let args: Vec<&str> = fresh.args.iter().map(|s| s.as_str()).collect();
    assert_eq!(
        args,
        vec!["afl", "fuzz", "-i", "/r/workspace/corpora/wasm", "-o",
             "/r/workspace/afl/afl_workspace", "--", "./target/debug/tgt"]
    );
    assert_eq!(fresh.cwd, "/r/workspace/afl");
    assert!(fresh.env.is_empty());

    let resumed = run_afl_plan("/r", "tgt", None, true);
    assert_eq!(resumed.args[3], "-");
    assert_eq!(afl_input_arg("/r", true), "-");
    assert_eq!(afl_input_arg("/r", false), "/r/workspace/corpora/wasm");
}

#[test]
fn afl_run_plan_propagates_the_timeout() {
    let timed = run_afl_plan("/r", "tgt", Some(45), false);
    let args: Vec<&str> = timed.args.iter().map(|s| s.as_str()).collect();
    assert_eq!(
        args,
        vec!["afl", "fuzz", "-i", "/r/workspace/corpora/wasm", "-o",
             "/r/workspace/afl/afl_workspace", "-V", "45", "--", "./target/debug/tgt"]
    );
}

#[test]
fn libfuzzer_plans_are_exact() {
    let add = libfuzzer_add_plan("/r", "tgt");
    let args: Vec<&str> = add.args.iter().map(|s| s.as_str()).collect();
    assert_eq!(args, vec!["fuzz", "add", "tgt"]);
    assert_eq!(add.cwd, "/r/workspace/libfuzzer/fuzz");

    let run = run_libfuzzer_plan("/r", "tgt", None);
    let args: Vec<&str> = run.args.iter().map(|s| s.as_str()).collect();
    assert_eq!(args, vec!["fuzz", "run", "tgt", "/r/workspace/corpora/wasm"]);
    assert_eq!(run.cwd, "/r/workspace/libfuzzer/fuzz");

    // a configured timeout reaches the engine as its session-length argument
    let timed = run_libfuzzer_plan("/r", "tgt", Some(30));
    let args: Vec<&str> = timed.args.iter().map(|s| s.as_str()).collect();
    assert_eq!(
        args,
        vec!["fuzz", "run", "tgt", "/r/workspace/corpora/wasm", "--", "-max_total_time=30"]
    );

    assert_eq!(libfuzzer_max_time_arg(Some(30)), "-max_total_time=30");
    assert_eq!(libfuzzer_max_time_arg(None), "");

    assert_eq!(libfuzzer_fuzz_dir("/r"), "/r/workspace/libfuzzer/fuzz");
    assert_eq!(libfuzzer_fuzz_targets_dir("/r"), "/r/workspace/libfuzzer/fuzz/fuzz_targets");
    let fp = libfuzzer_fuzz_workspace_plan("/r");
    assert_eq!(fp.create_dirs.len(), 1);
    assert_eq!(fp.create_dirs[0], "/r/workspace/libfuzzer/fuzz/fuzz_targets");
    assert_eq!(fp.copies.len(), 1);
    assert_eq!(fp.copies[0].from, "/r/fuzzer-libfuzzer/fuzz/Cargo.toml");
    assert_eq!(fp.copies[0].to, "/r/workspace/libfuzzer/fuzz/Cargo.toml");
}

#[test]
fn build_plans_are_exact() {
    let h = build_honggfuzz_plan("/r");
    let args: Vec<&str> = h.args.iter().map(|s| s.as_str()).collect();
    assert_eq!(args, vec!["hfuzz", "build"]);
    assert_eq!(h.cwd, "/r/fuzzer-honggfuzz");

    let a = build_afl_plan("/r", "tgt");
    let args: Vec<&str> = a.args.iter().map(|s| s.as_str()).collect();
    assert_eq!(args, vec!["afl", "build", "--bin", "tgt"]);
    assert_eq!(a.cwd, "/r/workspace/afl");

    let all = build_targets_afl_plans("/r", &vec!["t1".to_string(), "t2".to_string()]);
    assert_eq!(all.len(), 2);
    assert_eq!(all[0].args[3], "t1");
    assert_eq!(all[1].args[3], "t2");

    let d = run_debug_plan("/r", "tgt");
    let args: Vec<&str> = d.args.iter().map(|s| s.as_str()).collect();
    assert_eq!(args, vec!["build", "--bin", "debug_tgt"]);
    assert_eq!(d.cwd, "/r/workspace/debug");

    let u = cargo_update_plan("/r");
    let args: Vec<&str> = u.args.iter().map(|s| s.as_str()).collect();
    assert_eq!(args, vec!["update"]);
    assert_eq!(u.cwd, "/r");
}

#[test]
fn workspace_materialization_plans_are_exact() {
    let t = prepare_target_workspace_plan("/r");
    assert_eq!(t.from, "/r/targets");
    assert_eq!(t.to, "/r/workspace");
    assert!(t.overwrite && t.skip_exist && t.copy_inside);

    let f = prepare_fuzzer_workspace_plan("/r", Fuzzer::Honggfuzz, "hfuzz");
    let dirs: Vec<&str> = f.create_dirs.iter().map(|s| s.as_str()).collect();
    assert_eq!(dirs, vec!["/r/workspace/hfuzz", "/r/workspace/hfuzz/src"]);
    let copies: Vec<(&str, &str)> =
        f.copies.iter().map(|c| (c.from.as_str(), c.to.as_str())).collect();
    assert_eq!(
        copies,
        vec![
            ("/r/fuzzer-honggfuzz/Cargo.toml", "/r/workspace/hfuzz/Cargo.toml"),
            ("/r/fuzzer-honggfuzz/template.rs", "/r/workspace/hfuzz/template.rs"),
            ("/r/fuzzer-honggfuzz/src/lib.rs", "/r/workspace/hfuzz/src/lib.rs"),
        ]
    );

    let d = prepare_debug_workspace_plan("/r", "debug");
    let dirs: Vec<&str> = d.create_dirs.iter().map(|s| s.as_str()).collect();
    assert_eq!(dirs, vec!["/r/workspace/debug", "/r/workspace/debug/src"]);
    let copies: Vec<(&str, &str)> =
        d.copies.iter().map(|c| (c.from.as_str(), c.to.as_str())).collect();
    assert_eq!(
        copies,
        vec![
            ("/r/debug/Cargo.toml", "/r/workspace/debug/Cargo.toml"),
            ("/r/debug/src/lib.rs", "/r/workspace/debug/src/lib.rs"),
        ]
    );
}
