use warf::template::debug_target_path;
use warf::template::harness_file_path;
use warf::template::instantiate_template;
use warf::template::libfuzzer_target_path;
use warf::template::replace_all_str;
use warf::template::template_file_path;
use warf::paths::Fuzzer;

#[test]
fn placeholder_once_is_replaced_and_nothing_else_changes() {
    let template = "fn main() {\n    fuzz_target(###TARGET###);\n}\n";
    let expected = "fn main() {\n    fuzz_target(foo);\n}\n";
    assert_eq!(instantiate_template(template, "foo"), expected);
}

#[test]
fn every_occurrence_of_the_placeholder_is_replaced() {
    let template = "###TARGET### and ###TARGET###";
    assert_eq!(instantiate_template(template, "abc"), "abc and abc");
}

#[test]
fn text_without_the_placeholder_is_unchanged() {
    let template = "fn main() {}";
    assert_eq!(instantiate_template(template, "foo"), template);
}

#[test]
fn replacement_is_leftmost_and_non_overlapping() {
    assert_eq!(replace_all_str("aaa", "aa", "b"), "ba");
    assert_eq!(replace_all_str("abcabc", "abc", "x"), "xx");
}

#[test]
fn harness_paths_follow_the_layout() {
    assert_eq!(harness_file_path("/r/workspace/hfuzz", "t"), "/r/workspace/hfuzz/src/bin/t.rs");
    assert_eq!(
        libfuzzer_target_path("/r/workspace/libfuzzer", "t"),
        "/r/workspace/libfuzzer/fuzz/fuzz_targets/t.rs"
    );
    assert_eq!(debug_target_path("/r/workspace/debug", "t"), "/r/workspace/debug/src/bin/debug_t.rs");
    assert_eq!(template_file_path(Fuzzer::Afl, "/r"), "/r/fuzzer-afl/template.rs");
}
