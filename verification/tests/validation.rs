use warf::campaign::check_target;
use warf::campaign::is_known_target;
use warf::errors::FuzzerQuit;
use warf::errors::UnknownTarget;
use warf::text::contains_str;
use warf::text::str_eq;

fn names(list: &[&str]) -> Vec<String> {
    list.iter().map(|s| s.to_string()).collect()
}

fn scores_for(input: &str, candidates: &[String]) -> Vec<u64> {
    candidates.iter().map(|c| strsim::jaro_winkler(input, c).to_bits()).collect()
}

const THRESHOLD: f64 = 0.8;

#[test]
fn known_target_passes_validation() {
    let targets = names(&["wasmi_validate", "wasmi_instantiate"]);
    let scores = scores_for("wasmi_validate", &targets);
    assert!(check_target("wasmi_validate", &targets, &scores, THRESHOLD.to_bits()).is_ok());
}

#[test]
fn unknown_target_fails_before_any_run_with_a_suggestion() {
    let targets = names(&["wasmi_validate", "wasmi_instantiate"]);
    let requested = "wasmi_valdiate";
    let scores = scores_for(requested, &targets);
    let err = check_target(requested, &targets, &scores, THRESHOLD.to_bits()).unwrap_err();
    assert_eq!(err.requested, "wasmi_valdiate");
    assert_eq!(err.suggestion, Some("wasmi_validate".to_string()));
    assert_eq!(
        err.message(),
        "Don't know target `wasmi_valdiate`. Did you mean `wasmi_validate`?"
    );
}

#[test]
fn unknown_target_without_a_close_name_has_no_suggestion() {
    let targets = names(&["wasmi_validate", "wasmi_instantiate"]);
    let requested = "zzzz";
    let scores = scores_for(requested, &targets);
    let err = check_target(requested, &targets, &scores, THRESHOLD.to_bits()).unwrap_err();
    assert_eq!(err.suggestion, None);
    assert_eq!(err.message(), "Don't know target `zzzz`. ");
}

#[test]
fn membership_is_exact() {
    let targets = names(&["abc", "abd"]);
    assert!(is_known_target("abc", &targets));
    assert!(is_known_target("abd", &targets));
    assert!(!is_known_target("ab", &targets));
    assert!(!is_known_target("abcd", &targets));
}

#[test]
fn unknown_target_message_shapes() {
    let with = UnknownTarget {
        requested: "x".to_string(),
        suggestion: Some("y".to_string()),
    };
    assert_eq!(with.message(), "Don't know target `x`. Did you mean `y`?");
    let without = UnknownTarget { requested: "x".to_string(), suggestion: None };
    assert_eq!(without.message(), "Don't know target `x`. ");
}

#[test]
fn fuzzer_quit_message_is_the_documented_one() {
    assert_eq!(FuzzerQuit.message(), "[WARF] Fuzzer quit");
}

#[test]
fn text_helpers_behave() {
    assert!(str_eq("abc", "abc"));
    assert!(!str_eq("abc", "abd"));
    assert!(!str_eq("abc", "ab"));
    assert!(contains_str("wasmi_validate", "wasm"));
    assert!(contains_str("wasmi_validate", ""));
    assert!(!contains_str("other", "wasm"));
}
