use warf::discovery::discover_targets;
use warf::errors::DiscoveryError;

#[test]
fn discovers_each_occurrence_in_textual_order() {
    let text = "/* wasmi */\n\
                pub fn fuzz_wasmi_validate(data: &[u8]) {}\n\
                pub fn fuzz_wasmi_instantiate(data: &[u8]) {}\n";
    let names = discover_targets(text).unwrap();
    assert_eq!(names, vec!["wasmi_validate".to_string(), "wasmi_instantiate".to_string()]);
}

#[test]
fn discovers_duplicates_as_found() {
    let text = "pub fn fuzz_a(x: u8) {} pub fn fuzz_b(x: u8) {} pub fn fuzz_a(y: u8) {}";
    let names = discover_targets(text).unwrap();
    assert_eq!(names, vec!["a".to_string(), "b".to_string(), "a".to_string()]);
}

#[test]
fn ignores_other_functions() {
    let text = "pub fn helper() {}\npub fn fuzz_target_one(d: &[u8]) {}\nfn fuzz_nope(d: &[u8]) {}";
    let names = discover_targets(text).unwrap();
    assert_eq!(names, vec!["target_one".to_string()]);
}

#[test]
fn zero_matches_fail_discovery() {
    let r = discover_targets("fn nothing_here() {}");
    assert!(matches!(r, Err(DiscoveryError::NoTargets)));
}

#[test]
fn empty_name_is_no_match() {
    let r = discover_targets("pub fn fuzz_(data: &[u8]) {}");
    assert!(matches!(r, Err(DiscoveryError::NoTargets)));
}

#[test]
fn missing_parenthesis_is_no_match() {
    let r = discover_targets("pub fn fuzz_abc");
    assert!(matches!(r, Err(DiscoveryError::NoTargets)));
}

#[test]
fn empty_text_fails_discovery() {
    let r = discover_targets("");
    assert!(matches!(r, Err(DiscoveryError::NoTargets)));
}

#[test]
fn marker_inside_a_name_run_still_matches_later() {
    let text = "pub fn fuzz_pub fn fuzz_abc(d: &[u8]) {}";
    let names = discover_targets(text).unwrap();
    assert_eq!(names, vec!["abc".to_string()]);
}

#[test]
fn discovery_error_messages() {
    assert_eq!(
        DiscoveryError::NoTargets.message(),
        "no fuzz targets found in the targets source file"
    );
    assert_eq!(
        DiscoveryError::SourceUnreadable.message(),
        "unable to read the targets source file"
    );
}
