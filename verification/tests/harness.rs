use warf::targets::fuzz_wasmi_instantiate;
use warf::targets::fuzz_wasmi_validate;

// The smallest well-formed WebAssembly binary: magic and version, no
// sections.
const EMPTY_MODULE: [u8; 8] = [0x00, 0x61, 0x73, 0x6d, 0x01, 0x00, 0x00, 0x00];

#[test]
fn harnesses_tolerate_garbage_input() {
    fuzz_wasmi_validate(&[]);
    fuzz_wasmi_instantiate(&[]);
    fuzz_wasmi_validate(&[0xff, 0x00, 0x12]);
    fuzz_wasmi_instantiate(&[0xff, 0x00, 0x12]);
}

#[test]
fn harnesses_accept_a_well_formed_module() {
    fuzz_wasmi_validate(&EMPTY_MODULE);
    fuzz_wasmi_instantiate(&EMPTY_MODULE);
}

#[test]
fn harnesses_tolerate_a_truncated_module() {
    fuzz_wasmi_validate(&EMPTY_MODULE[..4]);
    fuzz_wasmi_instantiate(&EMPTY_MODULE[..4]);
}
