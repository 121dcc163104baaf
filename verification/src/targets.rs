//! The fuzz-target harness bodies that exercise a WebAssembly interpreter.
//! Each takes one arbitrary input buffer from the wrapped engine and feeds
//! it to the library under test; what that library then does is its own
//! affair and is called through trusted declarations.

use vstd::prelude::*;

verus! {

#[verifier::external_type_specification]
#[verifier::external_body]
pub struct ExPwasmModule(parity_wasm::elements::Module);

#[verifier::external_type_specification]
#[verifier::external_body]
pub struct ExWasmiEngine(wasmi::Engine);

#[verifier::external_type_specification]
#[verifier::external_body]
pub struct ExWasmiModule(wasmi::Module);

/// Whether the WebAssembly binary format accepts these bytes as a module
/// structure; a function of the bytes alone.
pub uninterp spec fn parity_wasm_parses(data: Seq<u8>) -> bool;

/// Whether the interpreter under test parses and validates these bytes as a
/// module under its default configuration; a function of the bytes alone.
pub uninterp spec fn wasmi_accepts(data: Seq<u8>) -> bool;

/// Relies on parity_wasm::elements::deserialize_buffer: decoding the binary
/// format is deterministic in the buffer's bytes.
#[verifier::external_body]
fn deserialize_wasm(data: &[u8]) -> (r: Option<parity_wasm::elements::Module>)
    ensures
        r is Some <==> parity_wasm_parses(data@),
{
    match parity_wasm::elements::deserialize_buffer(data) {
        Ok(module) => Some(module),
        Err(_) => None,
    }
}

/// Relies on wasmi_validation::validate_module with its plain validator,
/// which produces no output; returns whether validation passed.
#[verifier::external_body]
fn validate_wasm(module: &parity_wasm::elements::Module) -> bool {
    wasmi_validation::validate_module::<wasmi_validation::PlainValidator>(module, ()).is_ok()
}

/// A module the interpreter under test accepted, kept with the engine that
/// translated it so that instantiation can reuse it.
pub struct ParsedModule {
    engine: wasmi::Engine,
    module: wasmi::Module,
}

/// How much fuel a module's start function may burn during instantiation
/// before it is stopped; keeps instantiation of arbitrary input finite.
pub const START_FUEL: u64 = 1000000;

/// Relies on wasmi::Config::consume_fuel, wasmi::Engine::new and
/// wasmi::Module::new: parsing, validating and translating a buffer is
/// deterministic in its bytes under a fixed engine configuration.
#[verifier::external_body]
fn parse_wasmi(data: &[u8]) -> (r: Option<ParsedModule>)
    ensures
        r is Some <==> wasmi_accepts(data@),
{
    let mut config = wasmi::Config::default();
    config.consume_fuel(true);
    let engine = wasmi::Engine::new(&config);
    match wasmi::Module::new(&engine, data) {
        Ok(module) => Some(ParsedModule { engine, module }),
        Err(_) => None,
    }
}

/// Relies on wasmi::Store::new, wasmi::Store::set_fuel, wasmi::Linker::new
/// and wasmi::Linker::instantiate_and_start, with no definitions linked.
/// Store and linker are created from the module's own engine, which those
/// calls require, and the fuel budget bounds the start function, so the call
/// always returns. Returns whether instantiation succeeded.
#[verifier::external_body]
fn instantiate_wasmi(parsed: &ParsedModule) -> bool {
    let mut store = wasmi::Store::new(&parsed.engine, ());
    if store.set_fuel(START_FUEL).is_err() {
        return false;
    }
    let linker: wasmi::Linker<()> = wasmi::Linker::new(&parsed.engine);
    linker.instantiate_and_start(&mut store, &parsed.module).is_ok()
}

/// Harness: decode the input as a module structure and, when that succeeds,
/// run the validator over it, ignoring its verdict.
pub fn fuzz_wasmi_validate(data: &[u8]) {
    match deserialize_wasm(data) {
        Some(module) => {
            let _ = validate_wasm(&module);
        },
        None => {},
    }
}

/// Harness: have the interpreter parse and validate the input and, when it
/// accepts, instantiate the module with no imports, ignoring the result.
pub fn fuzz_wasmi_instantiate(data: &[u8]) {
    match parse_wasmi(data) {
        Some(parsed) => {
            let _ = instantiate_wasmi(&parsed);
        },
        None => {},
    }
}

} // verus!
