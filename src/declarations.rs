//! Type declarations for a compiled module, from the binding generator's
//! module converter.
use vstd::prelude::*;
use crate::plan::BuildError;

verus! {

#[verifier::external_type_specification]
#[verifier::external_body]
pub struct ExConverterError(anyhow::Error);

/// The declarations the module converter derives from the module `wasm`,
/// or `None` where it cannot parse the module.
pub uninterp spec fn wasm_declarations_of(wasm: Seq<u8>) -> Option<Seq<char>>;

/// Relies on wasm_bindgen_cli_support::wasm2es6js: `Config::generate`, with
/// base64 embedding on, parses the module, and `Output::typescript` lists
/// its exports; the outcome depends on the bytes alone.
#[verifier::external_body]
fn converter_typescript(wasm: &[u8]) -> (r: Result<String, anyhow::Error>)
    ensures
        r is Ok <==> wasm_declarations_of(wasm@) is Some,
        r is Ok ==> wasm_declarations_of(wasm@) == Some(r->Ok_0@),
{
    let output = wasm_bindgen_cli_support::wasm2es6js::Config::new().base64(true).generate(wasm)?;
    output.typescript()
}

/// The type declarations of the compiled module `wasm`, written beside it
/// when the project is bundled.
pub fn typescript_declarations(wasm: &Vec<u8>) -> (r: Result<String, BuildError>)
    ensures
        match wasm_declarations_of(wasm@) {
            Some(t) => r is Ok && r->Ok_0@ == t,
            None => r == Err::<String, BuildError>(BuildError::UnreadableModule),
        },
{
    match converter_typescript(wasm.as_slice()) {
        Ok(t) => Ok(t),
        Err(_) => Err(BuildError::UnreadableModule),
    }
}

} // verus!
