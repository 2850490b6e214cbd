use vstd::prelude::*;

use crate::ir::{info_rep, module_rep, validate, validated_info_of};
use crate::TranspileError;

verus! {

/// What the HLSL back-end yields for a validated module of the given
/// content: `None` where the module uses a construct the target cannot
/// represent, otherwise the emitted text.
pub uninterp spec fn hlsl_text_of(module: Seq<u32>) -> Option<Seq<char>>;

/// Relies on naga::back::hlsl::Writer, run with the default options: the
/// emitted text is a function of the module's content alone. The info must
/// be the one validation derived from this very module; the writer indexes
/// the module by it.
#[verifier::external_body]
fn hlsl_write(module: &naga::Module, info: &naga::valid::ModuleInfo) -> (r: Result<String, String>)
    requires
        Some(info_rep(*info)) == validated_info_of(module_rep(*module)),
    ensures
        r is Ok <==> hlsl_text_of(module_rep(*module)) is Some,
        r matches Ok(s) ==> Some(s@) == hlsl_text_of(module_rep(*module)),
{
    let mut out = String::new();
    naga::back::hlsl::Writer::new(&mut out, &naga::back::hlsl::Options::default())
        .write(module, info)
        .map_err(|e| format!("{e}"))?;
    Ok(out)
}

/// Validates the module and emits it as HLSL text. Fails with a validation
/// error where the module is malformed, and with an emission error where the
/// target cannot represent it; no partial output either way.
pub fn to_hlsl(module: &naga::Module) -> (r: Result<String, TranspileError>)
    ensures
        r is Ok <==> (validated_info_of(module_rep(*module)) is Some && hlsl_text_of(
            module_rep(*module),
        ) is Some),
        r matches Ok(s) ==> Some(s@) == hlsl_text_of(module_rep(*module)),
        validated_info_of(module_rep(*module)) is None ==> r matches Err(
            TranspileError::Validation(_),
        ),
        validated_info_of(module_rep(*module)) is Some && hlsl_text_of(module_rep(*module)) is None
            ==> r matches Err(TranspileError::Emit(_)),
{
    let info = match validate(module) {
        Ok(i) => i,
        Err(e) => {
            return Err(e);
        },
    };
    match hlsl_write(module, &info) {
        Ok(s) => Ok(s),
        Err(msg) => Err(TranspileError::Emit(msg)),
    }
}

} // verus!
