use vstd::prelude::*;

use crate::ir::{info_rep, module_rep, validate, validated_info_of};
use crate::TranspileError;

verus! {

/// What the Metal-like back-end yields for a validated module of the given
/// content: `None` where the module uses a construct the target cannot
/// represent, otherwise the emitted text.
pub uninterp spec fn msl_text_of(module: Seq<u32>) -> Option<Seq<char>>;

/// Relies on naga::back::msl::write_string, run with the default options and
/// pipeline options: the emitted text is a function of the module's content
/// alone. The info must be the one validation derived from this very module.
#[verifier::external_body]
fn msl_write(module: &naga::Module, info: &naga::valid::ModuleInfo) -> (r: Result<String, String>)
    requires
        Some(info_rep(*info)) == validated_info_of(module_rep(*module)),
    ensures
        r is Ok <==> msl_text_of(module_rep(*module)) is Some,
        r matches Ok(s) ==> Some(s@) == msl_text_of(module_rep(*module)),
{
    naga::back::msl::write_string(
        module,
        info,
        &naga::back::msl::Options::default(),
        &naga::back::msl::PipelineOptions::default(),
    )
        .map(|(text, _)| text)
        .map_err(|e| format!("{e}"))
}

/// Validates the module and emits it as Metal-like text. Fails with a
/// validation error where the module is malformed, and with an emission
/// error where the target cannot represent it.
pub fn to_msl(module: &naga::Module) -> (r: Result<String, TranspileError>)
    ensures
        r is Ok <==> (validated_info_of(module_rep(*module)) is Some && msl_text_of(
            module_rep(*module),
        ) is Some),
        r matches Ok(s) ==> Some(s@) == msl_text_of(module_rep(*module)),
        validated_info_of(module_rep(*module)) is None ==> r matches Err(
            TranspileError::Validation(_),
        ),
        validated_info_of(module_rep(*module)) is Some && msl_text_of(module_rep(*module)) is None
            ==> r matches Err(TranspileError::Emit(_)),
{
    let info = match validate(module) {
        Ok(i) => i,
        Err(e) => {
            return Err(e);
        },
    };
    match msl_write(module, &info) {
        Ok(s) => Ok(s),
        Err(msg) => Err(TranspileError::Emit(msg)),
    }
}

} // verus!
