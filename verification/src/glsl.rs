use vstd::prelude::*;

use crate::ir::{info_rep, module_rep, validate, validated_info_of};
use crate::{Stage, TranspileError};

verus! {

/// What the GLSL-like back-end yields for a validated module of the given
/// content, emitted for the given stage and entry-point name: `None` where
/// no entry point of that stage and name exists in the module or the target
/// cannot represent a construct, otherwise the emitted text.
pub uninterp spec fn glsl_text_of(module: Seq<u32>, stage: Stage, entry_point: Seq<char>) -> Option<
    Seq<char>,
>;

/// Relies on naga::back::glsl::Writer, run with the default options, default
/// bounds-check policies and no multiview: the emitted text is a function of
/// the module's content, the stage and the entry-point name alone. The info
/// must be the one validation derived from this very module.
#[verifier::external_body]
fn glsl_write(
    module: &naga::Module,
    info: &naga::valid::ModuleInfo,
    stage: Stage,
    entry_point: &str,
) -> (r: Result<String, String>)
    requires
        Some(info_rep(*info)) == validated_info_of(module_rep(*module)),
    ensures
        r is Ok <==> glsl_text_of(module_rep(*module), stage, entry_point@) is Some,
        r matches Ok(s) ==> Some(s@) == glsl_text_of(module_rep(*module), stage, entry_point@),
{
    let mut out = String::new();
    let shader_stage = match stage {
        Stage::Vertex => naga::ShaderStage::Vertex,
        Stage::Fragment => naga::ShaderStage::Fragment,
        Stage::Compute => naga::ShaderStage::Compute,
    };
    let entry_point = entry_point.to_owned();
    let pipeline = naga::back::glsl::PipelineOptions { shader_stage, entry_point, multiview: None };
    let options = naga::back::glsl::Options::default();
    let policies = naga::proc::BoundsCheckPolicies::default();
    let mut writer = naga::back::glsl::Writer::new(&mut out, module, info, &options, &pipeline, policies).map_err(|e| format!("{e}"))?;
    writer.write().map_err(|e| format!("{e}"))?;
    Ok(out)
}

/// Validates the module and emits it as GLSL-like text for one stage and
/// entry point. Fails with a validation error where the module is malformed,
/// and with an emission error where the entry point is absent or the target
/// cannot represent a construct.
pub fn to_glsl(module: &naga::Module, stage: Stage, entry_point: &str) -> (r: Result<
    String,
    TranspileError,
>)
    ensures
        r is Ok <==> (validated_info_of(module_rep(*module)) is Some && glsl_text_of(
            module_rep(*module),
            stage,
            entry_point@,
        ) is Some),
        r matches Ok(s) ==> Some(s@) == glsl_text_of(module_rep(*module), stage, entry_point@),
        validated_info_of(module_rep(*module)) is None ==> r matches Err(
            TranspileError::Validation(_),
        ),
        validated_info_of(module_rep(*module)) is Some && glsl_text_of(
            module_rep(*module),
            stage,
            entry_point@,
        ) is None ==> r matches Err(TranspileError::Emit(_)),
{
    let info = match validate(module) {
        Ok(i) => i,
        Err(e) => {
            return Err(e);
        },
    };
    match glsl_write(module, &info, stage, entry_point) {
        Ok(s) => Ok(s),
        Err(msg) => Err(TranspileError::Emit(msg)),
    }
}

} // verus!
