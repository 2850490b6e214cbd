use vstd::prelude::*;

use crate::ir::{info_rep, module_rep, validate, validated_info_of};
use crate::TranspileError;

verus! {

/// The fixed magic word every stream in the binary IR format begins with.
pub const SPV_MAGIC: u32 = 0x07230203;

/// What the binary back-end yields for a validated module of the given
/// content: `None` where the module uses a construct the target cannot
/// represent, otherwise the emitted word sequence.
pub uninterp spec fn spv_words_of(module: Seq<u32>) -> Option<Seq<u32>>;

/// Relies on naga::back::spv::Writer, run with the default options and no
/// pipeline options or debug info: the emitted words are a function of the
/// module's content alone, and the stream begins with the format's fixed
/// magic word. The info must be the one validation derived from this very
/// module.
#[verifier::external_body]
fn spv_write(module: &naga::Module, info: &naga::valid::ModuleInfo) -> (r: Result<Vec<u32>, String>)
    requires
        Some(info_rep(*info)) == validated_info_of(module_rep(*module)),
    ensures
        r is Ok <==> spv_words_of(module_rep(*module)) is Some,
        r matches Ok(w) ==> Some(w@) == spv_words_of(module_rep(*module)),
        r matches Ok(w) ==> w@.len() > 0 && w@[0] == SPV_MAGIC,
{
    let mut out: Vec<u32> = Vec::new();
    let mut writer = naga::back::spv::Writer::new(&naga::back::spv::Options::default())
        .map_err(|e| format!("{e}"))?;
    writer.write(module, info, None, &None, &mut out).map_err(|e| format!("{e}"))?;
    Ok(out)
}

/// Validates the module and emits it as a binary IR word sequence. On
/// success the stream is non-empty and begins with the format's magic word.
/// Fails with a validation error where the module is malformed, and with an
/// emission error where the target cannot represent it.
pub fn to_spv(module: &naga::Module) -> (r: Result<Vec<u32>, TranspileError>)
    ensures
        r is Ok <==> (validated_info_of(module_rep(*module)) is Some && spv_words_of(
            module_rep(*module),
        ) is Some),
        r matches Ok(w) ==> Some(w@) == spv_words_of(module_rep(*module)),
        r matches Ok(w) ==> w@.len() > 0 && w@[0] == SPV_MAGIC,
        validated_info_of(module_rep(*module)) is None ==> r matches Err(
            TranspileError::Validation(_),
        ),
        validated_info_of(module_rep(*module)) is Some && spv_words_of(module_rep(*module)) is None
            ==> r matches Err(TranspileError::Emit(_)),
{
    let info = match validate(module) {
        Ok(i) => i,
        Err(e) => {
            return Err(e);
        },
    };
    match spv_write(module, &info) {
        Ok(w) => Ok(w),
        Err(msg) => Err(TranspileError::Emit(msg)),
    }
}

} // verus!
