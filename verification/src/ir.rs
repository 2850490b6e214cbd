use vstd::prelude::*;

use crate::TranspileError;

verus! {

#[verifier::external_type_specification]
#[verifier::external_body]
pub struct ExModule(naga::Module);

#[verifier::external_type_specification]
#[verifier::external_body]
pub struct ExModuleInfo(naga::valid::ModuleInfo);

/// What an intermediate-representation module holds — its types, globals,
/// functions and entry points — reduced to one abstract word sequence. Two
/// modules holding the same content behave alike under validation and
/// emission; nothing else is assumed of the encoding.
pub uninterp spec fn module_rep(m: naga::Module) -> Seq<u32>;

/// What a validation result holds, reduced to one abstract word sequence.
/// An info value is meaningful only beside the very module it was computed
/// from.
pub uninterp spec fn info_rep(i: naga::valid::ModuleInfo) -> Seq<u32>;

/// What validating a module of the given content yields: `None` where
/// validation rejects the module, otherwise the content of the derived
/// annotation layer. Validation is a function of the module's content alone.
pub uninterp spec fn validated_info_of(module: Seq<u32>) -> Option<Seq<u32>>;

/// Relies on naga::valid::Validator::validate, run with the default
/// validation flags and capability set: the verdict and the derived info
/// depend only on the module, and a module whose handles dangle is rejected,
/// never accepted.
#[verifier::external_body]
fn validate_module(module: &naga::Module) -> (r: Result<naga::valid::ModuleInfo, String>)
    ensures
        r is Ok <==> validated_info_of(module_rep(*module)) is Some,
        r matches Ok(i) ==> Some(info_rep(i)) == validated_info_of(module_rep(*module)),
{
    naga::valid::Validator::new(
        naga::valid::ValidationFlags::default(),
        naga::valid::Capabilities::default(),
    )
        .validate(module)
        .map_err(|e| format!("{e:?}"))
}

/// Certifies a module as well-formed before any back-end consumes it. On
/// success the returned info is the annotation layer derived from exactly
/// this module; on failure no output may be emitted for the request.
pub fn validate(module: &naga::Module) -> (r: Result<naga::valid::ModuleInfo, TranspileError>)
    ensures
        r is Ok <==> validated_info_of(module_rep(*module)) is Some,
        r matches Ok(i) ==> Some(info_rep(i)) == validated_info_of(module_rep(*module)),
        r is Err ==> r matches Err(TranspileError::Validation(_)),
{
    match validate_module(module) {
        Ok(info) => Ok(info),
        Err(m) => Err(TranspileError::Validation(m)),
    }
}

} // verus!
