use vstd::prelude::*;
use vstd::string::StrSliceExecFns;

use crate::{FromLang, Stage, ToLang, TranspileError};

verus! {

/// Character-wise string equality.
fn str_eq(a: &str, b: &str) -> (r: bool)
    ensures
        r == (a@ == b@),
{
    let a_len = a.unicode_len();
    let b_len = b.unicode_len();
    if a_len != b_len {
        return false;
    }
    let mut i: usize = 0;
    while i < a_len
        invariant
            a_len == a@.len(),
            b_len == b@.len(),
            a_len == b_len,
            i <= a_len,
            forall|j: int| 0 <= j < i ==> a@[j] == b@[j],
        decreases a_len - i,
    {
        if a.get_char(i) != b.get_char(i) {
            return false;
        }
        i += 1;
    }
    proof {
        assert(a@ =~= b@);
    }
    true
}

/// The stage named by a request tag, if any.
pub open spec fn stage_of_tag(tag: Seq<char>) -> Option<Stage> {
    if tag == "vertex"@ {
        Some(Stage::Vertex)
    } else if tag == "fragment"@ {
        Some(Stage::Fragment)
    } else if tag == "compute"@ {
        Some(Stage::Compute)
    } else {
        None
    }
}

/// Resolves a stage tag. An unknown tag is a malformed request, not an
/// unsupported language: the set of stages is fixed by the pipeline model.
pub fn parse_stage(input: &str) -> (r: Result<Stage, TranspileError>)
    ensures
        r matches Ok(s) ==> stage_of_tag(input@) == Some(s),
        r is Err ==> stage_of_tag(input@) is None,
        r matches Err(e) ==> e matches TranspileError::RequestValidation(t) && t@ == input@,
{
    if str_eq(input, "vertex") {
        Ok(Stage::Vertex)
    } else if str_eq(input, "fragment") {
        Ok(Stage::Fragment)
    } else if str_eq(input, "compute") {
        Ok(Stage::Compute)
    } else {
        Err(TranspileError::RequestValidation(input.to_owned()))
    }
}

/// The source language named by a request tag, if a front-end exists for it.
pub open spec fn from_lang_of_tag(tag: Seq<char>) -> Option<FromLang> {
    if tag == "glsl"@ {
        Some(FromLang::Glsl)
    } else if tag == "spv"@ {
        Some(FromLang::Spv)
    } else if tag == "wgsl"@ {
        Some(FromLang::Wgsl)
    } else {
        None
    }
}

/// Resolves a source-language tag, failing fast on one no front-end exists
/// for.
pub fn parse_from_lang(input: &str) -> (r: Result<FromLang, TranspileError>)
    ensures
        r matches Ok(f) ==> from_lang_of_tag(input@) == Some(f),
        r is Err ==> from_lang_of_tag(input@) is None,
        r matches Err(e) ==> e matches TranspileError::UnsupportedLanguage(t) && t@ == input@,
{
    if str_eq(input, "glsl") {
        Ok(FromLang::Glsl)
    } else if str_eq(input, "spv") {
        Ok(FromLang::Spv)
    } else if str_eq(input, "wgsl") {
        Ok(FromLang::Wgsl)
    } else {
        Err(TranspileError::UnsupportedLanguage(input.to_owned()))
    }
}

/// The target language named by a request tag, if a back-end exists for it.
pub open spec fn to_lang_of_tag(tag: Seq<char>) -> Option<ToLang> {
    if tag == "hlsl"@ {
        Some(ToLang::Hlsl)
    } else if tag == "wgsl"@ {
        Some(ToLang::Wgsl)
    } else if tag == "spv"@ {
        Some(ToLang::Spv)
    } else if tag == "glsl"@ {
        Some(ToLang::Glsl)
    } else if tag == "msl"@ {
        Some(ToLang::Msl)
    } else {
        None
    }
}

/// Resolves a target-language tag, failing fast on one no back-end exists
/// for.
pub fn parse_to_lang(input: &str) -> (r: Result<ToLang, TranspileError>)
    ensures
        r matches Ok(t) ==> to_lang_of_tag(input@) == Some(t),
        r is Err ==> to_lang_of_tag(input@) is None,
        r matches Err(e) ==> e matches TranspileError::UnsupportedLanguage(t) && t@ == input@,
{
    if str_eq(input, "hlsl") {
        Ok(ToLang::Hlsl)
    } else if str_eq(input, "wgsl") {
        Ok(ToLang::Wgsl)
    } else if str_eq(input, "spv") {
        Ok(ToLang::Spv)
    } else if str_eq(input, "glsl") {
        Ok(ToLang::Glsl)
    } else if str_eq(input, "msl") {
        Ok(ToLang::Msl)
    } else {
        Err(TranspileError::UnsupportedLanguage(input.to_owned()))
    }
}

/// What the C-like front-end yields for the given source text, stage and
/// preprocessor defines: `None` where the source is rejected, otherwise the
/// content of the parsed module.
pub uninterp spec fn glsl_module_of(
    source: Seq<char>,
    stage: Stage,
    defines: Seq<(Seq<char>, Seq<char>)>,
) -> Option<Seq<u32>>;

/// What the binary front-end yields for the given input: `None` where
/// decoding fails (bad magic word, unsupported version, truncation),
/// otherwise the content of the decoded module. The binary front-end
/// consults neither stage nor defines.
pub uninterp spec fn spv_module_of(source: Seq<char>) -> Option<Seq<u32>>;

/// What the WGSL-style front-end yields for the given source text: `None`
/// where the source is rejected. Stage and entry points are declared inline
/// in the source itself, so neither is a parameter.
pub uninterp spec fn wgsl_module_of(source: Seq<char>) -> Option<Seq<u32>>;

/// Relies on naga::front::glsl::Frontend::parse: the result is a function of
/// the source text, the selected stage, and the preprocessor defines alone.
#[verifier::external_body]
fn glsl_parse(source: &str, stage: Stage, defines: &Vec<(String, String)>) -> (r: Result<
    naga::Module,
    String,
>)
    ensures
        r is Ok <==> glsl_module_of(source@, stage, defines.deep_view()) is Some,
        r matches Ok(m) ==> Some(crate::ir::module_rep(m)) == glsl_module_of(
            source@,
            stage,
            defines.deep_view(),
        ),
{
    let options = naga::front::glsl::Options {
        stage: match stage {
            Stage::Vertex => naga::ShaderStage::Vertex,
            Stage::Fragment => naga::ShaderStage::Fragment,
            Stage::Compute => naga::ShaderStage::Compute,
        },
        defines: defines.iter().cloned().collect(),
    };
    naga::front::glsl::Frontend::default().parse(&options, source).map_err(|e| format!("{e:?}"))
}

/// Relies on naga::front::spv::parse_u8_slice, run with the default decode
/// options: the result is a function of the source's bytes alone, and those
/// are the text's encoding.
#[verifier::external_body]
fn spv_parse(source: &str) -> (r: Result<naga::Module, String>)
    ensures
        r is Ok <==> spv_module_of(source@) is Some,
        r matches Ok(m) ==> Some(crate::ir::module_rep(m)) == spv_module_of(source@),
{
    naga::front::spv::parse_u8_slice(
        source.as_bytes(),
        &naga::front::spv::Options::default(),
    ).map_err(|e| format!("{e}"))
}

/// Relies on naga::front::wgsl::parse_str: the result is a function of the
/// source text alone.
#[verifier::external_body]
fn wgsl_parse(source: &str) -> (r: Result<naga::Module, String>)
    ensures
        r is Ok <==> wgsl_module_of(source@) is Some,
        r matches Ok(m) ==> Some(crate::ir::module_rep(m)) == wgsl_module_of(source@),
{
    naga::front::wgsl::parse_str(source).map_err(|e| format!("{e}"))
}

/// What parsing yields for a given front-end and request: the content of the
/// module, or `None` where the front-end rejects the source. An empty source
/// string is a parse failure for the text front-ends, never an empty-module
/// success.
pub open spec fn parsed_module_of(
    from: FromLang,
    source: Seq<char>,
    stage: Stage,
    defines: Seq<(Seq<char>, Seq<char>)>,
) -> Option<Seq<u32>> {
    match from {
        FromLang::Glsl => if source.len() == 0 {
            None
        } else {
            glsl_module_of(source, stage, defines)
        },
        FromLang::Spv => spv_module_of(source),
        FromLang::Wgsl => if source.len() == 0 {
            None
        } else {
            wgsl_module_of(source)
        },
    }
}

/// Parses source text in the language the tag names into a module, selecting
/// the front-end by tag. An unknown tag fails before the source is looked
/// at; a rejected source is a parse failure.
pub fn parse_from(source: &str, stage: Stage, defines: &Vec<(String, String)>, lang: &str) -> (r:
    Result<naga::Module, TranspileError>)
    ensures
        from_lang_of_tag(lang@) is None ==> (r matches Err(TranspileError::UnsupportedLanguage(t))
            && t@ == lang@),
        from_lang_of_tag(lang@) matches Some(f) ==> {
            &&& r is Ok <==> parsed_module_of(f, source@, stage, defines.deep_view()) is Some
            &&& (r matches Ok(m) ==> Some(crate::ir::module_rep(m)) == parsed_module_of(
                f,
                source@,
                stage,
                defines.deep_view(),
            ))
            &&& (r is Err ==> r matches Err(TranspileError::Parse(_)))
        },
{
    let from = match parse_from_lang(lang) {
        Ok(f) => f,
        Err(e) => {
            return Err(e);
        },
    };
    match from {
        FromLang::Glsl => {
            if source.is_empty() {
                return Err(TranspileError::Parse("empty source".to_owned()));
            }
            match glsl_parse(source, stage, defines) {
                Ok(m) => Ok(m),
                Err(msg) => Err(TranspileError::Parse(msg)),
            }
        },
        FromLang::Spv => match spv_parse(source) {
            Ok(m) => Ok(m),
            Err(msg) => Err(TranspileError::Parse(msg)),
        },
        FromLang::Wgsl => {
            if source.is_empty() {
                return Err(TranspileError::Parse("empty source".to_owned()));
            }
            match wgsl_parse(source) {
                Ok(m) => Ok(m),
                Err(msg) => Err(TranspileError::Parse(msg)),
            }
        },
    }
}

/// Whether a target must be handed a single named entry function: true of
/// the C-like, GLSL-like and Metal-like targets.
pub open spec fn spec_entry_point_required(to: ToLang) -> bool {
    to == ToLang::Hlsl || to == ToLang::Glsl || to == ToLang::Msl
}

/// Whether the request must carry an entry-point name for this target.
pub fn entry_point_required(to: ToLang) -> (r: bool)
    ensures
        r == spec_entry_point_required(to),
{
    to == ToLang::Hlsl || to == ToLang::Glsl || to == ToLang::Msl
}

} // verus!

