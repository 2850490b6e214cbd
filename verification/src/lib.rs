use vstd::prelude::*;

pub mod glsl;
pub mod hlsl;
pub mod ir;
pub mod msl;
pub mod spv;
pub mod util;
pub mod wgsl;

verus! {

/// A shader pipeline stage: determines the available built-in variables and
/// the execution model of an entry point.
#[derive(Clone, Copy, PartialEq, Eq, Structural, Debug)]
pub enum Stage {
    Vertex,
    Fragment,
    Compute,
}

/// A source language a front-end exists for.
#[derive(Clone, Copy, PartialEq, Eq, Structural, Debug)]
pub enum FromLang {
    Glsl,
    Spv,
    Wgsl,
}

/// A target language a back-end exists for.
#[derive(Clone, Copy, PartialEq, Eq, Structural, Debug)]
pub enum ToLang {
    Hlsl,
    Wgsl,
    Spv,
    Glsl,
    Msl,
}

/// Why a transpilation request failed. Every failure is terminal for its
/// request: no retry, no partial output.
#[derive(Clone, PartialEq, Eq, Debug)]
pub enum TranspileError {
    /// The request itself is malformed: an unknown stage tag, or a missing
    /// entry point where the target requires one. Carries the offending tag
    /// or a short description.
    RequestValidation(String),
    /// The `from` or `to` tag names no language a front-end or back-end
    /// exists for. Carries the tag.
    UnsupportedLanguage(String),
    /// The front-end rejected the source text. Carries the front-end's
    /// diagnostic.
    Parse(String),
    /// The parsed module failed well-formedness or capability checks.
    Validation(String),
    /// The back-end cannot represent a construct present in the module.
    Emit(String),
    /// The source file could not be read (file-based entry only).
    Io(String),
}

/// What a successful transpilation yields: text for the text targets, an
/// ordered sequence of 32-bit words for the binary target.
#[derive(Clone, PartialEq, Eq, Debug)]
pub enum Output {
    Text(String),
    Words(Vec<u32>),
}

/// The mathematical value of an [`Output`].
pub enum OutputView {
    Text(Seq<char>),
    Words(Seq<u32>),
}

impl View for Output {
    type V = OutputView;

    open spec fn view(&self) -> OutputView {
        match self {
            Output::Text(s) => OutputView::Text(s@),
            Output::Words(w) => OutputView::Words(w@),
        }
    }
}

/// How far a request gets through the pipeline, and what it ends in. The
/// stages are strictly sequential — request checks, then parse, then
/// validation, then emission — and the first failure aborts the request.
pub enum TranspileOutcome {
    Success(OutputView),
    UnsupportedTo,
    UnsupportedFrom,
    InvalidStage,
    MissingEntryPoint,
    ParseFailed,
    ValidationFailed,
    EmitFailed,
}

/// The entry-point name handed to a back-end: empty where the request
/// carries none (only targets that need no entry point accept that).
pub open spec fn entry_or_empty(entry_point: Option<Seq<char>>) -> Seq<char> {
    match entry_point {
        Some(e) => e,
        None => Seq::empty(),
    }
}

/// What the back-end for the given target yields for a validated module of
/// the given content: text for the text targets, words for the binary one.
pub open spec fn emitted_of(
    to: ToLang,
    module: Seq<u32>,
    stage: Stage,
    entry_point: Seq<char>,
) -> Option<OutputView> {
    match to {
        ToLang::Hlsl => match crate::hlsl::hlsl_text_of(module) {
            Some(t) => Some(OutputView::Text(t)),
            None => None,
        },
        ToLang::Wgsl => match crate::wgsl::wgsl_text_of(module) {
            Some(t) => Some(OutputView::Text(t)),
            None => None,
        },
        ToLang::Spv => match crate::spv::spv_words_of(module) {
            Some(w) => Some(OutputView::Words(w)),
            None => None,
        },
        ToLang::Glsl => match crate::glsl::glsl_text_of(module, stage, entry_point) {
            Some(t) => Some(OutputView::Text(t)),
            None => None,
        },
        ToLang::Msl => match crate::msl::msl_text_of(module) {
            Some(t) => Some(OutputView::Text(t)),
            None => None,
        },
    }
}

/// The whole pipeline, as a function of the request: resolve the target tag,
/// the source tag and the stage tag, demand an entry point where the target
/// requires one, then parse, validate and emit. The first failing stage
/// decides the outcome; no stage is skipped and none is retried.
pub open spec fn transpile_spec(
    stage_tag: Seq<char>,
    source: Seq<char>,
    from_tag: Seq<char>,
    to_tag: Seq<char>,
    defines: Seq<(Seq<char>, Seq<char>)>,
    entry_point: Option<Seq<char>>,
) -> TranspileOutcome {
    match crate::util::to_lang_of_tag(to_tag) {
        None => TranspileOutcome::UnsupportedTo,
        Some(to) => match crate::util::from_lang_of_tag(from_tag) {
            None => TranspileOutcome::UnsupportedFrom,
            Some(from) => match crate::util::stage_of_tag(stage_tag) {
                None => TranspileOutcome::InvalidStage,
                Some(stage) => if crate::util::spec_entry_point_required(to)
                    && entry_point is None {
                    TranspileOutcome::MissingEntryPoint
                } else {
                    match crate::util::parsed_module_of(from, source, stage, defines) {
                        None => TranspileOutcome::ParseFailed,
                        Some(module) => match crate::ir::validated_info_of(module) {
                            None => TranspileOutcome::ValidationFailed,
                            Some(_) => match emitted_of(
                                to,
                                module,
                                stage,
                                entry_or_empty(entry_point),
                            ) {
                                None => TranspileOutcome::EmitFailed,
                                Some(out) => TranspileOutcome::Success(out),
                            },
                        },
                    }
                },
            },
        },
    }
}

/// One transpilation request: source text plus its language tags, an
/// optional set of preprocessor defines (keys expected unique), and an
/// optional entry-point name, required by targets that must name a single
/// shader function.
#[derive(Clone, Debug)]
pub struct Request {
    pub stage: String,
    pub source: String,
    pub from: String,
    pub to: String,
    pub defines: Vec<(String, String)>,
    pub entry_point: Option<String>,
}

/// The pipeline's outcome for this request.
pub open spec fn request_outcome(req: Request) -> TranspileOutcome {
    transpile_spec(
        req.stage@,
        req.source@,
        req.from@,
        req.to@,
        req.defines.deep_view(),
        req.entry_point.deep_view(),
    )
}

/// What `transpile` returns for a request: on success, exactly the output
/// the pipeline's outcome holds; on failure, the error variant of the stage
/// that failed, carrying the offending tag where one names the failure.
pub open spec fn transpile_matches(req: Request, r: Result<Output, TranspileError>) -> bool {
    match request_outcome(req) {
        TranspileOutcome::Success(out) => r matches Ok(o) && o@ == out,
        TranspileOutcome::UnsupportedTo => r matches Err(TranspileError::UnsupportedLanguage(t))
            && t@ == req.to@,
        TranspileOutcome::UnsupportedFrom => r matches Err(TranspileError::UnsupportedLanguage(t))
            && t@ == req.from@,
        TranspileOutcome::InvalidStage => r matches Err(TranspileError::RequestValidation(t))
            && t@ == req.stage@,
        TranspileOutcome::MissingEntryPoint => r matches Err(TranspileError::RequestValidation(_)),
        TranspileOutcome::ParseFailed => r matches Err(TranspileError::Parse(_)),
        TranspileOutcome::ValidationFailed => r matches Err(TranspileError::Validation(_)),
        TranspileOutcome::EmitFailed => r matches Err(TranspileError::Emit(_)),
    }
}

/// Runs one request through the pipeline: resolve the tags (failing fast on
/// an unsupported target before the source is looked at), demand an entry
/// point where the target requires one, then parse, validate and emit. The
/// first failure at any stage aborts the request and is surfaced unchanged.
/// For the binary target, a successful stream is non-empty and begins with
/// the format's magic word.
pub fn transpile(req: &Request) -> (r: Result<Output, TranspileError>)
    ensures
        transpile_matches(*req, r),
        crate::util::to_lang_of_tag(req.to@) == Some(ToLang::Spv) && r is Ok ==> (r matches Ok(o)
            && o@ matches OutputView::Words(w) && w.len() > 0 && w[0] == crate::spv::SPV_MAGIC),
{
    let to = match crate::util::parse_to_lang(req.to.as_str()) {
        Ok(t) => t,
        Err(e) => {
            return Err(e);
        },
    };
    let _from = match crate::util::parse_from_lang(req.from.as_str()) {
        Ok(f) => f,
        Err(e) => {
            return Err(e);
        },
    };
    let stage = match crate::util::parse_stage(req.stage.as_str()) {
        Ok(s) => s,
        Err(e) => {
            return Err(e);
        },
    };
    if crate::util::entry_point_required(to) && req.entry_point.is_none() {
        return Err(TranspileError::RequestValidation("missing entry point".to_owned()));
    }
    let module = match crate::util::parse_from(
        req.source.as_str(),
        stage,
        &req.defines,
        req.from.as_str(),
    ) {
        Ok(m) => m,
        Err(e) => {
            return Err(e);
        },
    };
    match to {
        ToLang::Hlsl => match crate::hlsl::to_hlsl(&module) {
            Ok(s) => Ok(Output::Text(s)),
            Err(e) => Err(e),
        },
        ToLang::Wgsl => match crate::wgsl::to_wgsl(&module) {
            Ok(s) => Ok(Output::Text(s)),
            Err(e) => Err(e),
        },
        ToLang::Spv => match crate::spv::to_spv(&module) {
            Ok(w) => Ok(Output::Words(w)),
            Err(e) => Err(e),
        },
        ToLang::Glsl => match &req.entry_point {
            Some(ep) => match crate::glsl::to_glsl(&module, stage, ep.as_str()) {
                Ok(s) => Ok(Output::Text(s)),
                Err(e) => Err(e),
            },
            None => Err(TranspileError::RequestValidation("missing entry point".to_owned())),
        },
        ToLang::Msl => match crate::msl::to_msl(&module) {
            Ok(s) => Ok(Output::Text(s)),
            Err(e) => Err(e),
        },
    }
}

/// Determinism: the pipeline's outcome is a function of the request alone,
/// so two results that both satisfy the transpiler's contract for one
/// request succeed together, and on success carry the same output — for the
/// binary target, word for word.
pub proof fn lemma_transpile_deterministic(
    req: Request,
    r1: Result<Output, TranspileError>,
    r2: Result<Output, TranspileError>,
)
    requires
        transpile_matches(req, r1),
        transpile_matches(req, r2),
    ensures
        r1 is Ok <==> r2 is Ok,
        r1 matches Ok(o1) ==> (r2 matches Ok(o2) && o1@ == o2@),
{
}

/// Fail-fast on an unsupported target: a `to` tag no back-end exists for
/// decides the outcome by itself — whatever the source, the stage, the
/// defines or the entry point, nothing is parsed and the request fails as
/// unsupported.
pub proof fn lemma_unsupported_to_fails_fast(
    stage_tag: Seq<char>,
    source: Seq<char>,
    from_tag: Seq<char>,
    to_tag: Seq<char>,
    defines: Seq<(Seq<char>, Seq<char>)>,
    entry_point: Option<Seq<char>>,
)
    requires
        crate::util::to_lang_of_tag(to_tag) is None,
    ensures
        transpile_spec(stage_tag, source, from_tag, to_tag, defines, entry_point)
            == TranspileOutcome::UnsupportedTo,
{
}

/// Entry-point requirement: a target that must name a single entry function,
/// asked for without one, fails as a malformed request — whatever the
/// source or the defines, before any front-end could run.
pub proof fn lemma_entry_point_required(
    stage_tag: Seq<char>,
    source: Seq<char>,
    from_tag: Seq<char>,
    to_tag: Seq<char>,
    defines: Seq<(Seq<char>, Seq<char>)>,
)
    requires
        crate::util::to_lang_of_tag(to_tag) matches Some(to)
            && crate::util::spec_entry_point_required(to),
        crate::util::from_lang_of_tag(from_tag) is Some,
        crate::util::stage_of_tag(stage_tag) is Some,
    ensures
        transpile_spec(stage_tag, source, from_tag, to_tag, defines, None)
            == TranspileOutcome::MissingEntryPoint,
{
}

} // verus!
