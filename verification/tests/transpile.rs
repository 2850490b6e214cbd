use transhader::{transpile, Output, Request, Stage, TranspileError};

const VERTEX_GLSL: &str = "#version 450\nvoid main(){ gl_Position = vec4(0.0,0.0,0.0,1.0); }";

fn request(stage: &str, source: &str, from: &str, to: &str, entry_point: Option<&str>) -> Request {
    Request {
        stage: stage.to_string(),
        source: source.to_string(),
        from: from.to_string(),
        to: to.to_string(),
        defines: Vec::new(),
        entry_point: entry_point.map(|e| e.to_string()),
    }
}

#[test]
fn glsl_to_hlsl_emits_vector_assignment() {
    let req = request("vertex", VERTEX_GLSL, "glsl", "hlsl", Some("main"));
    match transpile(&req) {
        Ok(Output::Text(text)) => {
            assert!(!text.is_empty());
            assert!(text.contains("float4"));
            assert!(text.contains("SV_Position"));
        }
        other => panic!("expected HLSL text, got {other:?}"),
    }
}

#[test]
fn glsl_to_spv_begins_with_magic_word() {
    let req = request("vertex", VERTEX_GLSL, "glsl", "spv", Some("main"));
    match transpile(&req) {
        Ok(Output::Words(words)) => {
            assert!(!words.is_empty());
            assert_eq!(words[0], 0x0723_0203);
        }
        other => panic!("expected a word sequence, got {other:?}"),
    }
}

#[test]
fn msl_without_entry_point_is_request_validation() {
    let req = request("vertex", VERTEX_GLSL, "glsl", "msl", None);
    assert!(matches!(
        transpile(&req),
        Err(TranspileError::RequestValidation(_))
    ));
}

#[test]
fn hlsl_without_entry_point_is_request_validation() {
    let req = request("vertex", VERTEX_GLSL, "glsl", "hlsl", None);
    assert!(matches!(
        transpile(&req),
        Err(TranspileError::RequestValidation(_))
    ));
}

#[test]
fn glsl_target_without_entry_point_is_request_validation() {
    let req = request("vertex", VERTEX_GLSL, "glsl", "glsl", None);
    assert!(matches!(
        transpile(&req),
        Err(TranspileError::RequestValidation(_))
    ));
}

#[test]
fn unsupported_target_fails_before_parsing() {
    // The source is not even well-formed: an unsupported `to` tag must win
    // without any front-end looking at it.
    let req = request("vertex", "this is no shader at all", "glsl", "rust", Some("main"));
    match transpile(&req) {
        Err(TranspileError::UnsupportedLanguage(tag)) => assert_eq!(tag, "rust"),
        other => panic!("expected UnsupportedLanguage, got {other:?}"),
    }
}

#[test]
fn unsupported_source_language_is_rejected() {
    let req = request("vertex", VERTEX_GLSL, "java", "hlsl", Some("main"));
    match transpile(&req) {
        Err(TranspileError::UnsupportedLanguage(tag)) => assert_eq!(tag, "java"),
        other => panic!("expected UnsupportedLanguage, got {other:?}"),
    }
}

#[test]
fn unknown_stage_is_request_validation() {
    let req = request("geometry", VERTEX_GLSL, "glsl", "hlsl", Some("main"));
    match transpile(&req) {
        Err(TranspileError::RequestValidation(tag)) => assert_eq!(tag, "geometry"),
        other => panic!("expected RequestValidation, got {other:?}"),
    }
}

#[test]
fn empty_glsl_source_is_a_parse_failure() {
    let req = request("vertex", "", "glsl", "hlsl", Some("main"));
    assert!(matches!(transpile(&req), Err(TranspileError::Parse(_))));
}

#[test]
fn empty_wgsl_source_is_a_parse_failure() {
    let req = request("vertex", "", "wgsl", "hlsl", Some("main"));
    assert!(matches!(transpile(&req), Err(TranspileError::Parse(_))));
}

#[test]
fn malformed_glsl_source_is_a_parse_failure() {
    let req = request("vertex", "void main( {", "glsl", "hlsl", Some("main"));
    assert!(matches!(transpile(&req), Err(TranspileError::Parse(_))));
}

#[test]
fn malformed_binary_source_is_a_parse_failure() {
    let req = request("vertex", "not binary ir", "spv", "hlsl", Some("main"));
    assert!(matches!(transpile(&req), Err(TranspileError::Parse(_))));
}

#[test]
fn repeated_invocations_give_identical_text() {
    let req = request("vertex", VERTEX_GLSL, "glsl", "hlsl", Some("main"));
    let first = transpile(&req).unwrap();
    let second = transpile(&req).unwrap();
    assert_eq!(first, second);
}

#[test]
fn repeated_invocations_give_identical_words() {
    let req = request("vertex", VERTEX_GLSL, "glsl", "spv", Some("main"));
    let first = transpile(&req).unwrap();
    let second = transpile(&req).unwrap();
    assert_eq!(first, second);
}

#[test]
fn wgsl_round_trip_reparses_and_validates() {
    let source = "@vertex\nfn main() -> @builtin(position) vec4<f32> {\n    return vec4<f32>(0.0, 0.0, 0.0, 1.0);\n}\n";
    let req = request("vertex", source, "wgsl", "wgsl", None);
    let emitted = match transpile(&req) {
        Ok(Output::Text(text)) => text,
        other => panic!("expected WGSL text, got {other:?}"),
    };
    assert!(!emitted.is_empty());
    // The emitted text must itself parse and validate in the same language.
    let back = request("vertex", &emitted, "wgsl", "wgsl", None);
    match transpile(&back) {
        Ok(Output::Text(text)) => assert!(text.contains("@vertex")),
        other => panic!("expected re-emitted WGSL text, got {other:?}"),
    }
}

#[test]
fn wgsl_source_feeds_every_text_backend() {
    let source = "@fragment\nfn main() -> @location(0) vec4<f32> {\n    return vec4<f32>(1.0, 0.0, 0.0, 1.0);\n}\n";
    for to in ["hlsl", "msl", "glsl"] {
        let req = request("fragment", source, "wgsl", to, Some("main"));
        match transpile(&req) {
            Ok(Output::Text(text)) => assert!(!text.is_empty(), "empty output for {to}"),
            other => panic!("expected text for {to}, got {other:?}"),
        }
    }
}

#[test]
fn wgsl_stage_annotations_are_authoritative() {
    // The WGSL-style source declares its own stage inline; the request's
    // stage tag is informational only and need not agree.
    let source = "@vertex\nfn main() -> @builtin(position) vec4<f32> {\n    return vec4<f32>(0.0, 0.0, 0.0, 1.0);\n}\n";
    let req = request("compute", source, "wgsl", "wgsl", None);
    assert!(matches!(transpile(&req), Ok(Output::Text(_))));
}

#[test]
fn missing_entry_point_in_module_is_an_emit_failure() {
    let req = request("vertex", VERTEX_GLSL, "glsl", "glsl", Some("nosuch"));
    assert!(matches!(transpile(&req), Err(TranspileError::Emit(_))));
}

#[test]
fn preprocessor_defines_reach_the_front_end() {
    let source = "#version 450\nvoid main(){ gl_Position = vec4(VAL, 0.0, 0.0, 1.0); }";
    let mut req = request("vertex", source, "glsl", "hlsl", Some("main"));
    // Without the define the identifier is undeclared.
    assert!(matches!(transpile(&req), Err(TranspileError::Parse(_))));
    req.defines = vec![("VAL".to_string(), "0.0".to_string())];
    assert!(matches!(transpile(&req), Ok(Output::Text(_))));
}

#[test]
fn dangling_type_handle_fails_validation() {
    // A handle minted by one arena, used in a module whose own type arena is
    // empty: the validator must reject it, never silently pass.
    let mut scratch_types = naga::UniqueArena::new();
    let dangling = scratch_types.insert(
        naga::Type {
            name: None,
            inner: naga::TypeInner::Scalar(naga::Scalar {
                kind: naga::ScalarKind::Sint,
                width: 4,
            }),
        },
        naga::Span::UNDEFINED,
    );
    let mut module = naga::Module::default();
    module.global_variables.append(
        naga::GlobalVariable {
            name: Some("g".to_string()),
            space: naga::AddressSpace::Private,
            binding: None,
            ty: dangling,
            init: None,
        },
        naga::Span::UNDEFINED,
    );
    assert!(matches!(
        transhader::ir::validate(&module),
        Err(TranspileError::Validation(_))
    ));
}

#[test]
fn well_formed_module_validates() {
    let module = naga::Module::default();
    assert!(transhader::ir::validate(&module).is_ok());
}

#[test]
fn parse_stage_resolves_the_three_stages() {
    assert_eq!(transhader::util::parse_stage("vertex"), Ok(Stage::Vertex));
    assert_eq!(transhader::util::parse_stage("fragment"), Ok(Stage::Fragment));
    assert_eq!(transhader::util::parse_stage("compute"), Ok(Stage::Compute));
    assert!(matches!(
        transhader::util::parse_stage("tessellation"),
        Err(TranspileError::RequestValidation(_))
    ));
}
