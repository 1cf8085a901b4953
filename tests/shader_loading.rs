use sdl3_experiment::shader::{
    ends_with, load_shader, select_shader_format, shader_binary_path, shader_meta_path,
    shader_stage, MetaRead, ShaderFormat, ShaderLoadError, ShaderMeta, ShaderStage,
    SHADERFORMAT_DXIL, SHADERFORMAT_MSL, SHADERFORMAT_SPIRV,
};

fn uniform_only() -> ShaderMeta {
    ShaderMeta { samplers: 0, storage_textures: 0, storage_buffers: 0, uniform_buffers: 1 }
}

#[test]
fn format_prefers_spirv_then_msl_then_dxil() {
    assert_eq!(select_shader_format(SHADERFORMAT_SPIRV | SHADERFORMAT_MSL | SHADERFORMAT_DXIL), Some(ShaderFormat::Spirv));
    assert_eq!(select_shader_format(SHADERFORMAT_MSL | SHADERFORMAT_DXIL), Some(ShaderFormat::Msl));
    assert_eq!(select_shader_format(SHADERFORMAT_DXIL), Some(ShaderFormat::Dxil));
    assert_eq!(select_shader_format(0), None);
    assert_eq!(select_shader_format(1 | 4 | 32), None);
}

#[test]
fn entrypoint_and_bits_per_format() {
    assert_eq!(ShaderFormat::Spirv.entrypoint(), "main");
    assert_eq!(ShaderFormat::Msl.entrypoint(), "main0");
    assert_eq!(ShaderFormat::Dxil.entrypoint(), "main");
    assert_eq!(ShaderFormat::Spirv.bit(), 2);
    assert_eq!(ShaderFormat::Dxil.bit(), 8);
    assert_eq!(ShaderFormat::Msl.bit(), 16);
}

#[test]
fn suffix_checks() {
    assert!(ends_with("RawTriangle.vert", ".vert"));
    assert!(!ends_with("RawTriangle.vert", ".frag"));
    assert!(ends_with("", ""));
    assert!(!ends_with("ert", ".vert"));
    assert!(ends_with("é.frag", ".frag"));
}

#[test]
fn stage_from_file_name() {
    assert_eq!(shader_stage("RawTriangle.vert"), Some(ShaderStage::Vertex));
    assert_eq!(shader_stage("SolidColor.frag"), Some(ShaderStage::Fragment));
    assert_eq!(shader_stage("SolidColor.frag.hlsl"), None);
    assert_eq!(shader_stage("vert"), None);
    assert_eq!(shader_stage(""), None);
}

#[test]
fn paths_pair_binary_and_metadata() {
    assert_eq!(shader_binary_path("SolidColor.frag"), "./content/shaders/compiled/spv/SolidColor.frag.spv");
    assert_eq!(shader_meta_path("SolidColor.frag"), "./content/shaders/compiled/json/SolidColor.frag.json");
}

#[test]
fn load_with_uniform_buffer_metadata_keeps_counts() {
    let info = load_shader(SHADERFORMAT_SPIRV, "RawTriangle.vert", Some(1204), MetaRead::Parsed(uniform_only())).unwrap();
    assert_eq!(info.format, ShaderFormat::Spirv);
    assert_eq!(info.entrypoint, "main");
    assert_eq!(info.stage, ShaderStage::Vertex);
    assert_eq!(info.code_size, 1204);
    assert_eq!(info.num_samplers, 0);
    assert_eq!(info.num_storage_textures, 0);
    assert_eq!(info.num_storage_buffers, 0);
    assert_eq!(info.num_uniform_buffers, 1);
}

#[test]
fn load_on_metal_uses_main0() {
    let meta = ShaderMeta { samplers: 2, storage_textures: 3, storage_buffers: 4, uniform_buffers: 5 };
    let info = load_shader(SHADERFORMAT_MSL, "SolidColor.frag", Some(7), MetaRead::Parsed(meta)).unwrap();
    assert_eq!(info.format, ShaderFormat::Msl);
    assert_eq!(info.entrypoint, "main0");
    assert_eq!(info.stage, ShaderStage::Fragment);
    assert_eq!((info.num_samplers, info.num_storage_textures, info.num_storage_buffers, info.num_uniform_buffers), (2, 3, 4, 5));
}

#[test]
fn load_fails_without_supported_format() {
    let r = load_shader(0, "RawTriangle.vert", Some(1), MetaRead::Parsed(uniform_only()));
    assert_eq!(r, Err(ShaderLoadError::UnsupportedFormat));
}

#[test]
fn load_fails_without_binary() {
    let r = load_shader(SHADERFORMAT_SPIRV, "RawTriangle.vert", None, MetaRead::Parsed(uniform_only()));
    assert_eq!(r, Err(ShaderLoadError::MissingBinary));
}

#[test]
fn load_fails_without_metadata() {
    let r = load_shader(SHADERFORMAT_SPIRV, "RawTriangle.vert", Some(1), MetaRead::Missing);
    assert_eq!(r, Err(ShaderLoadError::MissingMetadata));
}

#[test]
fn load_fails_on_invalid_metadata() {
    let r = load_shader(SHADERFORMAT_SPIRV, "RawTriangle.vert", Some(1), MetaRead::Invalid("expected value".to_string()));
    assert_eq!(r, Err(ShaderLoadError::InvalidMetadata("expected value".to_string())));
}

#[test]
fn load_refuses_unrecognized_stage_suffix() {
    let r = load_shader(SHADERFORMAT_SPIRV, "Triangle.hlsl", Some(1), MetaRead::Parsed(uniform_only()));
    assert_eq!(r, Err(ShaderLoadError::UnrecognizedStage));
    let r = load_shader(SHADERFORMAT_DXIL, "Triangle.vertex", Some(1), MetaRead::Parsed(uniform_only()));
    assert_eq!(r, Err(ShaderLoadError::UnrecognizedStage));
}

#[test]
fn earlier_failure_wins() {
    let r = load_shader(0, "Triangle.hlsl", None, MetaRead::Missing);
    assert_eq!(r, Err(ShaderLoadError::UnsupportedFormat));
    let r = load_shader(SHADERFORMAT_SPIRV, "Triangle.hlsl", None, MetaRead::Missing);
    assert_eq!(r, Err(ShaderLoadError::MissingBinary));
}
