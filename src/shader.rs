//! The decisions behind loading a precompiled shader: which binary format the
//! device takes, where the binary and its metadata lie, which pipeline stage
//! the file name names, and the creation request built from all of it.

use vstd::prelude::*;

verus! {

/// Directory that holds the compiled shaders, each as a binary under `spv/`
/// and a metadata file under `json/`.
pub const COMPILED_SHADERS_DIR: &'static str = "./content/shaders/compiled";

/// Bit of a device's shader-format mask for SPIR-V (Vulkan).
pub const SHADERFORMAT_SPIRV: u32 = 2;

/// Bit of a device's shader-format mask for DXIL (Direct3D 12).
pub const SHADERFORMAT_DXIL: u32 = 8;

/// Bit of a device's shader-format mask for MSL (Metal).
pub const SHADERFORMAT_MSL: u32 = 16;

/// A binary shader format that a GPU device can take.
#[derive(Clone, Copy, Debug, PartialEq, Eq, Structural)]
pub enum ShaderFormat {
    Spirv,
    Msl,
    Dxil,
}

/// The pipeline stage a shader runs in.
#[derive(Clone, Copy, Debug, PartialEq, Eq, Structural)]
pub enum ShaderStage {
    Vertex,
    Fragment,
}

/// Resource-binding counts that a compiled shader needs, as its metadata
/// file gives them.
#[derive(Clone, Copy, Debug, PartialEq, Eq, Structural)]
pub struct ShaderMeta {
    pub samplers: u32,
    pub storage_textures: u32,
    pub storage_buffers: u32,
    pub uniform_buffers: u32,
}

/// What reading and parsing a shader's metadata file gave.
#[derive(Clone, Debug, PartialEq, Eq)]
pub enum MetaRead {
    /// The file could not be read.
    Missing,
    /// The file was read but did not parse; the parser's message.
    Invalid(String),
    /// The file parsed.
    Parsed(ShaderMeta),
}

/// Why a shader could not be loaded.
#[derive(Clone, Debug, PartialEq, Eq)]
pub enum ShaderLoadError {
    /// The device takes none of SPIR-V, MSL and DXIL.
    UnsupportedFormat,
    /// The binary could not be loaded.
    MissingBinary,
    /// The metadata file could not be read.
    MissingMetadata,
    /// The metadata file did not parse; the parser's message.
    InvalidMetadata(String),
    /// The file name ends in neither `.vert` nor `.frag`: the caller broke
    /// the naming contract, which no retry can mend.
    UnrecognizedStage,
}

/// Everything a device needs to create a shader, but the code itself.
#[derive(Clone, Copy, Debug, PartialEq, Eq)]
pub struct ShaderCreateInfo {
    pub format: ShaderFormat,
    pub entrypoint: &'static str,
    pub stage: ShaderStage,
    pub code_size: usize,
    pub num_samplers: u32,
    pub num_storage_textures: u32,
    pub num_storage_buffers: u32,
    pub num_uniform_buffers: u32,
}

/// The format chosen from a device's mask: SPIR-V if it is there, else MSL,
/// else DXIL, else none.
pub open spec fn format_choice(formats: u32) -> Option<ShaderFormat> {
    if formats & SHADERFORMAT_SPIRV != 0 {
        Some(ShaderFormat::Spirv)
    } else if formats & SHADERFORMAT_MSL != 0 {
        Some(ShaderFormat::Msl)
    } else if formats & SHADERFORMAT_DXIL != 0 {
        Some(ShaderFormat::Dxil)
    } else {
        None
    }
}

/// The entry point's name in a shader of format `f`: the Metal compiler
/// renames `main` to `main0`.
pub open spec fn entrypoint_of(f: ShaderFormat) -> Seq<char> {
    match f {
        ShaderFormat::Msl => "main0"@,
        _ => "main"@,
    }
}

/// The bit of format `f` in a device's mask.
pub open spec fn format_bit(f: ShaderFormat) -> u32 {
    match f {
        ShaderFormat::Spirv => SHADERFORMAT_SPIRV,
        ShaderFormat::Msl => SHADERFORMAT_MSL,
        ShaderFormat::Dxil => SHADERFORMAT_DXIL,
    }
}

/// Whether `s` ends in `suffix`.
pub open spec fn has_suffix(s: Seq<char>, suffix: Seq<char>) -> bool {
    suffix.len() <= s.len() && s.subrange(s.len() - suffix.len(), s.len() as int) == suffix
}

/// The stage a shader file name names: `.vert` a vertex shader, `.frag` a
/// fragment shader, anything else none.
pub open spec fn stage_of(name: Seq<char>) -> Option<ShaderStage> {
    if has_suffix(name, ".vert"@) {
        Some(ShaderStage::Vertex)
    } else if has_suffix(name, ".frag"@) {
        Some(ShaderStage::Fragment)
    } else {
        None
    }
}

/// Where the binary of the shader `name` lies.
pub open spec fn binary_path_of(name: Seq<char>) -> Seq<char> {
    COMPILED_SHADERS_DIR@ + "/spv/"@ + name + ".spv"@
}

/// Where the metadata of the shader `name` lies.
pub open spec fn meta_path_of(name: Seq<char>) -> Seq<char> {
    COMPILED_SHADERS_DIR@ + "/json/"@ + name + ".json"@
}

/// `info` asks for a shader of format `f` and stage `stage`, with `code_size`
/// bytes of code and the binding counts of `meta`.
pub open spec fn describes(
    info: ShaderCreateInfo,
    f: ShaderFormat,
    stage: ShaderStage,
    code_size: usize,
    meta: ShaderMeta,
) -> bool {
    &&& info.format == f
    &&& info.entrypoint@ == entrypoint_of(f)
    &&& info.stage == stage
    &&& info.code_size == code_size
    &&& info.num_samplers == meta.samplers
    &&& info.num_storage_textures == meta.storage_textures
    &&& info.num_storage_buffers == meta.storage_buffers
    &&& info.num_uniform_buffers == meta.uniform_buffers
}

/// Picks the binary format to load from the mask of formats a device takes.
pub fn select_shader_format(formats: u32) -> (r: Option<ShaderFormat>)
    ensures
        r == format_choice(formats),
{
    if formats & SHADERFORMAT_SPIRV != 0 {
        Some(ShaderFormat::Spirv)
    } else if formats & SHADERFORMAT_MSL != 0 {
        Some(ShaderFormat::Msl)
    } else if formats & SHADERFORMAT_DXIL != 0 {
        Some(ShaderFormat::Dxil)
    } else {
        None
    }
}

impl ShaderFormat {
    /// The name of the entry point in a shader of this format.
    pub fn entrypoint(&self) -> (r: &'static str)
        ensures
            r@ == entrypoint_of(*self),
    {
        match self {
            ShaderFormat::Msl => "main0",
            _ => "main",
        }
    }

    /// This format's bit in a device's mask.
    pub fn bit(&self) -> (r: u32)
        ensures
            r == format_bit(*self),
    {
        match self {
            ShaderFormat::Spirv => SHADERFORMAT_SPIRV,
            ShaderFormat::Msl => SHADERFORMAT_MSL,
            ShaderFormat::Dxil => SHADERFORMAT_DXIL,
        }
    }
}

/// Whether `s` ends in `suffix`.
pub fn ends_with(s: &str, suffix: &str) -> (r: bool)
    ensures
        r == has_suffix(s@, suffix@),
{
    let n = s.unicode_len();
    let m = suffix.unicode_len();
    if m > n {
        return false;
    }
    let start = n - m;
    let mut i: usize = 0;
    while i < m
        invariant
            n == s@.len(),
            m == suffix@.len(),
            start == n - m,
            0 <= i <= m,
            forall|j: int| 0 <= j < i ==> s@[start + j] == suffix@[j],
        decreases m - i,
    {
        if s.get_char(start + i) != suffix.get_char(i) {
            assert(s@.subrange(start as int, n as int)[i as int] != suffix@[i as int]);
            return false;
        }
        i = i + 1;
    }
    assert(s@.subrange(start as int, n as int) =~= suffix@);
    true
}

/// The pipeline stage that a shader's file name names.
pub fn shader_stage(file_name: &str) -> (r: Option<ShaderStage>)
    ensures
        r == stage_of(file_name@),
{
    if ends_with(file_name, ".vert") {
        Some(ShaderStage::Vertex)
    } else if ends_with(file_name, ".frag") {
        Some(ShaderStage::Fragment)
    } else {
        None
    }
}

/// Path of the compiled binary of the shader `file_name`.
pub fn shader_binary_path(file_name: &str) -> (r: String)
    ensures
        r@ == binary_path_of(file_name@),
{
    let mut r = String::from_str(COMPILED_SHADERS_DIR);
    r.append("/spv/");
    r.append(file_name);
    r.append(".spv");
    r
}

/// Path of the metadata file of the shader `file_name`.
pub fn shader_meta_path(file_name: &str) -> (r: String)
    ensures
        r@ == meta_path_of(file_name@),
{
    let mut r = String::from_str(COMPILED_SHADERS_DIR);
    r.append("/json/");
    r.append(file_name);
    r.append(".json");
    r
}

/// Builds the request to create the shader `file_name` on a device that
/// takes the formats of the mask `backend_formats`, from what loading its
/// binary gave (its size in bytes, or `None` when it could not be loaded) and
/// what reading its metadata gave.
///
/// The checks come in this order: a format the device takes, the binary, the
/// metadata file, its contents, and last the stage that the file name names.
pub fn load_shader(
    backend_formats: u32,
    file_name: &str,
    code_size: Option<usize>,
    meta: MetaRead,
) -> (r: Result<ShaderCreateInfo, ShaderLoadError>)
    ensures
        ({
            match format_choice(backend_formats) {
                None => r == Err::<ShaderCreateInfo, ShaderLoadError>(
                    ShaderLoadError::UnsupportedFormat,
                ),
                Some(f) => match code_size {
                    None => r == Err::<ShaderCreateInfo, ShaderLoadError>(
                        ShaderLoadError::MissingBinary,
                    ),
                    Some(size) => match meta {
                        MetaRead::Missing => r == Err::<ShaderCreateInfo, ShaderLoadError>(
                            ShaderLoadError::MissingMetadata,
                        ),
                        MetaRead::Invalid(msg) => r == Err::<ShaderCreateInfo, ShaderLoadError>(
                            ShaderLoadError::InvalidMetadata(msg),
                        ),
                        MetaRead::Parsed(m) => match stage_of(file_name@) {
                            None => r == Err::<ShaderCreateInfo, ShaderLoadError>(
                                ShaderLoadError::UnrecognizedStage,
                            ),
                            Some(stage) => r is Ok && describes(r->Ok_0, f, stage, size, m),
                        },
                    },
                },
            }
        }),
{
    let format = match select_shader_format(backend_formats) {
        Some(f) => f,
        None => {
            return Err(ShaderLoadError::UnsupportedFormat);
        },
    };
    let size = match code_size {
        Some(n) => n,
        None => {
            return Err(ShaderLoadError::MissingBinary);
        },
    };
    let m = match meta {
        MetaRead::Missing => {
            return Err(ShaderLoadError::MissingMetadata);
        },
        MetaRead::Invalid(msg) => {
            return Err(ShaderLoadError::InvalidMetadata(msg));
        },
        MetaRead::Parsed(m) => m,
    };
    let stage = match shader_stage(file_name) {
        Some(stage) => stage,
        None => {
            return Err(ShaderLoadError::UnrecognizedStage);
        },
    };
    Ok(
        ShaderCreateInfo {
            format,
            entrypoint: format.entrypoint(),
            stage,
            code_size: size,
            num_samplers: m.samplers,
            num_storage_textures: m.storage_textures,
            num_storage_buffers: m.storage_buffers,
            num_uniform_buffers: m.uniform_buffers,
        },
    )
}

} // verus!
