//! Backend-agnostic shader compilation requests and artifacts.

use vstd::prelude::*;
use crate::bytes::{spec_le_u32, le_u32};

verus! {

/// Default directory searched for shader modules.
pub const DEFAULT_SEARCH_PATH: &'static str = "shaders";

/// Default profile for generated SPIR-V.
pub const DEFAULT_SPIRV_PROFILE: &'static str = "spirv_1_5";

/// What a set of compiler options holds.
pub struct CompilerOptionsModel {
    pub search_paths: Seq<Seq<char>>,
    pub assembly_output_dir: Option<Seq<char>>,
    pub spirv_profile: Seq<char>,
}

/// Shader compiler options shared by renderer backends. Paths are kept as
/// strings.
#[derive(Clone, Debug)]
pub struct ShaderCompilerOptions {
    search_paths: Vec<String>,
    assembly_output_dir: Option<String>,
    spirv_profile: String,
}

/// The views of a sequence of strings.
pub open spec fn strings_view(strings: Seq<String>) -> Seq<Seq<char>> {
    strings.map_values(|s: String| s@)
}

impl View for ShaderCompilerOptions {
    type V = CompilerOptionsModel;

    closed spec fn view(&self) -> CompilerOptionsModel {
        CompilerOptionsModel {
            search_paths: strings_view(self.search_paths@),
            assembly_output_dir: match self.assembly_output_dir {
                Some(d) => Some(d@),
                None => None,
            },
            spirv_profile: self.spirv_profile@,
        }
    }
}

impl Default for ShaderCompilerOptions {
    /// Search `shaders`, write assembly to `shaders`, and target
    /// `spirv_1_5`.
    fn default() -> (options: Self)
        ensures
            options@.search_paths == seq![DEFAULT_SEARCH_PATH@],
            options@.assembly_output_dir == Some(DEFAULT_SEARCH_PATH@),
            options@.spirv_profile == DEFAULT_SPIRV_PROFILE@,
    {
        let search_paths = vec![String::from_str(DEFAULT_SEARCH_PATH)];
        let options = ShaderCompilerOptions {
            search_paths,
            assembly_output_dir: Some(String::from_str(DEFAULT_SEARCH_PATH)),
            spirv_profile: String::from_str(DEFAULT_SPIRV_PROFILE),
        };
        assert(strings_view(options.search_paths@) =~= seq![DEFAULT_SEARCH_PATH@]);
        options
    }
}

impl ShaderCompilerOptions {
    /// Adds a search path used to resolve shader modules and includes.
    pub fn with_search_path(self, path: &str) -> (options: Self)
        ensures
            options@.search_paths == self@.search_paths.push(path@),
            options@.assembly_output_dir == self@.assembly_output_dir,
            options@.spirv_profile == self@.spirv_profile,
    {
        let mut options = self;
        let ghost before = options.search_paths@;
        options.search_paths.push(String::from_str(path));
        assert(strings_view(options.search_paths@) =~= strings_view(before).push(path@));
        options
    }

    /// Replaces the search paths used to resolve shader modules and includes.
    pub fn with_search_paths(self, paths: Vec<String>) -> (options: Self)
        ensures
            options@.search_paths == strings_view(paths@),
            options@.assembly_output_dir == self@.assembly_output_dir,
            options@.spirv_profile == self@.spirv_profile,
    {
        let mut options = self;
        options.search_paths = paths;
        options
    }

    /// Sets where generated SPIR-V assembly is written.
    pub fn with_assembly_output_dir(self, path: &str) -> (options: Self)
        ensures
            options@.search_paths == self@.search_paths,
            options@.assembly_output_dir == Some(path@),
            options@.spirv_profile == self@.spirv_profile,
    {
        let mut options = self;
        options.assembly_output_dir = Some(String::from_str(path));
        options
    }

    /// Disables writing generated SPIR-V assembly to disk.
    pub fn without_assembly_output(self) -> (options: Self)
        ensures
            options@.search_paths == self@.search_paths,
            options@.assembly_output_dir.is_none(),
            options@.spirv_profile == self@.spirv_profile,
    {
        let mut options = self;
        options.assembly_output_dir = None;
        options
    }

    /// Sets the Slang profile used for generated SPIR-V targets.
    pub fn with_spirv_profile(self, profile: &str) -> (options: Self)
        ensures
            options@.search_paths == self@.search_paths,
            options@.assembly_output_dir == self@.assembly_output_dir,
            options@.spirv_profile == profile@,
    {
        let mut options = self;
        options.spirv_profile = String::from_str(profile);
        options
    }

    /// Returns the search paths.
    pub fn search_paths(&self) -> (paths: &[String])
        ensures
            strings_view(paths@) == self@.search_paths,
    {
        self.search_paths.as_slice()
    }

    /// Returns where generated assembly is written, if anywhere.
    pub fn assembly_output_dir(&self) -> (dir: Option<&str>)
        ensures
            match dir {
                Some(d) => self@.assembly_output_dir == Some(d@),
                None => self@.assembly_output_dir.is_none(),
            },
    {
        match &self.assembly_output_dir {
            Some(d) => Some(d.as_str()),
            None => None,
        }
    }

    /// Returns the SPIR-V profile name.
    pub fn spirv_profile(&self) -> (profile: &str)
        ensures
            profile@ == self@.spirv_profile,
    {
        self.spirv_profile.as_str()
    }
}

/// Backend-neutral shader stage.
#[derive(Clone, Copy, Debug, PartialEq, Eq, Hash, Structural)]
pub enum ShaderStage {
    /// Vertex shader stage.
    Vertex,
    /// Fragment/pixel shader stage.
    Fragment,
    /// Compute shader stage.
    Compute,
    /// Geometry shader stage.
    Geometry,
    /// Tessellation control/hull shader stage.
    TessellationControl,
    /// Tessellation evaluation/domain shader stage.
    TessellationEvaluation,
}

/// The Vulkan shader stage bit of a stage.
pub open spec fn spec_vulkan_stage(stage: ShaderStage) -> u32 {
    match stage {
        ShaderStage::Vertex => 0x1,
        ShaderStage::TessellationControl => 0x2,
        ShaderStage::TessellationEvaluation => 0x4,
        ShaderStage::Geometry => 0x8,
        ShaderStage::Fragment => 0x10,
        ShaderStage::Compute => 0x20,
    }
}

/// Returns the Vulkan shader stage bit of a stage.
pub fn vulkan_stage(stage: ShaderStage) -> (bit: u32)
    ensures
        bit == spec_vulkan_stage(stage),
{
    match stage {
        ShaderStage::Vertex => 0x1,
        ShaderStage::TessellationControl => 0x2,
        ShaderStage::TessellationEvaluation => 0x4,
        ShaderStage::Geometry => 0x8,
        ShaderStage::Fragment => 0x10,
        ShaderStage::Compute => 0x20,
    }
}

/// Shader entrypoint requested from a module.
#[derive(Clone, Debug, PartialEq, Eq)]
pub struct ShaderEntrypoint {
    name: String,
    stage: ShaderStage,
}

impl ShaderEntrypoint {
    pub closed spec fn spec_name(&self) -> Seq<char> {
        self.name@
    }

    pub closed spec fn spec_stage(&self) -> ShaderStage {
        self.stage
    }

    /// Creates an entrypoint description for a shader module.
    pub fn new(name: &str, stage: ShaderStage) -> (entrypoint: Self)
        ensures
            entrypoint.spec_name() == name@,
            entrypoint.spec_stage() == stage,
    {
        ShaderEntrypoint { name: String::from_str(name), stage }
    }

    /// Returns the entrypoint function name.
    pub fn name(&self) -> (name: &str)
        ensures
            name@ == self.spec_name(),
    {
        self.name.as_str()
    }

    /// Returns the backend-neutral shader stage.
    pub fn stage(&self) -> (stage: ShaderStage)
        ensures
            stage == self.spec_stage(),
    {
        self.stage
    }
}

/// Compiled shader entrypoint metadata.
#[derive(Clone, Debug, PartialEq, Eq)]
pub struct CompiledEntrypoint {
    name: String,
    stage: ShaderStage,
}

impl CompiledEntrypoint {
    pub closed spec fn spec_name(&self) -> Seq<char> {
        self.name@
    }

    pub closed spec fn spec_stage(&self) -> ShaderStage {
        self.stage
    }

    /// Returns the entrypoint function name.
    pub fn name(&self) -> (name: &str)
        ensures
            name@ == self.spec_name(),
    {
        self.name.as_str()
    }

    /// Returns the backend-neutral shader stage.
    pub fn stage(&self) -> (stage: ShaderStage)
        ensures
            stage == self.spec_stage(),
    {
        self.stage
    }
}

/// Errors returned by shader compilation.
#[derive(Clone, Debug, PartialEq, Eq)]
pub enum ShaderCompileError {
    /// Slang global session creation failed.
    GlobalSessionCreation,
    /// Slang compiler session creation failed.
    SessionCreation,
    /// A search path contained an interior NUL byte.
    InvalidSearchPath { path: String },
    /// Shader module name contained an interior NUL byte.
    InvalidModuleName,
    /// Shader entrypoint name contained an interior NUL byte.
    InvalidEntrypointName { entrypoint: String },
    /// Shader build request did not contain any entrypoints.
    NoEntrypoints { module: String },
    /// Slang module compilation failed.
    ModuleCompilationFailed { module: String, diagnostic: String },
    /// Slang entrypoint lookup failed.
    InaccessibleEntrypoint { module: String, entrypoint: String },
    /// Slang component composition failed.
    CompositionFailure { module: String, diagnostic: String },
    /// Slang program linking failed.
    LinkFailure { module: String, diagnostic: String },
    /// Slang target code generation failed.
    TargetCodeGenerationFailure { module: String, diagnostic: String },
    /// Failed to write generated SPIR-V assembly for debugging.
    AssemblyWriteFailure { path: String, reason: String },
    /// Slang returned SPIR-V bytecode whose length is not a multiple of four.
    InvalidSpirvBytecode { module: String, len: usize },
}

/// Whether `s` holds a NUL character, which a C string cannot.
pub open spec fn spec_has_nul(s: Seq<char>) -> bool {
    exists|i: int| 0 <= i < s.len() && s[i] == '\0'
}

/// Returns whether `s` holds a NUL character.
pub fn has_nul(s: &str) -> (found: bool)
    ensures
        found == spec_has_nul(s@),
{
    let len = s.unicode_len();
    let mut i: usize = 0;
    while i < len
        invariant
            len == s@.len(),
            0 <= i <= len,
            forall|j: int| 0 <= j < i ==> s@[j] != '\0',
        decreases len - i,
    {
        if s.get_char(i) == '\0' {
            return true;
        }
        i = i + 1;
    }
    false
}

/// Checks that a search path can be handed to the compiler as a C string.
pub fn check_search_path(path: &str) -> (checked: Result<(), ShaderCompileError>)
    ensures
        match checked {
            Ok(()) => !spec_has_nul(path@),
            Err(ShaderCompileError::InvalidSearchPath { path: p }) => spec_has_nul(path@) && p@ == path@,
            Err(_) => false,
        },
{
    if has_nul(path) {
        Err(ShaderCompileError::InvalidSearchPath { path: String::from_str(path) })
    } else {
        Ok(())
    }
}

/// Checks a compile request before the compiler is asked for anything: the
/// module name must be a C string, then there must be an entrypoint.
pub fn check_compile_request(module: &str, entrypoint_count: usize) -> (checked: Result<
    (),
    ShaderCompileError,
>)
    ensures
        match checked {
            Ok(()) => !spec_has_nul(module@) && entrypoint_count > 0,
            Err(ShaderCompileError::InvalidModuleName) => spec_has_nul(module@),
            Err(ShaderCompileError::NoEntrypoints { module: m }) => !spec_has_nul(module@)
                && entrypoint_count == 0 && m@ == module@,
            Err(_) => false,
        },
{
    if has_nul(module) {
        return Err(ShaderCompileError::InvalidModuleName);
    }
    if entrypoint_count == 0 {
        return Err(ShaderCompileError::NoEntrypoints { module: String::from_str(module) });
    }
    Ok(())
}

/// Checks that an entrypoint name can be handed to the compiler, and gives
/// the metadata recorded for it.
pub fn check_entrypoint(entrypoint: &ShaderEntrypoint) -> (checked: Result<
    CompiledEntrypoint,
    ShaderCompileError,
>)
    ensures
        match checked {
            Ok(c) => !spec_has_nul(entrypoint.spec_name()) && c.spec_name()
                == entrypoint.spec_name() && c.spec_stage() == entrypoint.spec_stage(),
            Err(ShaderCompileError::InvalidEntrypointName { entrypoint: e }) => spec_has_nul(
                entrypoint.spec_name(),
            ) && e@ == entrypoint.spec_name(),
            Err(_) => false,
        },
{
    if has_nul(entrypoint.name.as_str()) {
        return Err(
            ShaderCompileError::InvalidEntrypointName { entrypoint: entrypoint.name.clone() },
        );
    }
    Ok(CompiledEntrypoint { name: entrypoint.name.clone(), stage: entrypoint.stage })
}

/// The path the assembly of a module is written to: `<dir>/<module>.slang.asm`.
pub open spec fn spec_assembly_output_path(dir: Seq<char>, module: Seq<char>) -> Seq<char> {
    dir + "/"@ + module + ".slang.asm"@
}

/// Returns the path the generated assembly of a module is written to.
pub fn assembly_output_path(dir: &str, module: &str) -> (path: String)
    ensures
        path@ == spec_assembly_output_path(dir@, module@),
{
    let mut path = String::from_str(dir);
    path.append("/");
    path.append(module);
    path.append(".slang.asm");
    path
}

/// The words of SPIR-V bytecode, each read little-endian.
pub open spec fn spec_spirv_words(bytes: Seq<u8>) -> Seq<u32> {
    Seq::new(bytes.len() / 4, |i: int| spec_le_u32(bytes, 4 * i))
}

/// Converts SPIR-V bytecode into words, rejecting a length that is not a
/// multiple of four.
pub fn spirv_words(module: &str, bytes: &[u8]) -> (words: Result<Vec<u32>, ShaderCompileError>)
    ensures
        match words {
            Ok(w) => bytes@.len() % 4 == 0 && w@ == spec_spirv_words(bytes@),
            Err(ShaderCompileError::InvalidSpirvBytecode { module: m, len }) => bytes@.len() % 4
                != 0 && m@ == module@ && len == bytes@.len(),
            Err(_) => false,
        },
{
    if bytes.len() % 4 != 0 {
        return Err(
            ShaderCompileError::InvalidSpirvBytecode { module: String::from_str(module), len: bytes.len() },
        );
    }
    let count = bytes.len() / 4;
    let mut words: Vec<u32> = Vec::with_capacity(count);
    let mut i: usize = 0;
    while i < count
        invariant
            count == bytes@.len() / 4,
            bytes@.len() % 4 == 0,
            0 <= i <= count,
            words@.len() == i,
            forall|j: int| 0 <= j < i ==> #[trigger] words@[j] == spec_le_u32(bytes@, 4 * j),
        decreases count - i,
    {
        let len = bytes.len();
        assert(4 * i + 4 <= len) by (nonlinear_arith)
            requires
                i < count,
                count == len / 4,
        ;
        words.push(le_u32(bytes, 4 * i));
        i = i + 1;
    }
    assert(words@ =~= spec_spirv_words(bytes@));
    Ok(words)
}

/// What a compiled shader holds.
pub struct CompiledShaderModel {
    pub module: Seq<char>,
    pub spirv_words: Seq<u32>,
    pub spirv_assembly: Seq<u8>,
    pub entrypoints: Seq<CompiledEntrypoint>,
}

/// Backend-neutral compiled shader artifact.
#[derive(Clone, Debug, PartialEq, Eq)]
pub struct CompiledShader {
    module: String,
    spirv_words: Vec<u32>,
    spirv_assembly: Vec<u8>,
    entrypoints: Vec<CompiledEntrypoint>,
}

impl View for CompiledShader {
    type V = CompiledShaderModel;

    closed spec fn view(&self) -> CompiledShaderModel {
        CompiledShaderModel {
            module: self.module@,
            spirv_words: self.spirv_words@,
            spirv_assembly: self.spirv_assembly@,
            entrypoints: self.entrypoints@,
        }
    }
}

impl CompiledShader {
    /// Assembles the artifact from the compiler's output: the SPIR-V bytes
    /// become words, or the length error of [`spirv_words`].
    pub fn from_output(
        module: &str,
        spirv: &[u8],
        spirv_assembly: Vec<u8>,
        entrypoints: Vec<CompiledEntrypoint>,
    ) -> (shader: Result<Self, ShaderCompileError>)
        ensures
            match shader {
                Ok(s) => {
                    &&& spirv@.len() % 4 == 0
                    &&& s@.module == module@
                    &&& s@.spirv_words == spec_spirv_words(spirv@)
                    &&& s@.spirv_assembly == spirv_assembly@
                    &&& s@.entrypoints == entrypoints@
                },
                Err(ShaderCompileError::InvalidSpirvBytecode { module: m, len }) => spirv@.len() % 4
                    != 0 && m@ == module@ && len == spirv@.len(),
                Err(_) => false,
            },
    {
        let spirv_words = match spirv_words(module, spirv) {
            Ok(w) => w,
            Err(e) => return Err(e),
        };
        Ok(CompiledShader { module: String::from_str(module), spirv_words, spirv_assembly, entrypoints })
    }

    /// Returns the Slang module name.
    pub fn module(&self) -> (module: &str)
        ensures
            module@ == self@.module,
    {
        self.module.as_str()
    }

    /// Returns generated SPIR-V words.
    pub fn spirv_words(&self) -> (words: &[u32])
        ensures
            words@ == self@.spirv_words,
    {
        self.spirv_words.as_slice()
    }

    /// Returns generated SPIR-V assembly bytes.
    pub fn spirv_assembly(&self) -> (assembly: &[u8])
        ensures
            assembly@ == self@.spirv_assembly,
    {
        self.spirv_assembly.as_slice()
    }

    /// Returns compiled entrypoint metadata.
    pub fn entrypoints(&self) -> (entrypoints: &[CompiledEntrypoint])
        ensures
            entrypoints@ == self@.entrypoints,
    {
        self.entrypoints.as_slice()
    }
}

} // verus!
