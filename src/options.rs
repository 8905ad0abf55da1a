//! Descriptors and option lists handed to the compiler's factory calls.
//!
//! Builders are consumed by value and give back the updated builder. The
//! strings an option list holds are owned by the list, so they live exactly
//! as long as the list does.

use vstd::prelude::*;
use crate::kinds::Stage;

verus! {

/// Identifier of a target profile; zero names no known profile.
#[derive(Clone, Copy, Debug, PartialEq, Eq, Structural)]
pub struct ProfileID(pub u32);

impl ProfileID {
    /// The identifier that names nothing known.
    pub fn unknown() -> (r: ProfileID)
        ensures
            r.is_unknown_spec(),
    {
        ProfileID(0)
    }

    pub open spec fn is_unknown_spec(&self) -> bool {
        self.0 == 0
    }

    /// Whether the lookup that produced this identifier found no profile.
    pub fn is_unknown(&self) -> (r: bool)
        ensures
            r == (self.0 == 0),
    {
        self.0 == 0
    }
}

/// Identifier of a capability; zero names no known capability.
#[derive(Clone, Copy, Debug, PartialEq, Eq, Structural)]
pub struct CapabilityID(pub i32);

impl CapabilityID {
    /// The identifier that names nothing known.
    pub fn unknown() -> (r: CapabilityID)
        ensures
            r.is_unknown_spec(),
    {
        CapabilityID(0)
    }

    pub open spec fn is_unknown_spec(&self) -> bool {
        self.0 == 0
    }

    /// Whether the lookup that produced this identifier found no capability.
    pub fn is_unknown(&self) -> (r: bool)
        ensures
            r == (self.0 == 0),
    {
        self.0 == 0
    }
}

impl Stage {
    /// The number the compiler's option list uses for this stage.
    pub open spec fn spec_code(self) -> i32 {
        match self {
            Stage::Unspecified => 0,
            Stage::Vertex => 1,
            Stage::Hull => 2,
            Stage::Domain => 3,
            Stage::Geometry => 4,
            Stage::Fragment => 5,
            Stage::Compute => 6,
            Stage::RayGeneration => 7,
            Stage::Intersection => 8,
            Stage::AnyHit => 9,
            Stage::ClosestHit => 10,
            Stage::Miss => 11,
            Stage::Callable => 12,
            Stage::Mesh => 13,
            Stage::Amplification => 14,
        }
    }

    pub fn code(self) -> (r: i32)
        ensures
            r == self.spec_code(),
    {
        match self {
            Stage::Unspecified => 0,
            Stage::Vertex => 1,
            Stage::Hull => 2,
            Stage::Domain => 3,
            Stage::Geometry => 4,
            Stage::Fragment => 5,
            Stage::Compute => 6,
            Stage::RayGeneration => 7,
            Stage::Intersection => 8,
            Stage::AnyHit => 9,
            Stage::ClosestHit => 10,
            Stage::Miss => 11,
            Stage::Callable => 12,
            Stage::Mesh => 13,
            Stage::Amplification => 14,
        }
    }
}

/// Language of source text.
#[derive(Clone, Copy, Debug, PartialEq, Eq, Structural)]
pub enum SourceLanguage {
    Unknown,
    Slang,
    Hlsl,
    Glsl,
    C,
    Cpp,
    Cuda,
    Spirv,
    Metal,
    Wgsl,
}

impl SourceLanguage {
    /// The number the compiler's option list uses for this value.
    pub open spec fn spec_code(self) -> i32 {
        match self {
            SourceLanguage::Unknown => 0,
            SourceLanguage::Slang => 1,
            SourceLanguage::Hlsl => 2,
            SourceLanguage::Glsl => 3,
            SourceLanguage::C => 4,
            SourceLanguage::Cpp => 5,
            SourceLanguage::Cuda => 6,
            SourceLanguage::Spirv => 7,
            SourceLanguage::Metal => 8,
            SourceLanguage::Wgsl => 9,
        }
    }

    pub fn code(self) -> (r: i32)
        ensures
            r == self.spec_code(),
    {
        match self {
            SourceLanguage::Unknown => 0,
            SourceLanguage::Slang => 1,
            SourceLanguage::Hlsl => 2,
            SourceLanguage::Glsl => 3,
            SourceLanguage::C => 4,
            SourceLanguage::Cpp => 5,
            SourceLanguage::Cuda => 6,
            SourceLanguage::Spirv => 7,
            SourceLanguage::Metal => 8,
            SourceLanguage::Wgsl => 9,
        }
    }
}

/// Format of compiled output.
#[derive(Clone, Copy, Debug, PartialEq, Eq, Structural)]
pub enum CompileTarget {
    Unknown,
    Unspecified,
    Glsl,
    GlslVulkanDeprecated,
    GlslVulkanOneDescDeprecated,
    Hlsl,
    Spirv,
    SpirvAsm,
    Dxbc,
    DxbcAsm,
    Dxil,
    DxilAsm,
    CSource,
    CppSource,
    HostExecutable,
    ShaderSharedLibrary,
    ShaderHostCallable,
    CudaSource,
    Ptx,
    CudaObjectCode,
    ObjectCode,
    HostCppSource,
    HostHostCallable,
    CppPytorchBinding,
    Metal,
    MetalLib,
    MetalLibAsm,
    HostSharedLibrary,
    Wgsl,
}

impl CompileTarget {
    /// The number the compiler's option list uses for this value.
    pub open spec fn spec_code(self) -> i32 {
        match self {
            CompileTarget::Unknown => 0,
            CompileTarget::Unspecified => 1,
            CompileTarget::Glsl => 2,
            CompileTarget::GlslVulkanDeprecated => 3,
            CompileTarget::GlslVulkanOneDescDeprecated => 4,
            CompileTarget::Hlsl => 5,
            CompileTarget::Spirv => 6,
            CompileTarget::SpirvAsm => 7,
            CompileTarget::Dxbc => 8,
            CompileTarget::DxbcAsm => 9,
            CompileTarget::Dxil => 10,
            CompileTarget::DxilAsm => 11,
            CompileTarget::CSource => 12,
            CompileTarget::CppSource => 13,
            CompileTarget::HostExecutable => 14,
            CompileTarget::ShaderSharedLibrary => 15,
            CompileTarget::ShaderHostCallable => 16,
            CompileTarget::CudaSource => 17,
            CompileTarget::Ptx => 18,
            CompileTarget::CudaObjectCode => 19,
            CompileTarget::ObjectCode => 20,
            CompileTarget::HostCppSource => 21,
            CompileTarget::HostHostCallable => 22,
            CompileTarget::CppPytorchBinding => 23,
            CompileTarget::Metal => 24,
            CompileTarget::MetalLib => 25,
            CompileTarget::MetalLibAsm => 26,
            CompileTarget::HostSharedLibrary => 27,
            CompileTarget::Wgsl => 28,
        }
    }

    pub fn code(self) -> (r: i32)
        ensures
            r == self.spec_code(),
    {
        match self {
            CompileTarget::Unknown => 0,
            CompileTarget::Unspecified => 1,
            CompileTarget::Glsl => 2,
            CompileTarget::GlslVulkanDeprecated => 3,
            CompileTarget::GlslVulkanOneDescDeprecated => 4,
            CompileTarget::Hlsl => 5,
            CompileTarget::Spirv => 6,
            CompileTarget::SpirvAsm => 7,
            CompileTarget::Dxbc => 8,
            CompileTarget::DxbcAsm => 9,
            CompileTarget::Dxil => 10,
            CompileTarget::DxilAsm => 11,
            CompileTarget::CSource => 12,
            CompileTarget::CppSource => 13,
            CompileTarget::HostExecutable => 14,
            CompileTarget::ShaderSharedLibrary => 15,
            CompileTarget::ShaderHostCallable => 16,
            CompileTarget::CudaSource => 17,
            CompileTarget::Ptx => 18,
            CompileTarget::CudaObjectCode => 19,
            CompileTarget::ObjectCode => 20,
            CompileTarget::HostCppSource => 21,
            CompileTarget::HostHostCallable => 22,
            CompileTarget::CppPytorchBinding => 23,
            CompileTarget::Metal => 24,
            CompileTarget::MetalLib => 25,
            CompileTarget::MetalLibAsm => 26,
            CompileTarget::HostSharedLibrary => 27,
            CompileTarget::Wgsl => 28,
        }
    }
}

/// Floating-point precision policy.
#[derive(Clone, Copy, Debug, PartialEq, Eq, Structural)]
pub enum FloatingPointMode {
    Default,
    Fast,
    Precise,
}

impl FloatingPointMode {
    /// The number the compiler's option list uses for this value.
    pub open spec fn spec_code(self) -> i32 {
        match self {
            FloatingPointMode::Default => 0,
            FloatingPointMode::Fast => 1,
            FloatingPointMode::Precise => 2,
        }
    }

    pub fn code(self) -> (r: i32)
        ensures
            r == self.spec_code(),
    {
        match self {
            FloatingPointMode::Default => 0,
            FloatingPointMode::Fast => 1,
            FloatingPointMode::Precise => 2,
        }
    }
}

/// Amount of debug information to emit.
#[derive(Clone, Copy, Debug, PartialEq, Eq, Structural)]
pub enum DebugInfoLevel {
    Off,
    Minimal,
    Standard,
    Maximal,
}

impl DebugInfoLevel {
    /// The number the compiler's option list uses for this value.
    pub open spec fn spec_code(self) -> i32 {
        match self {
            DebugInfoLevel::Off => 0,
            DebugInfoLevel::Minimal => 1,
            DebugInfoLevel::Standard => 2,
            DebugInfoLevel::Maximal => 3,
        }
    }

    pub fn code(self) -> (r: i32)
        ensures
            r == self.spec_code(),
    {
        match self {
            DebugInfoLevel::Off => 0,
            DebugInfoLevel::Minimal => 1,
            DebugInfoLevel::Standard => 2,
            DebugInfoLevel::Maximal => 3,
        }
    }
}

/// How line directives are emitted.
#[derive(Clone, Copy, Debug, PartialEq, Eq, Structural)]
pub enum LineDirectiveMode {
    Default,
    Off,
    Standard,
    Glsl,
    SourceMap,
}

impl LineDirectiveMode {
    /// The number the compiler's option list uses for this value.
    pub open spec fn spec_code(self) -> i32 {
        match self {
            LineDirectiveMode::Default => 0,
            LineDirectiveMode::Off => 1,
            LineDirectiveMode::Standard => 2,
            LineDirectiveMode::Glsl => 3,
            LineDirectiveMode::SourceMap => 4,
        }
    }

    pub fn code(self) -> (r: i32)
        ensures
            r == self.spec_code(),
    {
        match self {
            LineDirectiveMode::Default => 0,
            LineDirectiveMode::Off => 1,
            LineDirectiveMode::Standard => 2,
            LineDirectiveMode::Glsl => 3,
            LineDirectiveMode::SourceMap => 4,
        }
    }
}

/// Optimization effort.
#[derive(Clone, Copy, Debug, PartialEq, Eq, Structural)]
pub enum OptimizationLevel {
    Off,
    Default,
    High,
    Maximal,
}

impl OptimizationLevel {
    /// The number the compiler's option list uses for this value.
    pub open spec fn spec_code(self) -> i32 {
        match self {
            OptimizationLevel::Off => 0,
            OptimizationLevel::Default => 1,
            OptimizationLevel::High => 2,
            OptimizationLevel::Maximal => 3,
        }
    }

    pub fn code(self) -> (r: i32)
        ensures
            r == self.spec_code(),
    {
        match self {
            OptimizationLevel::Off => 0,
            OptimizationLevel::Default => 1,
            OptimizationLevel::High => 2,
            OptimizationLevel::Maximal => 3,
        }
    }
}

/// Name of one compiler option.
#[derive(Clone, Copy, Debug, PartialEq, Eq, Structural)]
pub enum CompilerOptionName {
    MacroDefine,
    Include,
    Language,
    MatrixLayoutColumn,
    MatrixLayoutRow,
    Profile,
    Stage,
    Target,
    WarningsAsErrors,
    DisableWarnings,
    EnableWarning,
    DisableWarning,
    ReportDownstreamTime,
    ReportPerfBenchmark,
    SkipSPIRVValidation,
    Capability,
    DefaultImageFormatUnknown,
    DisableDynamicDispatch,
    DisableSpecialization,
    FloatingPointMode,
    DebugInformation,
    LineDirectiveMode,
    Optimization,
    Obfuscate,
    VulkanUseEntryPointName,
    GLSLForceScalarLayout,
    EmitSpirvDirectly,
    NoCodeGen,
    NoMangle,
    ValidateUniformity,
}

/// Value of one compiler option: two integers, or one or two strings.
pub enum CompilerOptionValue {
    Int(i32, i32),
    Str(String, Option<String>),
}

/// One entry of an option list.
pub struct CompilerOptionEntry {
    pub name: CompilerOptionName,
    pub value: CompilerOptionValue,
}

/// What an option entry says, with its strings as text.
pub enum OptionSpec {
    Int { name: CompilerOptionName, i0: i32, i1: i32 },
    Str { name: CompilerOptionName, s0: Seq<char>, s1: Option<Seq<char>> },
}

/// An option with one integer value.
pub open spec fn int_option(name: CompilerOptionName, i0: i32) -> OptionSpec {
    OptionSpec::Int { name, i0, i1: 0 }
}

/// An option with one or two string values.
pub open spec fn string_option(name: CompilerOptionName, s0: Seq<char>, s1: Option<Seq<char>>) -> OptionSpec {
    OptionSpec::Str { name, s0, s1 }
}

/// The integer a flag option carries.
pub open spec fn flag(b: bool) -> i32 {
    if b {
        1
    } else {
        0
    }
}

pub open spec fn entry_spec(e: CompilerOptionEntry) -> OptionSpec {
    match e.value {
        CompilerOptionValue::Int(i0, i1) => OptionSpec::Int { name: e.name, i0, i1 },
        CompilerOptionValue::Str(s0, s1) => OptionSpec::Str {
            name: e.name,
            s0: s0@,
            s1: match s1 {
                Some(s) => Some(s@),
                None => None,
            },
        },
    }
}

/// An ordered list of compiler options.
pub struct CompilerOptions {
    options: Vec<CompilerOptionEntry>,
}

impl View for CompilerOptions {
    type V = Seq<OptionSpec>;

    closed spec fn view(&self) -> Seq<OptionSpec> {
        self.options@.map_values(|e: CompilerOptionEntry| entry_spec(e))
    }
}

impl Default for CompilerOptions {
    fn default() -> (r: Self)
        ensures
            r@ == Seq::<OptionSpec>::empty(),
    {
        let r = CompilerOptions { options: Vec::new() };
        assert(r@ =~= Seq::<OptionSpec>::empty());
        r
    }
}

impl CompilerOptions {
    pub fn len(&self) -> (r: usize)
        ensures
            r == self@.len(),
    {
        self.options.len()
    }

    /// The entries of the list, in the order they were added.
    pub fn entries(&self) -> (r: &[CompilerOptionEntry])
        ensures
            r@.map_values(|e: CompilerOptionEntry| entry_spec(e)) == self@,
    {
        self.options.as_slice()
    }

    fn push(self, e: CompilerOptionEntry) -> (r: Self)
        ensures
            r@ == self@.push(entry_spec(e)),
    {
        let ghost es = e;
        let mut options = self.options;
        options.push(e);
        let r = CompilerOptions { options };
        assert(r@ =~= self@.push(entry_spec(es)));
        r
    }

    fn push_ints(self, name: CompilerOptionName, i0: i32, i1: i32) -> (r: Self)
        ensures
            r@ == self@.push(OptionSpec::Int { name, i0, i1 }),
    {
        self.push(CompilerOptionEntry { name, value: CompilerOptionValue::Int(i0, i1) })
    }

    fn push_str1(self, name: CompilerOptionName, s0: &str) -> (r: Self)
        ensures
            r@ == self@.push(OptionSpec::Str { name, s0: s0@, s1: None }),
    {
        let value = CompilerOptionValue::Str(s0.to_owned(), None);
        self.push(CompilerOptionEntry { name, value })
    }

    fn push_str2(self, name: CompilerOptionName, s0: &str, s1: &str) -> (r: Self)
        ensures
            r@ == self@.push(OptionSpec::Str { name, s0: s0@, s1: Some(s1@) }),
    {
        self.push(CompilerOptionEntry {
            name,
            value: CompilerOptionValue::Str(s0.to_owned(), Some(s1.to_owned())),
        })
    }

    pub fn macro_define(self, key: &str, value: &str) -> (r: Self)
        requires
            !key@.contains('\0'),
            !value@.contains('\0'),
        ensures
            r@ == self@.push(string_option(CompilerOptionName::MacroDefine, key@, Some(value@))),
    {
        self.push_str2(CompilerOptionName::MacroDefine, key, value)
    }

    pub fn include_path(self, path: &str) -> (r: Self)
        requires
            !path@.contains('\0'),
        ensures
            r@ == self@.push(string_option(CompilerOptionName::Include, path@, None)),
    {
        self.push_str1(CompilerOptionName::Include, path)
    }

    pub fn language(self, language: SourceLanguage) -> (r: Self)
        ensures
            r@ == self@.push(int_option(CompilerOptionName::Language, language.spec_code())),
    {
        self.push_ints(CompilerOptionName::Language, language.code(), 0)
    }

    pub fn matrix_layout_column(self, enable: bool) -> (r: Self)
        ensures
            r@ == self@.push(int_option(CompilerOptionName::MatrixLayoutColumn, flag(enable))),
    {
        self.push_ints(CompilerOptionName::MatrixLayoutColumn, if enable { 1 } else { 0 }, 0)
    }

    pub fn matrix_layout_row(self, enable: bool) -> (r: Self)
        ensures
            r@ == self@.push(int_option(CompilerOptionName::MatrixLayoutRow, flag(enable))),
    {
        self.push_ints(CompilerOptionName::MatrixLayoutRow, if enable { 1 } else { 0 }, 0)
    }

    pub fn profile(self, profile: ProfileID) -> (r: Self)
        ensures
            r@ == self@.push(int_option(CompilerOptionName::Profile, profile.0 as i32)),
    {
        self.push_ints(CompilerOptionName::Profile, profile.0 as i32, 0)
    }

    pub fn stage(self, stage: Stage) -> (r: Self)
        ensures
            r@ == self@.push(int_option(CompilerOptionName::Stage, stage.spec_code())),
    {
        self.push_ints(CompilerOptionName::Stage, stage.code(), 0)
    }

    pub fn target(self, target: CompileTarget) -> (r: Self)
        ensures
            r@ == self@.push(int_option(CompilerOptionName::Target, target.spec_code())),
    {
        self.push_ints(CompilerOptionName::Target, target.code(), 0)
    }

    pub fn warnings_as_errors(self, warning_codes: &str) -> (r: Self)
        requires
            !warning_codes@.contains('\0'),
        ensures
            r@ == self@.push(string_option(CompilerOptionName::WarningsAsErrors, warning_codes@, None)),
    {
        self.push_str1(CompilerOptionName::WarningsAsErrors, warning_codes)
    }

    pub fn disable_warnings(self, warning_codes: &str) -> (r: Self)
        requires
            !warning_codes@.contains('\0'),
        ensures
            r@ == self@.push(string_option(CompilerOptionName::DisableWarnings, warning_codes@, None)),
    {
        self.push_str1(CompilerOptionName::DisableWarnings, warning_codes)
    }

    pub fn enable_warning(self, warning_code: &str) -> (r: Self)
        requires
            !warning_code@.contains('\0'),
        ensures
            r@ == self@.push(string_option(CompilerOptionName::EnableWarning, warning_code@, None)),
    {
        self.push_str1(CompilerOptionName::EnableWarning, warning_code)
    }

    pub fn disable_warning(self, warning_code: &str) -> (r: Self)
        requires
            !warning_code@.contains('\0'),
        ensures
            r@ == self@.push(string_option(CompilerOptionName::DisableWarning, warning_code@, None)),
    {
        self.push_str1(CompilerOptionName::DisableWarning, warning_code)
    }

    pub fn report_downstream_time(self, enable: bool) -> (r: Self)
        ensures
            r@ == self@.push(int_option(CompilerOptionName::ReportDownstreamTime, flag(enable))),
    {
        self.push_ints(CompilerOptionName::ReportDownstreamTime, if enable { 1 } else { 0 }, 0)
    }

    pub fn report_perf_benchmark(self, enable: bool) -> (r: Self)
        ensures
            r@ == self@.push(int_option(CompilerOptionName::ReportPerfBenchmark, flag(enable))),
    {
        self.push_ints(CompilerOptionName::ReportPerfBenchmark, if enable { 1 } else { 0 }, 0)
    }

    pub fn skip_spirv_validation(self, enable: bool) -> (r: Self)
        ensures
            r@ == self@.push(int_option(CompilerOptionName::SkipSPIRVValidation, flag(enable))),
    {
        self.push_ints(CompilerOptionName::SkipSPIRVValidation, if enable { 1 } else { 0 }, 0)
    }

    pub fn capability(self, capability: CapabilityID) -> (r: Self)
        ensures
            r@ == self@.push(int_option(CompilerOptionName::Capability, capability.0 as i32)),
    {
        self.push_ints(CompilerOptionName::Capability, capability.0 as i32, 0)
    }

    pub fn default_image_format_unknown(self, enable: bool) -> (r: Self)
        ensures
            r@ == self@.push(int_option(CompilerOptionName::DefaultImageFormatUnknown, flag(enable))),
    {
        self.push_ints(CompilerOptionName::DefaultImageFormatUnknown, if enable { 1 } else { 0 }, 0)
    }

    pub fn disable_dynamic_dispatch(self, enable: bool) -> (r: Self)
        ensures
            r@ == self@.push(int_option(CompilerOptionName::DisableDynamicDispatch, flag(enable))),
    {
        self.push_ints(CompilerOptionName::DisableDynamicDispatch, if enable { 1 } else { 0 }, 0)
    }

    pub fn disable_specialization(self, enable: bool) -> (r: Self)
        ensures
            r@ == self@.push(int_option(CompilerOptionName::DisableSpecialization, flag(enable))),
    {
        self.push_ints(CompilerOptionName::DisableSpecialization, if enable { 1 } else { 0 }, 0)
    }

    pub fn floating_point_mode(self, mode: FloatingPointMode) -> (r: Self)
        ensures
            r@ == self@.push(int_option(CompilerOptionName::FloatingPointMode, mode.spec_code())),
    {
        self.push_ints(CompilerOptionName::FloatingPointMode, mode.code(), 0)
    }

    pub fn debug_information(self, level: DebugInfoLevel) -> (r: Self)
        ensures
            r@ == self@.push(int_option(CompilerOptionName::DebugInformation, level.spec_code())),
    {
        self.push_ints(CompilerOptionName::DebugInformation, level.code(), 0)
    }

    pub fn line_directive_mode(self, mode: LineDirectiveMode) -> (r: Self)
        ensures
            r@ == self@.push(int_option(CompilerOptionName::LineDirectiveMode, mode.spec_code())),
    {
        self.push_ints(CompilerOptionName::LineDirectiveMode, mode.code(), 0)
    }

    pub fn optimization(self, level: OptimizationLevel) -> (r: Self)
        ensures
            r@ == self@.push(int_option(CompilerOptionName::Optimization, level.spec_code())),
    {
        self.push_ints(CompilerOptionName::Optimization, level.code(), 0)
    }

    pub fn obfuscate(self, enable: bool) -> (r: Self)
        ensures
            r@ == self@.push(int_option(CompilerOptionName::Obfuscate, flag(enable))),
    {
        self.push_ints(CompilerOptionName::Obfuscate, if enable { 1 } else { 0 }, 0)
    }

    pub fn vulkan_use_entry_point_name(self, enable: bool) -> (r: Self)
        ensures
            r@ == self@.push(int_option(CompilerOptionName::VulkanUseEntryPointName, flag(enable))),
    {
        self.push_ints(CompilerOptionName::VulkanUseEntryPointName, if enable { 1 } else { 0 }, 0)
    }

    pub fn glsl_force_scalar_layout(self, enable: bool) -> (r: Self)
        ensures
            r@ == self@.push(int_option(CompilerOptionName::GLSLForceScalarLayout, flag(enable))),
    {
        self.push_ints(CompilerOptionName::GLSLForceScalarLayout, if enable { 1 } else { 0 }, 0)
    }

    pub fn emit_spirv_directly(self, enable: bool) -> (r: Self)
        ensures
            r@ == self@.push(int_option(CompilerOptionName::EmitSpirvDirectly, flag(enable))),
    {
        self.push_ints(CompilerOptionName::EmitSpirvDirectly, if enable { 1 } else { 0 }, 0)
    }

    pub fn no_code_gen(self, enable: bool) -> (r: Self)
        ensures
            r@ == self@.push(int_option(CompilerOptionName::NoCodeGen, flag(enable))),
    {
        self.push_ints(CompilerOptionName::NoCodeGen, if enable { 1 } else { 0 }, 0)
    }

    pub fn no_mangle(self, enable: bool) -> (r: Self)
        ensures
            r@ == self@.push(int_option(CompilerOptionName::NoMangle, flag(enable))),
    {
        self.push_ints(CompilerOptionName::NoMangle, if enable { 1 } else { 0 }, 0)
    }

    pub fn validate_uniformity(self, enable: bool) -> (r: Self)
        ensures
            r@ == self@.push(int_option(CompilerOptionName::ValidateUniformity, flag(enable))),
    {
        self.push_ints(CompilerOptionName::ValidateUniformity, if enable { 1 } else { 0 }, 0)
    }
}

/// Description of one compilation target.
pub struct TargetDesc<'a> {
    pub format: CompileTarget,
    pub profile: ProfileID,
    pub options: Option<&'a CompilerOptions>,
}

impl Default for TargetDesc<'_> {
    fn default() -> (r: Self)
        ensures
            r.format == CompileTarget::Unknown,
            r.profile == ProfileID(0),
            r.options is None,
    {
        TargetDesc { format: CompileTarget::Unknown, profile: ProfileID(0), options: None }
    }
}

impl<'a> TargetDesc<'a> {
    pub fn format(self, format: CompileTarget) -> (r: Self)
        ensures
            r.format == format,
            r.profile == self.profile,
            r.options == self.options,
    {
        TargetDesc { format, ..self }
    }

    pub fn profile(self, profile: ProfileID) -> (r: Self)
        ensures
            r.format == self.format,
            r.profile == profile,
            r.options == self.options,
    {
        TargetDesc { profile, ..self }
    }

    pub fn options(self, options: &'a CompilerOptions) -> (r: Self)
        ensures
            r.format == self.format,
            r.profile == self.profile,
            r.options == Some(options),
    {
        TargetDesc { options: Some(options), ..self }
    }
}

/// Description of a session: its targets, search paths and options.
pub struct SessionDesc<'a> {
    pub targets: &'a [TargetDesc<'a>],
    pub search_paths: &'a [&'a str],
    pub options: Option<&'a CompilerOptions>,
}

impl Default for SessionDesc<'_> {
    fn default() -> (r: Self)
        ensures
            r.targets@.len() == 0,
            r.search_paths@.len() == 0,
            r.options is None,
    {
        SessionDesc { targets: &[], search_paths: &[], options: None }
    }
}

impl<'a> SessionDesc<'a> {
    pub fn targets(self, targets: &'a [TargetDesc<'a>]) -> (r: Self)
        ensures
            r.targets == targets,
            r.search_paths == self.search_paths,
            r.options == self.options,
    {
        SessionDesc { targets, ..self }
    }

    pub fn search_paths(self, paths: &'a [&'a str]) -> (r: Self)
        ensures
            r.targets == self.targets,
            r.search_paths == paths,
            r.options == self.options,
    {
        SessionDesc { search_paths: paths, ..self }
    }

    pub fn options(self, options: &'a CompilerOptions) -> (r: Self)
        ensures
            r.targets == self.targets,
            r.search_paths == self.search_paths,
            r.options == Some(options),
    {
        SessionDesc { options: Some(options), ..self }
    }
}

} // verus!
