//! Tag enums that the reflection records and the option builders carry.

use vstd::prelude::*;

verus! {

/// Kind of a declaration node.
#[derive(Clone, Copy, Debug, PartialEq, Eq, Structural)]
pub enum DeclKind {
    Unsupported,
    Struct,
    Func,
    Module,
    Generic,
    Variable,
    Namespace,
}

/// Kind of a type node.
#[derive(Clone, Copy, Debug, PartialEq, Eq, Structural)]
pub enum TypeKind {
    Unspecified,
    Struct,
    Array,
    Matrix,
    Vector,
    Scalar,
    ConstantBuffer,
    Resource,
    SamplerState,
    TextureBuffer,
    ShaderStorageBuffer,
    ParameterBlock,
    GenericTypeParameter,
    Interface,
    OutputStream,
    MeshOutput,
    Specialized,
    Feedback,
    Pointer,
    DynamicResource,
}

/// Scalar element type of a scalar, vector or matrix type.
#[derive(Clone, Copy, Debug, PartialEq, Eq, Structural)]
pub enum ScalarType {
    Unspecified,
    Void,
    Bool,
    Int32,
    UInt32,
    Int64,
    UInt64,
    Float16,
    Float32,
    Float64,
    Int8,
    UInt8,
    Int16,
    UInt16,
    IntPtr,
    UIntPtr,
}

/// Shape of a resource type.
#[derive(Clone, Copy, Debug, PartialEq, Eq, Structural)]
pub enum ResourceShape {
    Unspecified,
    Texture1D,
    Texture2D,
    Texture3D,
    TextureCube,
    TextureBuffer,
    StructuredBuffer,
    ByteAddressBuffer,
    AccelerationStructure,
    TextureSubpass,
    Texture1DArray,
    Texture2DArray,
    TextureCubeArray,
    Texture2DMultisample,
    Texture2DMultisampleArray,
    Unknown,
}

/// Access mode of a resource type.
#[derive(Clone, Copy, Debug, PartialEq, Eq, Structural)]
pub enum ResourceAccess {
    Unspecified,
    Read,
    ReadWrite,
    RasterOrdered,
    Append,
    Consume,
    Write,
    Feedback,
    Unknown,
}

/// Resource category in which a layout occupies space.
#[derive(Clone, Copy, Debug, PartialEq, Eq, Structural)]
pub enum ParameterCategory {
    Unspecified,
    Mixed,
    ConstantBuffer,
    ShaderResource,
    UnorderedAccess,
    VaryingInput,
    VaryingOutput,
    SamplerState,
    Uniform,
    DescriptorTableSlot,
    SpecializationConstant,
    PushConstantBuffer,
    RegisterSpace,
    GenericResource,
    RayPayload,
    HitAttributes,
    CallablePayload,
    ShaderRecord,
    ExistentialTypeParam,
    ExistentialObjectParam,
    SubElementRegisterSpace,
    Subpass,
    MetalArgumentBufferElement,
    MetalAttribute,
    MetalPayload,
}

/// Kind of descriptor a binding range or descriptor range holds.
#[derive(Clone, Copy, Debug, PartialEq, Eq, Structural)]
pub enum BindingType {
    Unknown,
    Sampler,
    Texture,
    ConstantBuffer,
    ParameterBlock,
    TypedBuffer,
    RawBuffer,
    CombinedTextureSampler,
    InputRenderTarget,
    InlineUniformData,
    RayTracingAccelerationStructure,
    VaryingInput,
    VaryingOutput,
    ExistentialValue,
    PushConstant,
    MutableTexture,
    MutableTypedBuffer,
    MutableRawBuffer,
}

/// Texel format declared for an image binding.
#[derive(Clone, Copy, Debug, PartialEq, Eq, Structural)]
pub enum ImageFormat {
    Unknown,
    Rgba32f,
    Rgba16f,
    Rg32f,
    Rg16f,
    R32f,
    R16f,
    Rgba8,
    Rgba8Snorm,
    Rgba32i,
    Rgba16i,
    Rgba8i,
    R32i,
    Rgba32ui,
    Rgba16ui,
    Rgba8ui,
    R32ui,
    R64ui,
    R64i,
    Bgra8,
}

/// Storage order of matrices.
#[derive(Clone, Copy, Debug, PartialEq, Eq, Structural)]
pub enum MatrixLayoutMode {
    Unknown,
    RowMajor,
    ColumnMajor,
}

/// Pipeline stage of an entry point or varying parameter.
#[derive(Clone, Copy, Debug, PartialEq, Eq, Structural)]
pub enum Stage {
    Unspecified,
    Vertex,
    Hull,
    Domain,
    Geometry,
    Fragment,
    Compute,
    RayGeneration,
    Intersection,
    AnyHit,
    ClosestHit,
    Miss,
    Callable,
    Mesh,
    Amplification,
}

/// Rules by which a type layout is computed.
#[derive(Clone, Copy, Debug, PartialEq, Eq, Structural)]
pub enum LayoutRules {
    Default,
    MetalArgumentBufferTier2,
}

/// Modifier that may be attached to a declaration.
#[derive(Clone, Copy, Debug, PartialEq, Eq, Structural)]
pub enum ModifierID {
    Shared,
    NoDiff,
    Static,
    Const,
    Export,
    Extern,
    Differentiable,
    Mutating,
    In,
    Out,
    InOut,
}

/// Kind of a generic argument.
#[derive(Clone, Copy, Debug, PartialEq, Eq, Structural)]
pub enum GenericArgType {
    Type,
    Int,
    Bool,
}

/// A generic argument: a type (by its node index), an integer or a boolean.
#[derive(Clone, Copy, Debug, PartialEq, Eq, Structural)]
pub enum GenericArg {
    Type(usize),
    Int(i64),
    Bool(bool),
}

/// A modifier found on a declaration.
#[derive(Clone, Copy, Debug, PartialEq, Eq, Structural)]
pub struct Modifier {
    pub id: ModifierID,
}

} // verus!
