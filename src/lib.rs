//! Safe, verified model of the binding layer over a vtable-dispatched shader
//! compiler: reference-counted handles, the error model, descriptor and
//! option builders, and borrowed views over the reflection data of a linked
//! program.

pub mod component;
pub mod error;
pub mod handle;
pub mod kinds;
pub mod options;
pub mod reflection;

pub use component::{
    loaded_module, owned_result, ComponentType, Downcast, EntryPoint, GlobalSession, Interface,
    Metadata, Module, Session, TypeConformance, FAIL, UUID,
};
pub use error::{result_from_blob, succeeded, Blob, Error, Result};
pub use handle::{IUnknown, ObjectTable};
pub use kinds::{
    BindingType, DeclKind, GenericArg, GenericArgType, ImageFormat, LayoutRules, MatrixLayoutMode, Modifier, ModifierID,
    ParameterCategory, ResourceAccess, ResourceShape, ScalarType, Stage, TypeKind,
};
pub use options::{
    CapabilityID, CompileTarget, CompilerOptionEntry, CompilerOptionName, CompilerOptionValue,
    CompilerOptions, DebugInfoLevel, FloatingPointMode, LineDirectiveMode, OptimizationLevel,
    ProfileID, SessionDesc, SourceLanguage, TargetDesc,
};
