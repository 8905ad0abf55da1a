//! Borrowed views over the reflection data of one linked program.
//!
//! A view names one node of a [`Program`] and borrows the program, so no view
//! outlives the data it reads. Navigation from one node to another follows the
//! links that the program's records hold; a link that is absent gives no view.

pub mod decl;
pub mod entry_point;
pub mod function;
pub mod generic;
pub mod node;
pub mod program;
pub mod shader;
pub mod table;
pub mod ty;
pub mod type_layout;
pub mod type_parameter;
pub mod user_attribute;
pub mod variable;
pub mod variable_layout;

pub use decl::Decl;
pub use entry_point::EntryPoint;
pub use function::Function;
pub use generic::Generic;
pub use node::Node;
pub use program::{
    AttributeArgument, BindingRangeRecord, DeclRecord, DescriptorRangeRecord, DescriptorSetRecord,
    EntryPointRecord, FunctionRecord, GenericRecord, GenericSpecializationEntry, Program, ProgramRecords, ShaderRecord,
    SubObjectRangeRecord, TypeLayoutEntry, TypeLayoutRecord, TypeSpecializationEntry, TypeParameterRecord, TypeRecord,
    UserAttributeRecord, VariableLayoutRecord, VariableRecord,
};
pub use shader::Shader;
pub use ty::Type;
pub use type_layout::TypeLayout;
pub use type_parameter::TypeParameter;
pub use user_attribute::UserAttribute;
pub use variable::Variable;
pub use variable_layout::VariableLayout;
