//! Front end of a declarative manifest compiler: parses type-expression
//! strings such as `Map<String, Object<Button>>` into a recursive type model,
//! and lowers a manifest document (enums, objects, features) into a fully
//! resolved intermediate representation.

pub mod error;
pub mod text;
pub mod types;
pub mod frontend;
pub mod ir;
pub mod lowering;
pub mod nesting;
pub mod symbols;
pub mod values;

pub use error::FMLError;
pub use frontend::{
    EnumBody, EnumVariantBody, FeatureBody, FeatureVariable, FeatureVariableBody,
    ManifestFrontEnd, ObjectBody, ObjectFieldBody, Types,
};
pub use ir::{EnumDef, FeatureDef, FeatureManifest, ObjectDef, PropDef, VariantDef};
pub use lowering::Parser;
pub use symbols::SymbolTable;
pub use types::{parse_typeref_string, TypeRef};
pub use values::Value;
