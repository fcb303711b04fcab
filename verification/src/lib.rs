//! The type graph of a GraphQL schema: descriptors of named types, the registry
//! that collects them, the immutable schema built from it, and the subtype and
//! overlap questions that query validation asks of it.

pub mod abstract_types;
pub mod ast;
pub mod build_laws;
pub mod directive;
pub mod error;
pub mod introspection;
pub mod laws;
pub mod meta;
pub mod name_index;
pub mod navigator;
pub mod registry;
pub mod root;
pub mod schema;
mod table;
pub mod text;

pub use crate::ast::Type;
pub use crate::directive::{DirectiveLocation, DirectiveType};
pub use crate::error::SchemaError;
pub use crate::meta::{
    Argument, DeprecationStatus, EnumMeta, EnumValue, Field, InputObjectMeta, InterfaceMeta,
    MetaType, ObjectMeta, PlaceholderMeta, ScalarMeta, UnionMeta,
};
pub use crate::navigator::{TypeRef, TypeType};
pub use crate::registry::{EmptyMutation, EmptySubscription, GraphQLType, Registry};
pub use crate::root::RootNode;
pub use crate::schema::SchemaType;
