//! Scalar types bound in each of the ways that a declaration allows.

pub mod bounded_generic_scalar;
pub mod custom_scalar;
pub mod custom_to_output;
pub mod description_from_attribute;
pub mod description_from_doc_comment;
pub mod explicit_name;
pub mod generic_scalar;
pub mod generic_with_all_resolvers;
pub mod trivial_named;
pub mod trivial_unnamed;
