//! Custom scalar types for a GraphQL engine: the wire value model, the
//! conversions between native values and wire values, token validation and
//! the metadata that introspection reads.
//!
//! - [`scalar_value`], [`custom_scalar`]: what a leaf value is on the wire,
//!   for any scalar value type.
//! - [`value`], [`token`], [`text`]: input and output value trees, literal
//!   tokens, and the decimal text of integers.
//! - [`scalar`], [`delegate`], [`binding`]: the contract of a scalar type,
//!   the operations that a type with one field takes from its field, and
//!   the binding record that a declaration resolves to.
//! - [`schema`], [`execute`]: the type registry that introspection reads,
//!   and the path of an argument into a field.
//! - [`datetime`]: instants of time, written and read by `chrono`.
//! - [`bindings`]: scalar types bound in each of the ways that a
//!   declaration allows.

pub mod binding;
pub mod bindings;
pub mod custom_scalar;
pub mod datetime;
pub mod delegate;
pub mod error;
pub mod execute;
pub mod scalar;
pub mod scalar_value;
pub mod schema;
pub mod text;
pub mod token;
pub mod value;
