//! Schema trees of an API description: the node type, its shapes, the
//! reference-or-inline and open-enumeration wrappers, and the conversion
//! between a schema tree and a structured document value, with its laws.
//!
//! The types are in `schema`, `reference`, `variant_or`, `properties` and
//! `value`, their mathematical models in `model`. What writing and reading
//! mean is said over the models in `encode` and `decode`; `writer` and
//! `reader` hold the functions that do it. `laws` proves that what is
//! written is read back, and what else holds of the two together.

pub mod copy;
pub mod decode;
pub mod encode;
pub mod equality;
pub mod error;
pub mod fields;
pub mod keys;
pub mod laws;
pub mod model;
pub mod properties;
pub mod property;
pub mod reader;
pub mod reference;
pub mod schema;
pub mod text;
pub mod value;
pub mod variant_or;
pub mod wellformed;
pub mod writer;

pub use error::{ErrorKind, ParseError, PathSegment};
pub use properties::Properties;
pub use reference::ReferenceOr;
pub use schema::{ExternalDocumentation, Schema};
pub use value::{Number, Value};
pub use variant_or::{VariantOrUnknown, VariantOrUnknownOrEmpty};
