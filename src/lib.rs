//! A small domain model: an identifier value object, a node entity that owns
//! one identifier and a label, and a collection of identifiers.
pub mod collection;
pub mod id;
pub mod node;

pub use collection::IdCollection;
pub use id::ID;
pub use node::Node;
