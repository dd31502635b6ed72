//! A hierarchical data store laid out as plain directories: each managed
//! directory carries a small typed, versioned metadata envelope.
pub mod error;
pub mod object;
pub mod layout;
pub mod text;
pub mod envelope;
pub mod mode;
pub mod naming;
pub mod node;
