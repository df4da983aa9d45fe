//! Compiler from a declarative FIX-family protocol dictionary to a concrete,
//! typed message schema: flattened member lists, repeating-group schemas,
//! length/data pairing, enumeration definitions, a tag-sorted field catalog,
//! the protocol begin-string, and a total reject-reason mapping.

pub mod casing;
pub mod catalog;
pub mod dictionary;
pub mod envelope;
pub mod enumeration;
pub mod error;
pub mod gen;
pub mod laws;
pub mod member;
pub mod reject;
pub mod resolver;
pub mod structure;
