//! Form scaffolding for a GUI widget toolkit: a typed model of the widget that
//! backs each field of a struct, the naming scheme shared by every generated
//! identifier, and the generators that turn a struct's shape into source text.

pub use num_regex::NumRegex;

pub mod case;
pub mod code_gen;
pub mod components;
pub mod derive;
pub mod field_gen;
pub mod form_layout;
pub mod layout;
pub mod names;
pub mod num_regex;
pub mod registry;
