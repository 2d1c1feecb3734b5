//! Expansion logic of the `display` attribute: it turns a format string
//! with its arguments and a record's fields into the body of a rendering
//! method, all over a flat model of token streams.
pub mod token;
pub mod text;
pub mod args;
pub mod fields;
pub mod displayer;
pub mod laws;
