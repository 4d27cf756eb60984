//! A verified model layer for a scene-graph toolkit binding.
//!
//! The toolkit itself lives in a native shared library; the glue that calls
//! into it is ordinary foreign-function code and stays outside this crate's
//! verified core. What this crate owns, and what is verified here, is the
//! data that crosses that boundary: the enumerations and their numeric codes,
//! the color value with its packed-pixel and textual forms, and the text
//! buffer with its length and truncation rules.

pub mod actor;
pub mod color;
pub mod constraint;
pub mod scaling;
pub mod text;
