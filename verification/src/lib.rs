//! Verified core of SPIRV-Cross bindings: the enum and type conversions
//! between the raw SPIR-V / SPIRV-Cross encodings and the library's own
//! types, and the Metal Shading Language compiler options.

pub mod error;
pub mod spirv;
pub mod ordered_map;
pub mod c_string;
pub mod msl;
pub mod compiler;
