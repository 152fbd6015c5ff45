//! Embedding of compiled GLSL shaders as static byte arrays.
//!
//! A marker declaration carries the shader's configuration in its attributes:
//! the GLSL text itself (`src`) or the path of a file that holds it (`path`),
//! and the shader stage (`ty`). The library reads that configuration, decides
//! what has to be read and compiled, and renders the compiled SPIR-V binary as
//! the text of a `static` array declaration of exactly the binary's length.
//!
//! Reading files and running the GLSL compiler are left to the caller: the
//! [`pipeline::Pipeline`] says which of the two it needs next, and takes the
//! outcome as an [`pipeline::Event`].

pub mod text;
pub mod stage;
pub mod error;
pub mod annotation;
pub mod marker;
pub mod declaration;
pub mod pipeline;
pub mod guarantees;
