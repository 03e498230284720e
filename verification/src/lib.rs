//! Texture compression planning for glTF scene documents.
//!
//! The crate classifies every texture of a document by how the materials use
//! it, expands a codec/container request into an ordered list of output
//! targets, builds the command line for the external encoder that owns each
//! target, and drives a per-texture, per-target pipeline that rewrites one
//! document copy per target to point at the compressed files.

use vstd::prelude::*;

pub mod basisu;
pub mod compressor;
pub mod document;
pub mod gltf;
pub mod image;
pub mod kram;
pub mod paths;
pub mod pipeline;
pub mod registry;
pub mod text;
pub mod toktx;
mod tools;

pub use basisu::Basisu;
pub use compressor::BackendError;
pub use compressor::CompressError;
pub use compressor::CompressionFormat;
pub use compressor::Compressor;
pub use compressor::ContainerFormat;
pub use compressor::Invocation;
pub use compressor::TextureType;
pub use document::Document;
pub use gltf::Gltf;
pub use gltf::OutputTarget;
pub use kram::Kram;
pub use pipeline::Run;
pub use registry::Registry;
pub use toktx::Toktx;

verus! {

/// External encoder tool that can own a compression format.
#[derive(Clone, Copy, Debug, PartialEq, Eq, Structural, Hash)]
pub enum Backend {
    Basisu,
    Kram,
    Toktx,
}

/// Lower-case name of a backend, as the matching command-line tool is called.
pub open spec fn spec_backend_name(b: Backend) -> Seq<char> {
    match b {
        Backend::Basisu => "basisu"@,
        Backend::Kram => "kram"@,
        Backend::Toktx => "toktx"@,
    }
}

impl Backend {
    /// The name of the external tool this backend wraps.
    pub fn name(&self) -> (r: &'static str)
        ensures
            r@ == spec_backend_name(*self),
    {
        match *self {
            Backend::Basisu => "basisu",
            Backend::Kram => "kram",
            Backend::Toktx => "toktx",
        }
    }
}

} // verus!
