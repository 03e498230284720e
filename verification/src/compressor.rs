//! Compression formats, container formats and the capability table that maps
//! every format to the backend owning it and to its default container.

use crate::Backend;
use vstd::prelude::*;

verus! {

/// How a texture is used by the materials that reference it; decides the
/// transfer-function and mip-generation flags handed to the encoders.
#[derive(Clone, Copy, Debug, PartialEq, Eq, Structural)]
pub enum TextureType {
    Srgb,
    Linear,
    NormalMap,
}

/// The closed set of output codecs, in their declared order.
#[derive(Clone, Copy, Debug, PartialEq, Eq, Structural, Hash)]
pub enum CompressionFormat {
    Astc,
    Astc4x4,
    Astc5x5,
    Astc6x6,
    Astc8x8,
    Bc1,
    Bc3,
    Bc4,
    Bc5,
    Bc7,
    Etc1s,
    Etc2r,
    Etc2rg,
    Etc2rgb,
    Etc2rgba,
    Uastc,
}

/// File container a compressed texture is wrapped in.
#[derive(Clone, Copy, Debug, PartialEq, Eq, Structural, Hash)]
pub enum ContainerFormat {
    Basis,
    Ktx2,
}

/// Which backend owns a format, or `None` for formats no backend owns.
pub open spec fn spec_backend(f: CompressionFormat) -> Option<Backend> {
    match f {
        CompressionFormat::Astc4x4 => Some(Backend::Kram),
        CompressionFormat::Bc1 => Some(Backend::Kram),
        CompressionFormat::Bc3 => Some(Backend::Kram),
        CompressionFormat::Bc4 => Some(Backend::Kram),
        CompressionFormat::Bc5 => Some(Backend::Kram),
        CompressionFormat::Bc7 => Some(Backend::Kram),
        CompressionFormat::Etc1s => Some(Backend::Basisu),
        CompressionFormat::Etc2r => Some(Backend::Kram),
        CompressionFormat::Etc2rg => Some(Backend::Kram),
        CompressionFormat::Etc2rgb => Some(Backend::Kram),
        CompressionFormat::Etc2rgba => Some(Backend::Kram),
        CompressionFormat::Uastc => Some(Backend::Basisu),
        _ => None,
    }
}

/// Default container of a format: ETC1S only ever travels in a Basis file,
/// every other format defaults to KTX2.
pub open spec fn spec_container(f: CompressionFormat) -> ContainerFormat {
    if f == CompressionFormat::Etc1s {
        ContainerFormat::Basis
    } else {
        ContainerFormat::Ktx2
    }
}

/// Lower-case name of a format, used in paths and encoder arguments.
pub open spec fn spec_format_name(f: CompressionFormat) -> Seq<char> {
    match f {
        CompressionFormat::Astc => "astc"@,
        CompressionFormat::Astc4x4 => "astc4x4"@,
        CompressionFormat::Astc5x5 => "astc5x5"@,
        CompressionFormat::Astc6x6 => "astc6x6"@,
        CompressionFormat::Astc8x8 => "astc8x8"@,
        CompressionFormat::Bc1 => "bc1"@,
        CompressionFormat::Bc3 => "bc3"@,
        CompressionFormat::Bc4 => "bc4"@,
        CompressionFormat::Bc5 => "bc5"@,
        CompressionFormat::Bc7 => "bc7"@,
        CompressionFormat::Etc1s => "etc1s"@,
        CompressionFormat::Etc2r => "etc2r"@,
        CompressionFormat::Etc2rg => "etc2rg"@,
        CompressionFormat::Etc2rgb => "etc2rgb"@,
        CompressionFormat::Etc2rgba => "etc2rgba"@,
        CompressionFormat::Uastc => "uastc"@,
    }
}

/// Lower-case name of a container, also its file extension.
pub open spec fn spec_container_name(c: ContainerFormat) -> Seq<char> {
    match c {
        ContainerFormat::Basis => "basis"@,
        ContainerFormat::Ktx2 => "ktx2"@,
    }
}

impl CompressionFormat {
    /// The backend owning this format, or `None` if no backend encodes it.
    pub fn backend(&self) -> (r: Option<Backend>)
        ensures
            r == spec_backend(*self),
    {
        match *self {
            CompressionFormat::Astc4x4 => Some(Backend::Kram),
            CompressionFormat::Bc1 => Some(Backend::Kram),
            CompressionFormat::Bc3 => Some(Backend::Kram),
            CompressionFormat::Bc4 => Some(Backend::Kram),
            CompressionFormat::Bc5 => Some(Backend::Kram),
            CompressionFormat::Bc7 => Some(Backend::Kram),
            CompressionFormat::Etc1s => Some(Backend::Basisu),
            CompressionFormat::Etc2r => Some(Backend::Kram),
            CompressionFormat::Etc2rg => Some(Backend::Kram),
            CompressionFormat::Etc2rgb => Some(Backend::Kram),
            CompressionFormat::Etc2rgba => Some(Backend::Kram),
            CompressionFormat::Uastc => Some(Backend::Basisu),
            _ => None,
        }
    }

    /// The default container for this format.
    pub fn container(&self) -> (r: ContainerFormat)
        ensures
            r == spec_container(*self),
    {
        if matches!(*self, CompressionFormat::Etc1s) {
            ContainerFormat::Basis
        } else {
            ContainerFormat::Ktx2
        }
    }

    /// The lower-case name of this format.
    pub fn name(&self) -> (r: &'static str)
        ensures
            r@ == spec_format_name(*self),
    {
        match *self {
            CompressionFormat::Astc => "astc",
            CompressionFormat::Astc4x4 => "astc4x4",
            CompressionFormat::Astc5x5 => "astc5x5",
            CompressionFormat::Astc6x6 => "astc6x6",
            CompressionFormat::Astc8x8 => "astc8x8",
            CompressionFormat::Bc1 => "bc1",
            CompressionFormat::Bc3 => "bc3",
            CompressionFormat::Bc4 => "bc4",
            CompressionFormat::Bc5 => "bc5",
            CompressionFormat::Bc7 => "bc7",
            CompressionFormat::Etc1s => "etc1s",
            CompressionFormat::Etc2r => "etc2r",
            CompressionFormat::Etc2rg => "etc2rg",
            CompressionFormat::Etc2rgb => "etc2rgb",
            CompressionFormat::Etc2rgba => "etc2rgba",
            CompressionFormat::Uastc => "uastc",
        }
    }
}

impl ContainerFormat {
    /// The lower-case name of this container, also its file extension.
    pub fn name(&self) -> (r: &'static str)
        ensures
            r@ == spec_container_name(*self),
    {
        match *self {
            ContainerFormat::Basis => "basis",
            ContainerFormat::Ktx2 => "ktx2",
        }
    }
}

/// All format values, in their declared order.
pub open spec fn spec_all_formats() -> Seq<CompressionFormat> {
    seq![
        CompressionFormat::Astc,
        CompressionFormat::Astc4x4,
        CompressionFormat::Astc5x5,
        CompressionFormat::Astc6x6,
        CompressionFormat::Astc8x8,
        CompressionFormat::Bc1,
        CompressionFormat::Bc3,
        CompressionFormat::Bc4,
        CompressionFormat::Bc5,
        CompressionFormat::Bc7,
        CompressionFormat::Etc1s,
        CompressionFormat::Etc2r,
        CompressionFormat::Etc2rg,
        CompressionFormat::Etc2rgb,
        CompressionFormat::Etc2rgba,
        CompressionFormat::Uastc,
    ]
}

/// The formats some backend owns, in declared order: the targets swept by a
/// compress-to-all run.
pub open spec fn spec_backed_formats() -> Seq<CompressionFormat> {
    seq![
        CompressionFormat::Astc4x4,
        CompressionFormat::Bc1,
        CompressionFormat::Bc3,
        CompressionFormat::Bc4,
        CompressionFormat::Bc5,
        CompressionFormat::Bc7,
        CompressionFormat::Etc1s,
        CompressionFormat::Etc2r,
        CompressionFormat::Etc2rg,
        CompressionFormat::Etc2rgb,
        CompressionFormat::Etc2rgba,
        CompressionFormat::Uastc,
    ]
}

/// One fully assembled encoder call: the external program to run, the
/// directory to run it in, and its arguments in order.
#[derive(Debug)]
pub struct Invocation {
    pub program: String,
    pub working_dir: String,
    pub args: Vec<String>,
}

/// Why one texture/target pair failed.
#[derive(Debug)]
pub enum CompressError {
    /// The backend does not accept the requested format/container pair.
    UnsupportedCombination,
    /// The destination directory could not be created.
    DirectoryCreationFailed(String),
    /// The external tool could not be spawned or exited with an error.
    ExecutionFailed(String),
}

/// Why a backend could not be constructed: its external tool was not found
/// on the search path. This aborts a run before any texture is touched.
#[derive(Clone, Copy, Debug, PartialEq, Eq, Structural)]
pub enum BackendError {
    Unavailable(Backend),
}

/// Capability every backend implements: turn one texture/target pair into
/// the call of its external tool, rejecting pairs the tool does not accept
/// before anything is spawned.
pub trait Compressor {
    /// The format/container pairs this backend accepts.
    spec fn spec_supports(format: CompressionFormat, container: ContainerFormat) -> bool;

    /// The argument list handed to the tool for an accepted pair.
    spec fn spec_args(
        texture_type: TextureType,
        format: CompressionFormat,
        container: ContainerFormat,
        src_path: Seq<char>,
        dst_path: Seq<char>,
    ) -> Seq<Seq<char>>;

    /// The program this backend runs.
    spec fn spec_program(&self) -> Seq<char>;

    /// Assembles the tool call that compresses `src_path` to `dst_path`,
    /// rooted at `working_dir`, with the transfer-function and mip flags the
    /// texture's usage class asks for; rejects a format/container pair the
    /// backend does not accept.
    fn compress(
        &self,
        working_dir: &str,
        src_path: &str,
        dst_path: &str,
        texture_type: TextureType,
        compression_format: CompressionFormat,
        container_format: ContainerFormat,
    ) -> (r: Result<Invocation, CompressError>)
        ensures
            r is Ok <==> Self::spec_supports(compression_format, container_format),
            r is Err ==> r->Err_0 is UnsupportedCombination,
            r is Ok ==> (r->Ok_0).program@ == self.spec_program() && (r->Ok_0).working_dir@
                == working_dir@ && (r->Ok_0).args.deep_view() == Self::spec_args(
                texture_type,
                compression_format,
                container_format,
                src_path@,
                dst_path@,
            ),
    ;
}

/// The backed formats are exactly the formats of the declared order that a
/// backend owns.
#[verifier::rlimit(60)]
pub proof fn lemma_backed_formats_are_filtered_formats()
    ensures
        spec_backed_formats() == spec_all_formats().filter(|f| spec_backend(f) is Some),
{
    reveal_with_fuel(Seq::<_>::filter, 17);
    assert(spec_backed_formats() =~= spec_all_formats().filter(|f| spec_backend(f) is Some));
}

} // verus!
