//! The basisu backend: wraps the `basisu` command-line encoder, which
//! accepts the ETC1S and UASTC formats in either container.

use crate::compressor::{
    BackendError, CompressError, CompressionFormat, Compressor, ContainerFormat, Invocation,
    TextureType,
};
use crate::tools::find_tool;
use crate::Backend;
use vstd::prelude::*;
use vstd::string::StringExecFns;

verus! {

/// Backend around the `basisu` encoder.
#[derive(Debug)]
pub struct Basisu {
    pub cli_path: String,
}

/// The pairs basisu accepts: ETC1S or UASTC, in a Basis or a KTX2 file.
pub open spec fn spec_basisu_supports(f: CompressionFormat, c: ContainerFormat) -> bool {
    f == CompressionFormat::Etc1s || f == CompressionFormat::Uastc
}

/// The basisu argument list: source and destination, fast mip generation,
/// the format and container switches, and the transfer-function flags of the
/// texture's usage class.
pub open spec fn spec_basisu_args(
    tt: TextureType,
    f: CompressionFormat,
    c: ContainerFormat,
    src: Seq<char>,
    dst: Seq<char>,
) -> Seq<Seq<char>> {
    seq![src, "-output_file"@, dst, "-mipmap"@, "-mip_fast"@] + (if f == CompressionFormat::Uastc {
        seq!["-uastc"@]
    } else {
        Seq::empty()
    }) + (if c == ContainerFormat::Ktx2 {
        seq!["-ktx2"@]
    } else {
        Seq::empty()
    }) + (match tt {
        TextureType::Srgb => seq!["-mip_srgb"@],
        TextureType::Linear => seq!["-linear"@, "-mip_linear"@],
        TextureType::NormalMap => seq!["-normal_map"@, "-linear"@, "-mip_linear"@],
    })
}

impl Basisu {
    /// Locates the `basisu` tool; a backend that cannot find its tool is not
    /// constructed.
    pub fn new() -> (r: Result<Basisu, BackendError>)
        ensures
            r is Err ==> r->Err_0 == BackendError::Unavailable(Backend::Basisu),
    {
        match find_tool("basisu") {
            Some(p) => Ok(Basisu { cli_path: p }),
            None => Err(BackendError::Unavailable(Backend::Basisu)),
        }
    }
}

impl Compressor for Basisu {
    open spec fn spec_supports(format: CompressionFormat, container: ContainerFormat) -> bool {
        spec_basisu_supports(format, container)
    }

    open spec fn spec_args(
        texture_type: TextureType,
        format: CompressionFormat,
        container: ContainerFormat,
        src_path: Seq<char>,
        dst_path: Seq<char>,
    ) -> Seq<Seq<char>> {
        spec_basisu_args(texture_type, format, container, src_path, dst_path)
    }

    open spec fn spec_program(&self) -> Seq<char> {
        self.cli_path@
    }

    fn compress(
        &self,
        working_dir: &str,
        src_path: &str,
        dst_path: &str,
        texture_type: TextureType,
        compression_format: CompressionFormat,
        container_format: ContainerFormat,
    ) -> (r: Result<Invocation, CompressError>) {
        if !matches!(compression_format, CompressionFormat::Etc1s | CompressionFormat::Uastc) {
            return Err(CompressError::UnsupportedCombination);
        }
        let mut args: Vec<String> = Vec::new();
        args.push(String::from_str(src_path));
        args.push(String::from_str("-output_file"));
        args.push(String::from_str(dst_path));
        args.push(String::from_str("-mipmap"));
        args.push(String::from_str("-mip_fast"));
        if matches!(compression_format, CompressionFormat::Uastc) {
            args.push(String::from_str("-uastc"));
        }
        if matches!(container_format, ContainerFormat::Ktx2) {
            args.push(String::from_str("-ktx2"));
        }
        match texture_type {
            TextureType::Srgb => {
                args.push(String::from_str("-mip_srgb"));
            },
            TextureType::Linear => {
                args.push(String::from_str("-linear"));
                args.push(String::from_str("-mip_linear"));
            },
            TextureType::NormalMap => {
                args.push(String::from_str("-normal_map"));
                args.push(String::from_str("-linear"));
                args.push(String::from_str("-mip_linear"));
            },
        }
        proof {
            assert(args.deep_view() =~= spec_basisu_args(
                texture_type,
                compression_format,
                container_format,
                src_path@,
                dst_path@,
            ));
        }
        Ok(Invocation {
            program: self.cli_path.clone(),
            working_dir: String::from_str(working_dir),
            args,
        })
    }
}

} // verus!
