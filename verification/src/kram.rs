//! The kram backend: wraps the `kram` command-line encoder, which accepts
//! the ASTC block sizes, the BC formats and the ETC2 formats, always in a
//! KTX2 file.

use crate::compressor::{
    spec_format_name, BackendError, CompressError, CompressionFormat, Compressor, ContainerFormat,
    Invocation, TextureType,
};
use crate::tools::find_tool;
use crate::Backend;
use vstd::prelude::*;
use vstd::string::StringExecFns;

verus! {

/// Backend around the `kram` encoder.
#[derive(Debug)]
pub struct Kram {
    pub cli_path: String,
}

/// The formats kram accepts, always in a KTX2 container.
pub open spec fn spec_kram_format(f: CompressionFormat) -> bool {
    match f {
        CompressionFormat::Astc4x4 => true,
        CompressionFormat::Astc5x5 => true,
        CompressionFormat::Astc6x6 => true,
        CompressionFormat::Astc8x8 => true,
        CompressionFormat::Bc1 => true,
        CompressionFormat::Bc3 => true,
        CompressionFormat::Bc4 => true,
        CompressionFormat::Bc5 => true,
        CompressionFormat::Bc7 => true,
        CompressionFormat::Etc2r => true,
        CompressionFormat::Etc2rg => true,
        CompressionFormat::Etc2rgb => true,
        CompressionFormat::Etc2rgba => true,
        _ => false,
    }
}

pub open spec fn spec_kram_supports(f: CompressionFormat, c: ContainerFormat) -> bool {
    spec_kram_format(f) && c == ContainerFormat::Ktx2
}

/// Which of kram's encoders handles a format family.
pub open spec fn spec_kram_encoder(f: CompressionFormat) -> Seq<char> {
    match f {
        CompressionFormat::Astc4x4 => "astcenc"@,
        CompressionFormat::Astc5x5 => "astcenc"@,
        CompressionFormat::Astc6x6 => "astcenc"@,
        CompressionFormat::Astc8x8 => "astcenc"@,
        CompressionFormat::Bc1 => "bcenc"@,
        CompressionFormat::Bc3 => "bcenc"@,
        CompressionFormat::Bc4 => "bcenc"@,
        CompressionFormat::Bc5 => "bcenc"@,
        CompressionFormat::Bc7 => "bcenc"@,
        CompressionFormat::Etc2r => "etcenc"@,
        CompressionFormat::Etc2rg => "etcenc"@,
        CompressionFormat::Etc2rgb => "etcenc"@,
        CompressionFormat::Etc2rgba => "etcenc"@,
        _ => ""@,
    }
}

/// Whether a format is one of the ASTC block sizes; kram's normal-map path
/// swizzles those to the rrrg layout.
pub open spec fn spec_kram_astc(f: CompressionFormat) -> bool {
    match f {
        CompressionFormat::Astc4x4 => true,
        CompressionFormat::Astc5x5 => true,
        CompressionFormat::Astc6x6 => true,
        CompressionFormat::Astc8x8 => true,
        _ => false,
    }
}

/// The kram argument list: the encode command with source, destination and
/// mip settings, the format and its encoder, and the usage-class flags.
pub open spec fn spec_kram_args(
    tt: TextureType,
    f: CompressionFormat,
    c: ContainerFormat,
    src: Seq<char>,
    dst: Seq<char>,
) -> Seq<Seq<char>> {
    seq![
        "encode"@,
        "-input"@,
        src,
        "-output"@,
        dst,
        "-mipmin"@,
        "1"@,
        "-zstd"@,
        "0"@,
        "-format"@,
        spec_format_name(f),
        "-encoder"@,
        spec_kram_encoder(f),
    ] + (match tt {
        TextureType::Srgb => seq!["-srgb"@],
        TextureType::Linear => Seq::empty(),
        TextureType::NormalMap => seq!["-normal"@] + (if spec_kram_astc(f) {
            seq!["-swizzle"@, "rrrg"@]
        } else {
            Seq::empty()
        }),
    })
}

impl Kram {
    /// Locates the `kram` tool; a backend that cannot find its tool is not
    /// constructed.
    pub fn new() -> (r: Result<Kram, BackendError>)
        ensures
            r is Err ==> r->Err_0 == BackendError::Unavailable(Backend::Kram),
    {
        match find_tool("kram") {
            Some(p) => Ok(Kram { cli_path: p }),
            None => Err(BackendError::Unavailable(Backend::Kram)),
        }
    }
}

impl Compressor for Kram {
    open spec fn spec_supports(format: CompressionFormat, container: ContainerFormat) -> bool {
        spec_kram_supports(format, container)
    }

    open spec fn spec_args(
        texture_type: TextureType,
        format: CompressionFormat,
        container: ContainerFormat,
        src_path: Seq<char>,
        dst_path: Seq<char>,
    ) -> Seq<Seq<char>> {
        spec_kram_args(texture_type, format, container, src_path, dst_path)
    }

    open spec fn spec_program(&self) -> Seq<char> {
        self.cli_path@
    }

    fn compress(
        &self,
        working_dir: &str,
        src_path: &str,
        dst_path: &str,
        texture_type: TextureType,
        compression_format: CompressionFormat,
        container_format: ContainerFormat,
    ) -> (r: Result<Invocation, CompressError>) {
        let format_ok = matches!(
            compression_format,
            CompressionFormat::Astc4x4 | CompressionFormat::Astc5x5 | CompressionFormat::Astc6x6
                | CompressionFormat::Astc8x8 | CompressionFormat::Bc1 | CompressionFormat::Bc3
                | CompressionFormat::Bc4 | CompressionFormat::Bc5 | CompressionFormat::Bc7
                | CompressionFormat::Etc2r | CompressionFormat::Etc2rg | CompressionFormat::Etc2rgb
                | CompressionFormat::Etc2rgba
        );
        if !format_ok || !matches!(container_format, ContainerFormat::Ktx2) {
            return Err(CompressError::UnsupportedCombination);
        }
        let encoder = if matches!(
            compression_format,
            CompressionFormat::Astc4x4 | CompressionFormat::Astc5x5 | CompressionFormat::Astc6x6
                | CompressionFormat::Astc8x8
        ) {
            "astcenc"
        } else if matches!(
            compression_format,
            CompressionFormat::Bc1 | CompressionFormat::Bc3 | CompressionFormat::Bc4
                | CompressionFormat::Bc5 | CompressionFormat::Bc7
        ) {
            "bcenc"
        } else {
            "etcenc"
        };
        let mut args: Vec<String> = Vec::new();
        args.push(String::from_str("encode"));
        args.push(String::from_str("-input"));
        args.push(String::from_str(src_path));
        args.push(String::from_str("-output"));
        args.push(String::from_str(dst_path));
        args.push(String::from_str("-mipmin"));
        args.push(String::from_str("1"));
        args.push(String::from_str("-zstd"));
        args.push(String::from_str("0"));
        args.push(String::from_str("-format"));
        args.push(String::from_str(compression_format.name()));
        args.push(String::from_str("-encoder"));
        args.push(String::from_str(encoder));
        match texture_type {
            TextureType::Srgb => {
                args.push(String::from_str("-srgb"));
            },
            TextureType::Linear => {},
            TextureType::NormalMap => {
                args.push(String::from_str("-normal"));
                if matches!(
                    compression_format,
                    CompressionFormat::Astc4x4 | CompressionFormat::Astc5x5
                        | CompressionFormat::Astc6x6 | CompressionFormat::Astc8x8
                ) {
                    args.push(String::from_str("-swizzle"));
                    args.push(String::from_str("rrrg"));
                }
            },
        }
        proof {
            assert(args.deep_view() =~= spec_kram_args(
                texture_type,
                compression_format,
                container_format,
                src_path@,
                dst_path@,
            ));
        }
        Ok(Invocation {
            program: self.cli_path.clone(),
            working_dir: String::from_str(working_dir),
            args,
        })
    }
}

} // verus!
