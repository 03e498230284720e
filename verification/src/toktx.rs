//! The toktx backend: wraps the `toktx` command-line encoder, which accepts
//! the ASTC, ETC1S and UASTC formats, always in a KTX2 file.

use crate::compressor::{
    spec_format_name, BackendError, CompressError, CompressionFormat, Compressor, ContainerFormat,
    Invocation, TextureType,
};
use crate::tools::find_tool;
use crate::Backend;
use vstd::prelude::*;
use vstd::string::StringExecFns;

verus! {

/// Backend around the `toktx` encoder.
#[derive(Debug)]
pub struct Toktx {
    pub cli_path: String,
}

/// The pairs toktx accepts: ASTC, ETC1S or UASTC, in a KTX2 container.
pub open spec fn spec_toktx_supports(f: CompressionFormat, c: ContainerFormat) -> bool {
    (f == CompressionFormat::Astc || f == CompressionFormat::Etc1s || f
        == CompressionFormat::Uastc) && c == ContainerFormat::Ktx2
}

/// The toktx argument list: the usage-class flags first, then the 2D mip
/// and encode settings, supercompression for everything but ETC1S, and the
/// destination before the source.
pub open spec fn spec_toktx_args(
    tt: TextureType,
    f: CompressionFormat,
    c: ContainerFormat,
    src: Seq<char>,
    dst: Seq<char>,
) -> Seq<Seq<char>> {
    (match tt {
        TextureType::Srgb => seq!["--assign_oetf"@, "srgb"@],
        TextureType::Linear => seq!["--assign_oetf"@, "linear"@],
        TextureType::NormalMap => seq!["--normal_mode"@],
    }) + seq!["--2d"@, "--genmipmap"@, "--encode"@, spec_format_name(f), "--t2"@] + (if f
        == CompressionFormat::Etc1s {
        Seq::empty()
    } else {
        seq!["--zcmp"@, "18"@]
    }) + seq![dst, src]
}

impl Toktx {
    /// Locates the `toktx` tool; a backend that cannot find its tool is not
    /// constructed.
    pub fn new() -> (r: Result<Toktx, BackendError>)
        ensures
            r is Err ==> r->Err_0 == BackendError::Unavailable(Backend::Toktx),
    {
        match find_tool("toktx") {
            Some(p) => Ok(Toktx { cli_path: p }),
            None => Err(BackendError::Unavailable(Backend::Toktx)),
        }
    }
}

impl Compressor for Toktx {
    open spec fn spec_supports(format: CompressionFormat, container: ContainerFormat) -> bool {
        spec_toktx_supports(format, container)
    }

    open spec fn spec_args(
        texture_type: TextureType,
        format: CompressionFormat,
        container: ContainerFormat,
        src_path: Seq<char>,
        dst_path: Seq<char>,
    ) -> Seq<Seq<char>> {
        spec_toktx_args(texture_type, format, container, src_path, dst_path)
    }

    open spec fn spec_program(&self) -> Seq<char> {
        self.cli_path@
    }

    fn compress(
        &self,
        working_dir: &str,
        src_path: &str,
        dst_path: &str,
        texture_type: TextureType,
        compression_format: CompressionFormat,
        container_format: ContainerFormat,
    ) -> (r: Result<Invocation, CompressError>) {
        let format_ok = matches!(
            compression_format,
            CompressionFormat::Astc | CompressionFormat::Etc1s | CompressionFormat::Uastc
        );
        if !format_ok || !matches!(container_format, ContainerFormat::Ktx2) {
            return Err(CompressError::UnsupportedCombination);
        }
        let mut args: Vec<String> = Vec::new();
        match texture_type {
            TextureType::Srgb => {
                args.push(String::from_str("--assign_oetf"));
                args.push(String::from_str("srgb"));
            },
            TextureType::Linear => {
                args.push(String::from_str("--assign_oetf"));
                args.push(String::from_str("linear"));
            },
            TextureType::NormalMap => {
                args.push(String::from_str("--normal_mode"));
            },
        }
        args.push(String::from_str("--2d"));
        args.push(String::from_str("--genmipmap"));
        args.push(String::from_str("--encode"));
        args.push(String::from_str(compression_format.name()));
        args.push(String::from_str("--t2"));
        if !matches!(compression_format, CompressionFormat::Etc1s) {
            args.push(String::from_str("--zcmp"));
            args.push(String::from_str("18"));
        }
        args.push(String::from_str(dst_path));
        args.push(String::from_str(src_path));
        proof {
            assert(args.deep_view() =~= spec_toktx_args(
                texture_type,
                compression_format,
                container_format,
                src_path@,
                dst_path@,
            ));
        }
        Ok(Invocation {
            program: self.cli_path.clone(),
            working_dir: String::from_str(working_dir),
            args,
        })
    }
}

} // verus!
