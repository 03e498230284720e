//! Detection of the raster type of a source image from its MIME type, with a
//! fallback on the file extension of its URI. Only JPEG and PNG are
//! recognized; anything else makes the texture an unsupported-image skip.

use crate::text::{ci_str_eq, last_index_of, spec_ci_eq, spec_last_index_of};
use vstd::prelude::*;
use vstd::string::StrSliceExecFns;

verus! {

/// A recognized raster image type.
#[derive(Clone, Copy, Debug, PartialEq, Eq, Structural)]
pub enum ImageFormat {
    Jpeg,
    Png,
}

/// The image type a MIME string names, ignoring ASCII case.
pub open spec fn spec_mime_format(m: Seq<char>) -> Option<ImageFormat> {
    if spec_ci_eq(m, "image/jpeg"@) {
        Some(ImageFormat::Jpeg)
    } else if spec_ci_eq(m, "image/png"@) {
        Some(ImageFormat::Png)
    } else {
        None
    }
}

/// The image type the extension of a path names: the part after the last
/// dot, ignoring ASCII case; `None` when there is no dot or the extension is
/// not recognized.
pub open spec fn spec_extension_format(path: Seq<char>) -> Option<ImageFormat> {
    let dot = spec_last_index_of(path, '.');
    if dot < 0 {
        None
    } else {
        let ext = path.skip(dot + 1);
        if spec_ci_eq(ext, "jpeg"@) || spec_ci_eq(ext, "jpg"@) {
            Some(ImageFormat::Jpeg)
        } else if spec_ci_eq(ext, "png"@) {
            Some(ImageFormat::Png)
        } else {
            None
        }
    }
}

/// The image type of a source image: what the MIME type names when it names
/// a recognized type, else what the extension names.
pub open spec fn spec_image_format(
    mime_type: Option<Seq<char>>,
    extension: Option<Seq<char>>,
) -> Option<ImageFormat> {
    if mime_type is Some && spec_mime_format(mime_type->0) is Some {
        spec_mime_format(mime_type->0)
    } else if extension is Some {
        spec_extension_format(extension->0)
    } else {
        None
    }
}

impl ImageFormat {
    /// Recognizes the image type from the MIME type when one is given and
    /// recognized, falling back on the file extension of the path.
    pub fn from_mime_or_extension(mime_type: Option<&str>, extension: Option<&str>) -> (r: Option<
        ImageFormat,
    >)
        ensures
            r == spec_image_format(
                match mime_type {
                    Some(m) => Some(m@),
                    None => None,
                },
                match extension {
                    Some(e) => Some(e@),
                    None => None,
                },
            ),
    {
        if let Some(m) = mime_type {
            if ci_str_eq(m, "image/jpeg") {
                return Some(ImageFormat::Jpeg);
            }
            if ci_str_eq(m, "image/png") {
                return Some(ImageFormat::Png);
            }
        }
        if let Some(e) = extension {
            proof {
                crate::text::lemma_last_index_of(e@, '.');
            }
            let n = e.unicode_len();
            if let Some(dot) = last_index_of(e, '.') {
                let ext = e.substring_char(dot + 1, n);
                proof {
                    assert(ext@ =~= e@.skip(dot + 1));
                }
                if ci_str_eq(ext, "jpeg") || ci_str_eq(ext, "jpg") {
                    return Some(ImageFormat::Jpeg);
                }
                if ci_str_eq(ext, "png") {
                    return Some(ImageFormat::Png);
                }
            }
        }
        None
    }
}

} // verus!
