//! Deterministic construction of the output paths: the destination file of a
//! compressed texture and the per-target output document.

use crate::compressor::{
    spec_container_name, spec_format_name, CompressionFormat, ContainerFormat,
};
use crate::text::{ci_str_eq, last_index_of, spec_ci_eq, spec_last_index_of};
use vstd::prelude::*;
use vstd::string::{StrSliceExecFns, StringExecFns};

verus! {

/// Destination of a compressed texture: for a source `dir/name.ext` and a
/// target `(F, C)` it is `dir/F_C/name_F.C`, so every format/container
/// combination writes into its own subdirectory.
pub open spec fn spec_destination_path(
    uri: Seq<char>,
    f: CompressionFormat,
    c: ContainerFormat,
) -> Seq<char> {
    let cut = spec_last_index_of(uri, '/') + 1;
    let dir = uri.take(cut);
    let name = uri.skip(cut);
    let dot = spec_last_index_of(name, '.');
    let stem = if dot >= 0 {
        name.take(dot)
    } else {
        name
    };
    dir + spec_format_name(f) + "_"@ + spec_container_name(c) + "/"@ + stem + "_"@
        + spec_format_name(f) + "."@ + spec_container_name(c)
}

/// Output document path: for a source document `dir/name.ext` and a target
/// `(F, C)` it is `dir/name_F_C.ext`. Meaningful only when the path holds a
/// dot.
pub open spec fn spec_output_document_path(
    path: Seq<char>,
    f: CompressionFormat,
    c: ContainerFormat,
) -> Seq<char> {
    let dot = spec_last_index_of(path, '.');
    path.take(dot) + "_"@ + spec_format_name(f) + "_"@ + spec_container_name(c) + "."@ + path.skip(
        dot + 1,
    )
}

/// Builds the destination path of one compressed texture file, relative to
/// the directory the source image path is relative to.
pub fn destination_path(uri: &str, f: CompressionFormat, c: ContainerFormat) -> (r: String)
    ensures
        r@ == spec_destination_path(uri@, f, c),
{
    proof {
        crate::text::lemma_last_index_of(uri@, '/');
    }
    let n = uri.unicode_len();
    let cut = match last_index_of(uri, '/') {
        Some(i) => i + 1,
        None => 0,
    };
    let name = uri.substring_char(cut, n);
    proof {
        assert(name@ =~= uri@.skip(cut as int));
        crate::text::lemma_last_index_of(name@, '.');
    }
    let stem_end = match last_index_of(name, '.') {
        Some(d) => d,
        None => n - cut,
    };
    let stem = name.substring_char(0, stem_end);
    let mut out = String::new();
    out.append(uri.substring_char(0, cut));
    out.append(f.name());
    out.append("_");
    out.append(c.name());
    out.append("/");
    out.append(stem);
    out.append("_");
    out.append(f.name());
    out.append(".");
    out.append(c.name());
    proof {
        assert(uri@.subrange(0, cut as int) =~= uri@.take(cut as int));
        assert(out@ =~= spec_destination_path(uri@, f, c));
    }
    out
}

/// Builds the path of the rewritten document for one target, next to the
/// source document; `None` when the source path has no extension to split at.
pub fn output_document_path(path: &str, f: CompressionFormat, c: ContainerFormat) -> (r: Option<
    String,
>)
    ensures
        match r {
            Some(p) => spec_last_index_of(path@, '.') >= 0 && p@ == spec_output_document_path(
                path@,
                f,
                c,
            ),
            None => spec_last_index_of(path@, '.') < 0,
        },
{
    proof {
        crate::text::lemma_last_index_of(path@, '.');
    }
    let n = path.unicode_len();
    let dot = match last_index_of(path, '.') {
        Some(d) => d,
        None => {
            return None;
        },
    };
    let mut out = String::new();
    out.append(path.substring_char(0, dot));
    out.append("_");
    out.append(f.name());
    out.append("_");
    out.append(c.name());
    out.append(".");
    out.append(path.substring_char(dot + 1, n));
    proof {
        assert(path@.subrange(0, dot as int) =~= path@.take(dot as int));
        assert(path@.subrange(dot + 1, n as int) =~= path@.skip(dot + 1));
        assert(out@ =~= spec_output_document_path(path@, f, c));
    }
    Some(out)
}

/// Whether a document path names a JSON-format glTF file: it ends in
/// `.gltf`, ignoring ASCII case.
pub open spec fn spec_has_gltf_extension(path: Seq<char>) -> bool {
    path.len() >= 5 && spec_ci_eq(path.skip(path.len() - 5), ".gltf"@)
}

/// Whether a document path names a JSON-format glTF file.
pub fn has_gltf_extension(path: &str) -> (r: bool)
    ensures
        r == spec_has_gltf_extension(path@),
{
    let n = path.unicode_len();
    if n < 5 {
        return false;
    }
    let tail = path.substring_char(n - 5, n);
    proof {
        assert(tail@ =~= path@.skip(path@.len() - 5));
    }
    ci_str_eq(tail, ".gltf")
}

/// Path construction is deterministic: two destination paths built from the
/// same source path and the same target are the same, and likewise for the
/// two output document paths.
pub proof fn lemma_paths_deterministic(
    uri: Seq<char>,
    doc_path: Seq<char>,
    f: CompressionFormat,
    c: ContainerFormat,
    r1: Seq<char>,
    r2: Seq<char>,
    d1: Seq<char>,
    d2: Seq<char>,
)
    requires
        r1 == spec_destination_path(uri, f, c),
        r2 == spec_destination_path(uri, f, c),
        d1 == spec_output_document_path(doc_path, f, c),
        d2 == spec_output_document_path(doc_path, f, c),
    ensures
        r1 == r2,
        d1 == d2,
{
}

} // verus!
