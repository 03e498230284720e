//! The user's request on one glTF document: which codec/container targets to
//! sweep, and the expansion of that request into a concrete format plan.

use crate::compressor::{
    spec_backed_formats, spec_backend, spec_container, BackendError, CompressionFormat,
    ContainerFormat,
};
use crate::registry::{spec_plan_needs, Registry};
use crate::Backend;
use vstd::prelude::*;

verus! {

/// A request to compress the textures of one glTF document.
#[derive(Debug)]
pub struct Gltf {
    /// Path to the JSON-format glTF document.
    pub file_path: String,
    /// Sweep every format a backend owns instead of the one selected format.
    pub compress_to_all: bool,
}

/// One unit of fan-out: a format, the container it is written into, the
/// backend that resolves it, and whether the container was selected
/// explicitly or derived from the format.
#[derive(Clone, Copy, Debug, PartialEq, Eq, Structural)]
pub struct OutputTarget {
    pub format: CompressionFormat,
    pub container: ContainerFormat,
    pub backend: Backend,
    pub explicit_container: bool,
}

/// The target of a compress-to-all sweep for one format: the format's
/// default container and its owning backend.
pub open spec fn spec_target_for(f: CompressionFormat) -> OutputTarget {
    OutputTarget {
        format: f,
        container: spec_container(f),
        backend: spec_backend(f).unwrap(),
        explicit_container: false,
    }
}

/// The resolved format plan: in compress-to-all mode one target per format
/// some backend owns, in declared order, each in its default container; in
/// single-format mode exactly the requested pair on the selected backend.
pub open spec fn spec_plan(
    compress_to_all: bool,
    f: CompressionFormat,
    c: ContainerFormat,
    b: Backend,
) -> Seq<OutputTarget> {
    if compress_to_all {
        spec_backed_formats().map_values(|g: CompressionFormat| spec_target_for(g))
    } else {
        seq![
            OutputTarget { format: f, container: c, backend: b, explicit_container: true },
        ]
    }
}

impl Gltf {
    /// The formats the run sweeps: every format a backend owns, or the one
    /// selected format.
    pub fn get_formats(&self, compression_format: CompressionFormat) -> (r: Vec<CompressionFormat>)
        ensures
            self.compress_to_all ==> r@ == spec_backed_formats(),
            !self.compress_to_all ==> r@ =~= seq![compression_format],
            r@.len() >= 1,
    {
        if self.compress_to_all {
            let mut r: Vec<CompressionFormat> = Vec::new();
            r.push(CompressionFormat::Astc4x4);
            r.push(CompressionFormat::Bc1);
            r.push(CompressionFormat::Bc3);
            r.push(CompressionFormat::Bc4);
            r.push(CompressionFormat::Bc5);
            r.push(CompressionFormat::Bc7);
            r.push(CompressionFormat::Etc1s);
            r.push(CompressionFormat::Etc2r);
            r.push(CompressionFormat::Etc2rg);
            r.push(CompressionFormat::Etc2rgb);
            r.push(CompressionFormat::Etc2rgba);
            r.push(CompressionFormat::Uastc);
            proof {
                assert(r@ =~= spec_backed_formats());
            }
            r
        } else {
            let mut r: Vec<CompressionFormat> = Vec::new();
            r.push(compression_format);
            r
        }
    }

    /// The container one format is written into: its default container in
    /// compress-to-all mode, else the selected container.
    pub fn get_container(
        &self,
        compression_format: CompressionFormat,
        container_format: ContainerFormat,
    ) -> (r: ContainerFormat)
        ensures
            self.compress_to_all ==> r == spec_container(compression_format),
            !self.compress_to_all ==> r == container_format,
    {
        if self.compress_to_all {
            compression_format.container()
        } else {
            container_format
        }
    }

    /// Constructs the backends the resolved plan needs — exactly those its
    /// targets name — failing fast when one of their tools is missing.
    pub fn get_compressors(&self, plan: &Vec<OutputTarget>) -> (r: Result<Registry, BackendError>)
        ensures
            r is Ok ==> forall|b: Backend| #[trigger]
                r->Ok_0.spec_has(b) == spec_plan_needs(plan@, b),
            r is Err ==> spec_plan_needs(plan@, r->Err_0->Unavailable_0),
    {
        Registry::build(plan)
    }

    /// Expands the request into the ordered, non-empty format plan.
    pub fn resolve_plan(
        &self,
        compression_format: CompressionFormat,
        container_format: ContainerFormat,
        backend: Backend,
    ) -> (r: Vec<OutputTarget>)
        ensures
            r@ == spec_plan(self.compress_to_all, compression_format, container_format, backend),
            r@.len() >= 1,
    {
        let formats = self.get_formats(compression_format);
        if self.compress_to_all {
            let mut r: Vec<OutputTarget> = Vec::new();
            let mut i: usize = 0;
            while i < formats.len()
                invariant
                    formats@ == spec_backed_formats(),
                    i <= formats@.len(),
                    r@.len() == i,
                    forall|j: int|
                        0 <= j < i ==> r@[j] == spec_target_for(spec_backed_formats()[j]),
                decreases formats@.len() - i,
            {
                let f = formats[i];
                proof {
                    assert(spec_backend(spec_backed_formats()[i as int]) is Some);
                }
                let b = f.backend().unwrap();
                r.push(
                    OutputTarget {
                        format: f,
                        container: f.container(),
                        backend: b,
                        explicit_container: false,
                    },
                );
                i = i + 1;
            }
            proof {
                assert(r@ =~= spec_plan(
                    self.compress_to_all,
                    compression_format,
                    container_format,
                    backend,
                ));
            }
            r
        } else {
            let mut r: Vec<OutputTarget> = Vec::new();
            r.push(
                OutputTarget {
                    format: compression_format,
                    container: container_format,
                    backend,
                    explicit_container: true,
                },
            );
            proof {
                assert(r@ =~= spec_plan(
                    self.compress_to_all,
                    compression_format,
                    container_format,
                    backend,
                ));
            }
            r
        }
    }
}

/// Sweep law: a compress-to-all plan holds as many targets as there are
/// formats with an owning backend, every ETC1S target is wrapped in Basis,
/// every other target in KTX2, and each target resolves to the backend that
/// owns its format. The selected format, container and backend play no part.
pub proof fn lemma_compress_to_all_plan(f: CompressionFormat, c: ContainerFormat, b: Backend)
    ensures
        spec_plan(true, f, c, b).len() == spec_all_formats_with_backend_count(),
        forall|i: int|
            0 <= i < spec_plan(true, f, c, b).len() ==> {
                let tgt = #[trigger] spec_plan(true, f, c, b)[i];
                &&& (tgt.format == CompressionFormat::Etc1s ==> tgt.container
                    == ContainerFormat::Basis)
                &&& (tgt.format != CompressionFormat::Etc1s ==> tgt.container
                    == ContainerFormat::Ktx2)
                &&& Some(tgt.backend) == spec_backend(tgt.format)
            },
{
    crate::compressor::lemma_backed_formats_are_filtered_formats();
    assert forall|i: int| 0 <= i < spec_plan(true, f, c, b).len() implies {
        let tgt = #[trigger] spec_plan(true, f, c, b)[i];
        &&& (tgt.format == CompressionFormat::Etc1s ==> tgt.container == ContainerFormat::Basis)
        &&& (tgt.format != CompressionFormat::Etc1s ==> tgt.container == ContainerFormat::Ktx2)
        &&& Some(tgt.backend) == spec_backend(tgt.format)
    } by {
        assert(spec_plan(true, f, c, b)[i] == spec_target_for(spec_backed_formats()[i]));
        assert(spec_backend(spec_backed_formats()[i]) is Some);
    }
}

/// The count of formats with an owning backend.
pub open spec fn spec_all_formats_with_backend_count() -> int {
    crate::compressor::spec_all_formats().filter(
        |g: CompressionFormat| spec_backend(g) is Some,
    ).len() as int
}

/// Single-format law: a single-format plan is exactly one target holding
/// the requested format and container as given, whatever backend was
/// selected and whether that backend supports the pair.
pub proof fn lemma_single_format_plan(f: CompressionFormat, c: ContainerFormat, b: Backend)
    ensures
        spec_plan(false, f, c, b).len() == 1,
        spec_plan(false, f, c, b)[0].format == f,
        spec_plan(false, f, c, b)[0].container == c,
        spec_plan(false, f, c, b)[0].backend == b,
{
}

} // verus!
