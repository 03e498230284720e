//! The compressor registry: constructs exactly the backends a format plan
//! needs, fails fast when one of their external tools is missing, and
//! dispatches a texture/target pair to the backend that owns it.

use crate::basisu::{spec_basisu_args, spec_basisu_supports, Basisu};
use crate::compressor::{
    BackendError, CompressError, CompressionFormat, Compressor, ContainerFormat, Invocation,
    TextureType,
};
use crate::gltf::OutputTarget;
use crate::kram::{spec_kram_args, spec_kram_supports, Kram};
use crate::toktx::{spec_toktx_args, spec_toktx_supports, Toktx};
use crate::Backend;
use vstd::prelude::*;

verus! {

/// Whether some target of the plan resolves to backend `b`.
pub open spec fn spec_plan_needs(plan: Seq<OutputTarget>, b: Backend) -> bool {
    exists|i: int| 0 <= i < plan.len() && (#[trigger] plan[i]).backend == b
}

/// The format/container pairs the backend `b` accepts.
pub open spec fn spec_backend_supports(
    b: Backend,
    f: CompressionFormat,
    c: ContainerFormat,
) -> bool {
    match b {
        Backend::Basisu => spec_basisu_supports(f, c),
        Backend::Kram => spec_kram_supports(f, c),
        Backend::Toktx => spec_toktx_supports(f, c),
    }
}

/// The argument list backend `b` hands its tool for an accepted pair.
pub open spec fn spec_backend_args(
    b: Backend,
    tt: TextureType,
    f: CompressionFormat,
    c: ContainerFormat,
    src: Seq<char>,
    dst: Seq<char>,
) -> Seq<Seq<char>> {
    match b {
        Backend::Basisu => spec_basisu_args(tt, f, c, src, dst),
        Backend::Kram => spec_kram_args(tt, f, c, src, dst),
        Backend::Toktx => spec_toktx_args(tt, f, c, src, dst),
    }
}

/// The constructed backends of one run. Only the backends the plan needs
/// are constructed, so a run never demands a tool it will not invoke.
#[derive(Debug)]
pub struct Registry {
    pub basisu: Option<Basisu>,
    pub kram: Option<Kram>,
    pub toktx: Option<Toktx>,
}

impl Registry {
    /// Whether backend `b` was constructed.
    pub open spec fn spec_has(self, b: Backend) -> bool {
        match b {
            Backend::Basisu => self.basisu is Some,
            Backend::Kram => self.kram is Some,
            Backend::Toktx => self.toktx is Some,
        }
    }

    /// The tool path of a constructed backend.
    pub open spec fn spec_program_of(self, b: Backend) -> Seq<char> {
        match b {
            Backend::Basisu => self.basisu->0.cli_path@,
            Backend::Kram => self.kram->0.cli_path@,
            Backend::Toktx => self.toktx->0.cli_path@,
        }
    }

    /// Whether some target of the plan resolves to backend `b`.
    pub fn plan_needs(plan: &Vec<OutputTarget>, b: Backend) -> (r: bool)
        ensures
            r == spec_plan_needs(plan@, b),
    {
        let mut i: usize = 0;
        while i < plan.len()
            invariant
                i <= plan@.len(),
                forall|j: int| 0 <= j < i ==> (#[trigger] plan@[j]).backend != b,
            decreases plan@.len() - i,
        {
            if plan[i].backend == b {
                return true;
            }
            i = i + 1;
        }
        false
    }

    /// Constructs the backends the plan's targets resolve to, and no other;
    /// a tool missing for any needed backend fails the whole construction,
    /// before any texture is touched.
    pub fn build(plan: &Vec<OutputTarget>) -> (r: Result<Registry, BackendError>)
        ensures
            r is Ok ==> forall|b: Backend| #[trigger]
                r->Ok_0.spec_has(b) == spec_plan_needs(plan@, b),
            r is Err ==> spec_plan_needs(plan@, r->Err_0->Unavailable_0),
    {
        let basisu = if Self::plan_needs(plan, Backend::Basisu) {
            match Basisu::new() {
                Ok(x) => Some(x),
                Err(e) => {
                    return Err(e);
                },
            }
        } else {
            None
        };
        let kram = if Self::plan_needs(plan, Backend::Kram) {
            match Kram::new() {
                Ok(x) => Some(x),
                Err(e) => {
                    return Err(e);
                },
            }
        } else {
            None
        };
        let toktx = if Self::plan_needs(plan, Backend::Toktx) {
            match Toktx::new() {
                Ok(x) => Some(x),
                Err(e) => {
                    return Err(e);
                },
            }
        } else {
            None
        };
        Ok(Registry { basisu, kram, toktx })
    }

    /// Dispatches one texture/target pair to the constructed backend that
    /// the target resolves to.
    pub fn compress_with(
        &self,
        backend: Backend,
        working_dir: &str,
        src_path: &str,
        dst_path: &str,
        texture_type: TextureType,
        compression_format: CompressionFormat,
        container_format: ContainerFormat,
    ) -> (r: Result<Invocation, CompressError>)
        requires
            self.spec_has(backend),
        ensures
            r is Ok <==> spec_backend_supports(backend, compression_format, container_format),
            r is Err ==> r->Err_0 is UnsupportedCombination,
            r is Ok ==> (r->Ok_0).program@ == self.spec_program_of(backend) && (
            r->Ok_0).working_dir@ == working_dir@ && (r->Ok_0).args.deep_view()
                == spec_backend_args(
                backend,
                texture_type,
                compression_format,
                container_format,
                src_path@,
                dst_path@,
            ),
    {
        match backend {
            Backend::Basisu => match &self.basisu {
                Some(x) => x.compress(
                    working_dir,
                    src_path,
                    dst_path,
                    texture_type,
                    compression_format,
                    container_format,
                ),
                None => {
                    proof {
                        assert(false);
                    }
                    Err(CompressError::UnsupportedCombination)
                },
            },
            Backend::Kram => match &self.kram {
                Some(x) => x.compress(
                    working_dir,
                    src_path,
                    dst_path,
                    texture_type,
                    compression_format,
                    container_format,
                ),
                None => {
                    proof {
                        assert(false);
                    }
                    Err(CompressError::UnsupportedCombination)
                },
            },
            Backend::Toktx => match &self.toktx {
                Some(x) => x.compress(
                    working_dir,
                    src_path,
                    dst_path,
                    texture_type,
                    compression_format,
                    container_format,
                ),
                None => {
                    proof {
                        assert(false);
                    }
                    Err(CompressError::UnsupportedCombination)
                },
            },
        }
    }
}

} // verus!
