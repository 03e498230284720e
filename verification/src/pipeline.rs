//! The pipeline over one document: every texture crossed with every target
//! of the plan, in strict order. Each pair ends in exactly one recorded
//! state — skipped, compressed or failed — the progress counter advances by
//! one per pair whatever the outcome, and a success rewrites the image of
//! that target's document copy alone.

use crate::compressor::{CompressError, ContainerFormat, TextureType};
use crate::document::{Document, DocumentView, Image};
use crate::gltf::OutputTarget;
use crate::image::{spec_image_format, ImageFormat};
use crate::paths::{destination_path, spec_destination_path};
use vstd::prelude::*;
use vstd::string::StringExecFns;

verus! {

/// Why a texture was not handed to any backend.
#[derive(Clone, Copy, Debug, PartialEq, Eq, Structural)]
pub enum SkipReason {
    /// The image is embedded in a buffer view and has no file of its own.
    ViewSource,
    /// Neither MIME type nor extension names a recognized raster type.
    UnsupportedImageType,
}

/// The terminal state of one texture/target pair.
#[derive(Debug)]
pub enum PairStatus {
    Skipped(SkipReason),
    Compressed,
    Failed(CompressError),
}

/// What the current texture/target pair asks of the caller: nothing, or one
/// call of the named backend.
#[derive(Debug)]
pub enum PairTask {
    Skip(SkipReason),
    Compress {
        backend: crate::Backend,
        texture_type: TextureType,
        format: crate::compressor::CompressionFormat,
        container: ContainerFormat,
        src_path: String,
        dst_path: String,
    },
}

/// The view of an optional string.
pub open spec fn spec_opt_view(o: Option<String>) -> Option<Seq<char>> {
    match o {
        Some(s) => Some(s@),
        None => None,
    }
}

/// The image texture `t` draws from.
pub open spec fn spec_image_of(doc: DocumentView, t: int) -> Image {
    doc.images[doc.textures[t].source as int]
}

/// Whether texture `t` is skipped, and why: an embedded view first, then an
/// unrecognized image type. A skipped texture is skipped for every target.
pub open spec fn spec_skip_reason(doc: DocumentView, t: int) -> Option<SkipReason> {
    let img = spec_image_of(doc, t);
    if img.uri is None {
        Some(SkipReason::ViewSource)
    } else if spec_image_format(spec_opt_view(img.mime_type), Some(img.uri->0@)) is None {
        Some(SkipReason::UnsupportedImageType)
    } else {
        None
    }
}

/// An image rewritten for a success: its URI is the destination path, and
/// its MIME type is `image/ktx2` for the KTX2 container and absent for the
/// Basis container, which has no registered MIME type.
pub open spec fn spec_image_rewritten(img: Image, dst: Seq<char>, c: ContainerFormat) -> bool {
    &&& img.uri is Some && img.uri->0@ == dst
    &&& (c == ContainerFormat::Ktx2 ==> img.mime_type is Some && img.mime_type->0@
        == "image/ktx2"@)
    &&& (c == ContainerFormat::Basis ==> img.mime_type is None)
}

/// One run of the pipeline: the source document, the resolved plan and
/// classes, one document copy per target, and the strictly ordered cursor
/// over texture × target pairs with its progress counter.
#[derive(Debug)]
pub struct Run {
    pub doc: Document,
    pub plan: Vec<OutputTarget>,
    pub classes: Vec<TextureType>,
    pub outputs: Vec<Document>,
    pub outcomes: Vec<PairStatus>,
    pub done: usize,
    pub t: usize,
    pub k: usize,
}

impl Run {
    /// Number of targets of the plan.
    pub open spec fn spec_targets(self) -> int {
        self.plan@.len() as int
    }

    /// Number of textures of the document.
    pub open spec fn spec_textures(self) -> int {
        self.doc@.textures.len() as int
    }

    /// Total units of work: textures × targets.
    pub open spec fn spec_total(self) -> int {
        self.spec_textures() * self.spec_targets()
    }

    /// Whether every pair has been processed.
    pub open spec fn spec_finished(self) -> bool {
        self.t == self.spec_textures()
    }

    /// Well-formedness: the cursor walks the pairs in order, the counter
    /// equals the number of processed pairs, one outcome is recorded per
    /// processed pair, and every output document keeps the source
    /// document's shape.
    pub open spec fn wf(self) -> bool {
        &&& self.doc@.wf()
        &&& self.plan@.len() >= 1
        &&& self.classes@.len() == self.spec_textures()
        &&& self.outputs@.len() == self.plan@.len()
        &&& forall|j: int|
            0 <= j < self.outputs@.len() ==> ((#[trigger] self.outputs@[j])@.materials
                == self.doc@.materials && self.outputs@[j]@.textures == self.doc@.textures
                && self.outputs@[j]@.images.len() == self.doc@.images.len())
        &&& self.t <= self.spec_textures()
        &&& (self.t < self.spec_textures() ==> self.k < self.plan@.len())
        &&& (self.t == self.spec_textures() ==> self.k == 0)
        &&& self.done as int == self.t as int * self.spec_targets() + self.k as int
        &&& self.outcomes@.len() == self.done
        &&& self.spec_total() <= usize::MAX
    }

    /// How one processed pair moves the state on: the cursor advances in
    /// texture-major order, the counter by one, and the request is
    /// untouched.
    pub open spec fn spec_advanced(pre: Run, post: Run) -> bool {
        &&& post.doc == pre.doc
        &&& post.plan == pre.plan
        &&& post.classes == pre.classes
        &&& post.done == pre.done + 1
        &&& if pre.k + 1 < pre.plan@.len() {
            post.t == pre.t && post.k == pre.k + 1
        } else {
            post.t == pre.t + 1 && post.k == 0
        }
    }

    /// Starts a run: one document copy per target, cursor at the first
    /// pair, counter at zero, nothing recorded.
    pub fn new(doc: Document, plan: Vec<OutputTarget>, classes: Vec<TextureType>) -> (r: Run)
        requires
            doc@.wf(),
            plan@.len() >= 1,
            classes@.len() == doc@.textures.len(),
            doc@.textures.len() * plan@.len() <= usize::MAX,
        ensures
            r.wf(),
            r.doc == doc,
            r.plan == plan,
            r.classes == classes,
            r.done == 0,
            r.t == 0,
            r.k == 0,
            r.outcomes@.len() == 0,
            forall|j: int| 0 <= j < plan@.len() ==> (#[trigger] r.outputs@[j])@ == doc@,
    {
        let mut outputs: Vec<Document> = Vec::new();
        let n = plan.len();
        let mut j: usize = 0;
        while j < n
            invariant
                j <= n,
                outputs@.len() == j,
                forall|x: int| 0 <= x < j ==> (#[trigger] outputs@[x])@ == doc@,
            decreases n - j,
        {
            outputs.push(doc.duplicate());
            j = j + 1;
        }
        Run { doc, plan, classes, outputs, outcomes: Vec::new(), done: 0, t: 0, k: 0 }
    }

    /// Whether every pair has been processed.
    pub fn finished(&self) -> (r: bool)
        ensures
            r == self.spec_finished(),
    {
        self.t == self.doc.textures.len()
    }

    /// The total units of work of this run.
    pub fn total_units(&self) -> (r: usize)
        requires
            self.wf(),
        ensures
            r as int == self.spec_total(),
    {
        self.doc.textures.len() * self.plan.len()
    }

    /// What the current pair asks of the caller.
    pub fn current_task(&self) -> (r: PairTask)
        requires
            self.wf(),
            !self.spec_finished(),
        ensures
            spec_task_ok(*self, r),
    {
        let tex = self.doc.textures[self.t];
        let img = &self.doc.images[tex.source];
        match &img.uri {
            None => PairTask::Skip(SkipReason::ViewSource),
            Some(uri) => {
                let mime: Option<&str> = match &img.mime_type {
                    Some(m) => Some(m.as_str()),
                    None => None,
                };
                if ImageFormat::from_mime_or_extension(mime, Some(uri.as_str())).is_none() {
                    PairTask::Skip(SkipReason::UnsupportedImageType)
                } else {
                    let tgt = self.plan[self.k];
                    let dst = destination_path(uri.as_str(), tgt.format, tgt.container);
                    PairTask::Compress {
                        backend: tgt.backend,
                        texture_type: self.classes[self.t],
                        format: tgt.format,
                        container: tgt.container,
                        src_path: uri.clone(),
                        dst_path: dst,
                    }
                }
            },
        }
    }

    /// Records the current pair as skipped for the given reason and
    /// advances.
    pub fn step_skip(&mut self, reason: SkipReason)
        requires
            old(self).wf(),
            !old(self).spec_finished(),
            spec_skip_reason(old(self).doc@, old(self).t as int) == Some(reason),
        ensures
            final(self).wf(),
            Run::spec_advanced(*old(self), *final(self)),
            final(self).outputs == old(self).outputs,
            final(self).outcomes@ == old(self).outcomes@.push(PairStatus::Skipped(reason)),
    {
        self.outcomes.push(PairStatus::Skipped(reason));
        self.bump();
    }

    /// Records the current pair as failed with the given error and
    /// advances; the run continues with the next pair.
    pub fn step_failed(&mut self, error: CompressError)
        requires
            old(self).wf(),
            !old(self).spec_finished(),
            spec_skip_reason(old(self).doc@, old(self).t as int) is None,
        ensures
            final(self).wf(),
            Run::spec_advanced(*old(self), *final(self)),
            final(self).outputs == old(self).outputs,
            final(self).outcomes@ == old(self).outcomes@.push(PairStatus::Failed(error)),
    {
        self.outcomes.push(PairStatus::Failed(error));
        self.bump();
    }

    /// Records the current pair as compressed and advances, rewriting the
    /// texture's image in this target's document copy — and in no other —
    /// to point at the destination file.
    pub fn step_compressed(&mut self)
        requires
            old(self).wf(),
            !old(self).spec_finished(),
            spec_skip_reason(old(self).doc@, old(self).t as int) is None,
        ensures
            final(self).wf(),
            Run::spec_advanced(*old(self), *final(self)),
            final(self).outcomes@ == old(self).outcomes@.push(PairStatus::Compressed),
            final(self).outputs@.len() == old(self).outputs@.len(),
            forall|j: int|
                0 <= j < old(self).outputs@.len() && j != old(self).k as int
                    ==> final(self).outputs@[j] == old(self).outputs@[j],
            ({
                let img_i = old(self).doc@.textures[old(self).t as int].source as int;
                let tgt = old(self).plan@[old(self).k as int];
                let pre = old(self).outputs@[old(self).k as int]@;
                let post = final(self).outputs@[old(self).k as int]@;
                &&& post.materials == pre.materials
                &&& post.textures == pre.textures
                &&& post.images.len() == pre.images.len()
                &&& (forall|i: int|
                    0 <= i < pre.images.len() && i != img_i ==> post.images[i] == pre.images[i])
                &&& spec_image_rewritten(
                    post.images[img_i],
                    spec_destination_path(
                        spec_image_of(old(self).doc@, old(self).t as int).uri->0@,
                        tgt.format,
                        tgt.container,
                    ),
                    tgt.container,
                )
            }),
    {
        let tex = self.doc.textures[self.t];
        let uri = match &self.doc.images[tex.source].uri {
            Some(u) => u.clone(),
            None => {
                proof {
                    assert(false);
                }
                String::new()
            },
        };
        let tgt = self.plan[self.k];
        let dst = destination_path(uri.as_str(), tgt.format, tgt.container);
        let mime = match tgt.container {
            ContainerFormat::Ktx2 => Some(String::from_str("image/ktx2")),
            ContainerFormat::Basis => None,
        };
        let rewritten = Image { uri: Some(dst), mime_type: mime };
        self.outputs[self.k].images[tex.source] = rewritten;
        self.outcomes.push(PairStatus::Compressed);
        self.bump();
    }

    /// Advances the cursor by one pair and the counter by one.
    fn bump(&mut self)
        requires
            old(self).plan@.len() >= 1,
            old(self).t < old(self).doc@.textures.len(),
            old(self).k < old(self).plan@.len(),
            old(self).done as int
                == old(self).t as int * old(self).plan@.len() + old(self).k as int,
            old(self).spec_total() <= usize::MAX,
        ensures
            final(self).doc == old(self).doc,
            final(self).plan == old(self).plan,
            final(self).classes == old(self).classes,
            final(self).outputs == old(self).outputs,
            final(self).outcomes == old(self).outcomes,
            final(self).done == old(self).done + 1,
            if old(self).k + 1 < old(self).plan@.len() {
                final(self).t == old(self).t && final(self).k == old(self).k + 1
            } else {
                final(self).t == old(self).t + 1 && final(self).k == 0
            },
            final(self).done as int
                == final(self).t as int * final(self).plan@.len() + final(self).k as int,
            final(self).t <= final(self).doc@.textures.len(),
            final(self).t < final(self).doc@.textures.len()
                ==> final(self).k < final(self).plan@.len(),
            final(self).t == final(self).doc@.textures.len() ==> final(self).k == 0,
    {
        proof {
            let t = old(self).t as int;
            let k = old(self).k as int;
            let bt = old(self).doc@.textures.len() as int;
            let bk = old(self).plan@.len() as int;
            assert(t * bk + k + 1 <= bt * bk) by (nonlinear_arith)
                requires
                    0 <= t,
                    0 <= k,
                    t < bt,
                    k < bk,
            ;
        }
        self.done = self.done + 1;
        if self.k + 1 < self.plan.len() {
            self.k = self.k + 1;
        } else {
            proof {
                let t = old(self).t as int;
                let bk = old(self).plan@.len() as int;
                assert((t + 1) * bk == t * bk + bk) by (nonlinear_arith);
            }
            let texture_count = self.doc.textures.len();
            proof {
                assert(old(self).t < texture_count);
            }
            self.k = 0;
            self.t = self.t + 1;
        }
    }
}

/// Whether a task is the right one for the current pair of a run: the skip
/// the document dictates, or a compression of the current texture for the
/// current target, with the texture's class, the image's URI as source, and
/// the destination path built from it.
pub open spec fn spec_task_ok(run: Run, r: PairTask) -> bool {
    let reason = spec_skip_reason(run.doc@, run.t as int);
    match r {
        PairTask::Skip(s) => reason == Some(s),
        PairTask::Compress { backend, texture_type, format, container, src_path, dst_path } => {
            let tgt = run.plan@[run.k as int];
            &&& reason is None
            &&& backend == tgt.backend
            &&& format == tgt.format
            &&& container == tgt.container
            &&& texture_type == run.classes@[run.t as int]
            &&& src_path@ == spec_image_of(run.doc@, run.t as int).uri->0@
            &&& dst_path@ == spec_destination_path(src_path@, tgt.format, tgt.container)
        },
    }
}

/// Progress law: a finished run's counter holds exactly textures × targets,
/// with one recorded outcome per pair, however many pairs were skipped or
/// failed.
pub proof fn lemma_progress_reaches_total(run: Run)
    requires
        run.wf(),
        run.spec_finished(),
    ensures
        run.done as int == run.spec_total(),
        run.outcomes@.len() == run.spec_total(),
{
}

} // verus!
