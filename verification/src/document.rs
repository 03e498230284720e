//! In-memory model of the parts of a glTF document this pipeline reads and
//! rewrites: the material texture slots, the texture-to-image links, and the
//! image URIs and MIME types. The texture classifier lives here too.

use crate::compressor::TextureType;
use vstd::prelude::*;

verus! {

/// One material's texture slots relevant to classification, each an index
/// into the document's texture list.
#[derive(Clone, Copy, Debug, PartialEq, Eq, Structural)]
pub struct Material {
    pub normal_texture: Option<usize>,
    pub occlusion_texture: Option<usize>,
    pub metallic_roughness_texture: Option<usize>,
}

/// One texture: an index into the document's image list.
#[derive(Clone, Copy, Debug, PartialEq, Eq, Structural)]
pub struct Texture {
    pub source: usize,
}

/// One image. A `None` URI stands for an image embedded in a buffer view,
/// which this pipeline cannot process. The URI and the MIME type are the
/// only fields of a document the pipeline rewrites.
#[derive(Debug)]
pub struct Image {
    pub uri: Option<String>,
    pub mime_type: Option<String>,
}

/// The document parts the pipeline works on.
#[derive(Debug)]
pub struct Document {
    pub materials: Vec<Material>,
    pub textures: Vec<Texture>,
    pub images: Vec<Image>,
}

/// Mathematical content of a document.
pub ghost struct DocumentView {
    pub materials: Seq<Material>,
    pub textures: Seq<Texture>,
    pub images: Seq<Image>,
}

impl View for Document {
    type V = DocumentView;

    open spec fn view(&self) -> DocumentView {
        DocumentView {
            materials: self.materials@,
            textures: self.textures@,
            images: self.images@,
        }
    }
}

impl DocumentView {
    /// Every texture points at an image of the document.
    pub open spec fn wf(self) -> bool {
        forall|t: int|
            0 <= t < self.textures.len() ==> (#[trigger] self.textures[t]).source
                < self.images.len()
    }
}

impl Image {
    /// A field-for-field copy of this image.
    pub fn duplicate(&self) -> (r: Image)
        ensures
            r == *self,
    {
        Image {
            uri: match &self.uri {
                Some(u) => Some(u.clone()),
                None => None,
            },
            mime_type: match &self.mime_type {
                Some(m) => Some(m.clone()),
                None => None,
            },
        }
    }
}

impl Document {
    /// A copy of this document with the same content; the pipeline takes one
    /// per output target, so rewrites never cross targets.
    pub fn duplicate(&self) -> (r: Document)
        ensures
            r@ == self@,
    {
        let mut materials: Vec<Material> = Vec::new();
        let mut i: usize = 0;
        while i < self.materials.len()
            invariant
                i <= self.materials.len(),
                materials@ =~= self.materials@.take(i as int),
            decreases self.materials.len() - i,
        {
            materials.push(self.materials[i]);
            i = i + 1;
        }
        let mut textures: Vec<Texture> = Vec::new();
        let mut j: usize = 0;
        while j < self.textures.len()
            invariant
                j <= self.textures.len(),
                textures@ =~= self.textures@.take(j as int),
            decreases self.textures.len() - j,
        {
            textures.push(self.textures[j]);
            j = j + 1;
        }
        let mut images: Vec<Image> = Vec::new();
        let mut k: usize = 0;
        while k < self.images.len()
            invariant
                k <= self.images.len(),
                images@ =~= self.images@.take(k as int),
            decreases self.images.len() - k,
        {
            images.push(self.images[k].duplicate());
            k = k + 1;
        }
        proof {
            assert(materials@ =~= self.materials@);
            assert(textures@ =~= self.textures@);
            assert(images@ =~= self.images@);
        }
        Document { materials, textures, images }
    }
}

/// Whether one material references texture `t` as occlusion or as
/// metallic-roughness: the linear-data slots.
pub open spec fn spec_material_links_linear(m: Material, t: usize) -> bool {
    m.occlusion_texture == Some(t) || m.metallic_roughness_texture == Some(t)
}

/// Whether one material references texture `t` as its normal map.
pub open spec fn spec_material_links_normal(m: Material, t: usize) -> bool {
    m.normal_texture == Some(t)
}

/// Whether any material references texture `t` in a linear-data slot.
pub open spec fn spec_referenced_linear(materials: Seq<Material>, t: usize) -> bool {
    exists|i: int|
        0 <= i < materials.len() && spec_material_links_linear(#[trigger] materials[i], t)
}

/// Whether any material references texture `t` as a normal map.
pub open spec fn spec_referenced_normal(materials: Seq<Material>, t: usize) -> bool {
    exists|i: int|
        0 <= i < materials.len() && spec_material_links_normal(#[trigger] materials[i], t)
}

/// The usage class of texture `t`: a linear-data reference wins over a
/// normal-map reference, and a texture no material references is color data.
pub open spec fn spec_texture_class(materials: Seq<Material>, t: usize) -> TextureType {
    if spec_referenced_linear(materials, t) {
        TextureType::Linear
    } else if spec_referenced_normal(materials, t) {
        TextureType::NormalMap
    } else {
        TextureType::Srgb
    }
}

/// Classifies one texture by scanning every material once.
pub fn classify_texture(materials: &Vec<Material>, t: usize) -> (r: TextureType)
    ensures
        r == spec_texture_class(materials@, t),
{
    let mut linear = false;
    let mut normal = false;
    let mut i: usize = 0;
    while i < materials.len()
        invariant
            i <= materials.len(),
            linear == spec_referenced_linear(materials@.take(i as int), t),
            normal == spec_referenced_normal(materials@.take(i as int), t),
        decreases materials.len() - i,
    {
        let m = materials[i];
        let links_linear = match m.occlusion_texture {
            Some(x) => x == t,
            None => false,
        } || match m.metallic_roughness_texture {
            Some(x) => x == t,
            None => false,
        };
        let links_normal = match m.normal_texture {
            Some(x) => x == t,
            None => false,
        };
        proof {
            assert(materials@.take(i + 1).drop_last() =~= materials@.take(i as int));
            assert(materials@.take(i + 1).last() == materials@[i as int]);
            assert(links_linear == spec_material_links_linear(materials@[i as int], t));
            assert(links_linear || linear == spec_referenced_linear(
                materials@.take(i + 1),
                t,
            )) by {
                let s = materials@.take(i + 1);
                if links_linear {
                    assert(spec_material_links_linear(s[i as int], t));
                } else if linear {
                    let w = choose|w: int|
                        0 <= w < i && spec_material_links_linear(
                            #[trigger] materials@.take(i as int)[w],
                            t,
                        );
                    assert(spec_material_links_linear(s[w], t));
                } else {
                    assert forall|w: int|
                        0 <= w < s.len() implies !spec_material_links_linear(
                        #[trigger] s[w],
                        t,
                    ) by {
                        if w < i {
                            assert(s[w] == materials@.take(i as int)[w]);
                        }
                    }
                }
            }
            assert(links_normal || normal == spec_referenced_normal(
                materials@.take(i + 1),
                t,
            )) by {
                let s = materials@.take(i + 1);
                if links_normal {
                    assert(spec_material_links_normal(s[i as int], t));
                } else if normal {
                    let w = choose|w: int|
                        0 <= w < i && spec_material_links_normal(
                            #[trigger] materials@.take(i as int)[w],
                            t,
                        );
                    assert(spec_material_links_normal(s[w], t));
                } else {
                    assert forall|w: int|
                        0 <= w < s.len() implies !spec_material_links_normal(
                        #[trigger] s[w],
                        t,
                    ) by {
                        if w < i {
                            assert(s[w] == materials@.take(i as int)[w]);
                        }
                    }
                }
            }
        }
        linear = linear || links_linear;
        normal = normal || links_normal;
        i = i + 1;
    }
    proof {
        assert(materials@.take(materials@.len() as int) =~= materials@);
    }
    if linear {
        TextureType::Linear
    } else if normal {
        TextureType::NormalMap
    } else {
        TextureType::Srgb
    }
}

/// Classifies every texture index below `texture_count`: the total mapping
/// from texture index to usage class.
pub fn classify_textures(materials: &Vec<Material>, texture_count: usize) -> (r: Vec<TextureType>)
    ensures
        r@.len() == texture_count,
        forall|t: int|
            0 <= t < texture_count ==> r@[t] == spec_texture_class(materials@, t as usize),
{
    let mut r: Vec<TextureType> = Vec::new();
    let mut t: usize = 0;
    while t < texture_count
        invariant
            t <= texture_count,
            r@.len() == t,
            forall|u: int| 0 <= u < t ==> r@[u] == spec_texture_class(materials@, u as usize),
        decreases texture_count - t,
    {
        r.push(classify_texture(materials, t));
        t = t + 1;
    }
    r
}

/// Precedence law: a texture referenced both as a normal map and in a
/// linear-data slot, in whatever materials, is classified `Linear`.
pub proof fn lemma_linear_precedence(materials: Seq<Material>, t: usize)
    requires
        spec_referenced_linear(materials, t),
        spec_referenced_normal(materials, t),
    ensures
        spec_texture_class(materials, t) == TextureType::Linear,
{
}

/// Default law: a texture no material references in any slot is classified
/// `Srgb`.
pub proof fn lemma_unreferenced_is_srgb(materials: Seq<Material>, t: usize)
    requires
        forall|i: int|
            0 <= i < materials.len() ==> !spec_material_links_linear(#[trigger] materials[i], t)
                && !spec_material_links_normal(materials[i], t),
    ensures
        spec_texture_class(materials, t) == TextureType::Srgb,
{
}

} // verus!
