use klafsa::document::{classify_texture, classify_textures, Material};
use klafsa::gltf::Gltf;
use klafsa::image::ImageFormat;
use klafsa::paths::{destination_path, has_gltf_extension, output_document_path};
use klafsa::{Backend, CompressionFormat, ContainerFormat, TextureType};

fn material(
    normal: Option<usize>,
    occlusion: Option<usize>,
    metallic_roughness: Option<usize>,
) -> Material {
    Material {
        normal_texture: normal,
        occlusion_texture: occlusion,
        metallic_roughness_texture: metallic_roughness,
    }
}

fn gltf(compress_to_all: bool) -> Gltf {
    Gltf { file_path: String::from("scene.gltf"), compress_to_all }
}

#[test]
fn normal_and_occlusion_in_one_material_is_linear() {
    // One material references texture 0 both as its normal map and as its
    // occlusion texture: the linear-data reading wins.
    let materials = vec![material(Some(0), Some(0), None)];
    let classes = classify_textures(&materials, 1);
    assert_eq!(classes, vec![TextureType::Linear]);
}

#[test]
fn normal_in_one_material_and_metallic_roughness_in_another_is_linear() {
    let materials = vec![material(Some(3), None, None), material(None, None, Some(3))];
    assert_eq!(classify_texture(&materials, 3), TextureType::Linear);
}

#[test]
fn unreferenced_texture_is_srgb() {
    let materials = vec![material(Some(0), Some(1), Some(2))];
    assert_eq!(classify_texture(&materials, 7), TextureType::Srgb);
    let no_materials: Vec<Material> = Vec::new();
    assert_eq!(classify_texture(&no_materials, 0), TextureType::Srgb);
}

#[test]
fn normal_only_texture_is_normal_map() {
    let materials = vec![material(Some(2), None, None)];
    assert_eq!(classify_texture(&materials, 2), TextureType::NormalMap);
}

#[test]
fn occlusion_only_texture_is_linear() {
    let materials = vec![material(None, Some(4), None)];
    assert_eq!(classify_texture(&materials, 4), TextureType::Linear);
}

#[test]
fn classify_textures_is_total_over_the_index_space() {
    let materials = vec![material(Some(1), Some(0), None)];
    let classes = classify_textures(&materials, 4);
    assert_eq!(
        classes,
        vec![
            TextureType::Linear,
            TextureType::NormalMap,
            TextureType::Srgb,
            TextureType::Srgb,
        ]
    );
}

#[test]
fn capability_table_backends() {
    assert_eq!(CompressionFormat::Astc.backend(), None);
    assert_eq!(CompressionFormat::Astc4x4.backend(), Some(Backend::Kram));
    assert_eq!(CompressionFormat::Bc7.backend(), Some(Backend::Kram));
    assert_eq!(CompressionFormat::Etc1s.backend(), Some(Backend::Basisu));
    assert_eq!(CompressionFormat::Etc2rgba.backend(), Some(Backend::Kram));
    assert_eq!(CompressionFormat::Uastc.backend(), Some(Backend::Basisu));
}

#[test]
fn capability_table_default_containers() {
    assert_eq!(CompressionFormat::Etc1s.container(), ContainerFormat::Basis);
    assert_eq!(CompressionFormat::Uastc.container(), ContainerFormat::Ktx2);
    assert_eq!(CompressionFormat::Bc7.container(), ContainerFormat::Ktx2);
    assert_eq!(CompressionFormat::Astc.container(), ContainerFormat::Ktx2);
}

#[test]
fn get_formats_single_mode() {
    let formats = gltf(false).get_formats(CompressionFormat::Bc5);
    assert_eq!(formats, vec![CompressionFormat::Bc5]);
}

#[test]
fn get_formats_compress_to_all_sweeps_backed_formats_in_order() {
    let formats = gltf(true).get_formats(CompressionFormat::Bc5);
    assert_eq!(
        formats,
        vec![
            CompressionFormat::Astc4x4,
            CompressionFormat::Bc1,
            CompressionFormat::Bc3,
            CompressionFormat::Bc4,
            CompressionFormat::Bc5,
            CompressionFormat::Bc7,
            CompressionFormat::Etc1s,
            CompressionFormat::Etc2r,
            CompressionFormat::Etc2rg,
            CompressionFormat::Etc2rgb,
            CompressionFormat::Etc2rgba,
            CompressionFormat::Uastc,
        ]
    );
}

#[test]
fn get_container_modes() {
    let single = gltf(false);
    assert_eq!(
        single.get_container(CompressionFormat::Etc1s, ContainerFormat::Ktx2),
        ContainerFormat::Ktx2
    );
    let all = gltf(true);
    assert_eq!(
        all.get_container(CompressionFormat::Etc1s, ContainerFormat::Ktx2),
        ContainerFormat::Basis
    );
    assert_eq!(
        all.get_container(CompressionFormat::Bc7, ContainerFormat::Basis),
        ContainerFormat::Ktx2
    );
}

#[test]
fn compress_to_all_plan_has_one_target_per_backed_format() {
    let plan = gltf(true).resolve_plan(
        CompressionFormat::Bc7,
        ContainerFormat::Basis,
        Backend::Toktx,
    );
    assert_eq!(plan.len(), 12);
    for target in &plan {
        if target.format == CompressionFormat::Etc1s {
            assert_eq!(target.container, ContainerFormat::Basis);
        } else {
            assert_eq!(target.container, ContainerFormat::Ktx2);
        }
        assert_eq!(Some(target.backend), target.format.backend());
        assert!(!target.explicit_container);
    }
}

#[test]
fn single_format_plan_is_the_requested_pair_independent_of_compatibility() {
    // toktx does not accept BC7 at all; the plan still holds the pair.
    let plan = gltf(false).resolve_plan(
        CompressionFormat::Bc7,
        ContainerFormat::Ktx2,
        Backend::Toktx,
    );
    assert_eq!(plan.len(), 1);
    assert_eq!(plan[0].format, CompressionFormat::Bc7);
    assert_eq!(plan[0].container, ContainerFormat::Ktx2);
    assert_eq!(plan[0].backend, Backend::Toktx);
    assert!(plan[0].explicit_container);
}

#[test]
fn destination_path_of_bare_file() {
    let p = destination_path("foo.png", CompressionFormat::Etc1s, ContainerFormat::Basis);
    assert_eq!(p, "etc1s_basis/foo_etc1s.basis");
}

#[test]
fn destination_path_keeps_the_source_directory() {
    let p = destination_path(
        "textures/wood.png",
        CompressionFormat::Bc7,
        ContainerFormat::Ktx2,
    );
    assert_eq!(p, "textures/bc7_ktx2/wood_bc7.ktx2");
}

#[test]
fn destination_path_is_deterministic() {
    let a = destination_path("a/b/c.jpeg", CompressionFormat::Uastc, ContainerFormat::Ktx2);
    let b = destination_path("a/b/c.jpeg", CompressionFormat::Uastc, ContainerFormat::Ktx2);
    assert_eq!(a, b);
}

#[test]
fn output_document_path_for_compress_to_all_etc1s() {
    let p = output_document_path("scene.gltf", CompressionFormat::Etc1s, ContainerFormat::Basis);
    assert_eq!(p.as_deref(), Some("scene_etc1s_basis.gltf"));
}

#[test]
fn output_document_path_keeps_directory_and_extension() {
    let p = output_document_path(
        "assets/scene.gltf",
        CompressionFormat::Uastc,
        ContainerFormat::Ktx2,
    );
    assert_eq!(p.as_deref(), Some("assets/scene_uastc_ktx2.gltf"));
}

#[test]
fn output_document_path_without_extension_is_none() {
    assert!(output_document_path("scene", CompressionFormat::Uastc, ContainerFormat::Ktx2)
        .is_none());
}

#[test]
fn output_document_path_is_deterministic() {
    let a = output_document_path("x/y.gltf", CompressionFormat::Bc1, ContainerFormat::Ktx2);
    let b = output_document_path("x/y.gltf", CompressionFormat::Bc1, ContainerFormat::Ktx2);
    assert_eq!(a, b);
}

#[test]
fn gltf_extension_check_ignores_case() {
    assert!(has_gltf_extension("scene.gltf"));
    assert!(has_gltf_extension("SCENE.GLTF"));
    assert!(has_gltf_extension("dir/model.glTF"));
    assert!(!has_gltf_extension("scene.glb"));
    assert!(!has_gltf_extension("gltf"));
    assert!(!has_gltf_extension(""));
}

#[test]
fn image_format_from_mime() {
    assert_eq!(
        ImageFormat::from_mime_or_extension(Some("image/jpeg"), None),
        Some(ImageFormat::Jpeg)
    );
    assert_eq!(
        ImageFormat::from_mime_or_extension(Some("IMAGE/PNG"), None),
        Some(ImageFormat::Png)
    );
}

#[test]
fn image_format_falls_back_on_extension() {
    assert_eq!(
        ImageFormat::from_mime_or_extension(Some("image/webp"), Some("tex.png")),
        Some(ImageFormat::Png)
    );
    assert_eq!(
        ImageFormat::from_mime_or_extension(None, Some("tex.JPG")),
        Some(ImageFormat::Jpeg)
    );
    assert_eq!(
        ImageFormat::from_mime_or_extension(None, Some("a/b.jpeg")),
        Some(ImageFormat::Jpeg)
    );
}

#[test]
fn image_format_unrecognized_is_none() {
    assert_eq!(ImageFormat::from_mime_or_extension(None, Some("tex.webp")), None);
    assert_eq!(ImageFormat::from_mime_or_extension(None, Some("noextension")), None);
    assert_eq!(ImageFormat::from_mime_or_extension(Some("text/plain"), None), None);
    assert_eq!(ImageFormat::from_mime_or_extension(None, None), None);
}
