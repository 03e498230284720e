use klafsa::basisu::Basisu;
use klafsa::document::{classify_textures, Document, Image, Material, Texture};
use klafsa::gltf::Gltf;
use klafsa::kram::Kram;
use klafsa::pipeline::{PairStatus, PairTask, Run, SkipReason};
use klafsa::registry::Registry;
use klafsa::toktx::Toktx;
use klafsa::{
    Backend, CompressError, CompressionFormat, Compressor, ContainerFormat, TextureType,
};

fn basisu() -> Basisu {
    Basisu { cli_path: String::from("basisu") }
}

fn kram() -> Kram {
    Kram { cli_path: String::from("kram") }
}

fn toktx() -> Toktx {
    Toktx { cli_path: String::from("toktx") }
}

fn args_of(v: &klafsa::Invocation) -> Vec<&str> {
    v.args.iter().map(|s| s.as_str()).collect()
}

#[test]
fn basisu_args_etc1s_basis_srgb() {
    let inv = basisu()
        .compress(
            ".",
            "img.png",
            "etc1s_basis/img_etc1s.basis",
            TextureType::Srgb,
            CompressionFormat::Etc1s,
            ContainerFormat::Basis,
        )
        .unwrap();
    assert_eq!(inv.program, "basisu");
    assert_eq!(inv.working_dir, ".");
    assert_eq!(
        args_of(&inv),
        vec![
            "img.png",
            "-output_file",
            "etc1s_basis/img_etc1s.basis",
            "-mipmap",
            "-mip_fast",
            "-mip_srgb",
        ]
    );
}

#[test]
fn basisu_args_uastc_ktx2_normal_map() {
    let inv = basisu()
        .compress(
            ".",
            "n.png",
            "out.ktx2",
            TextureType::NormalMap,
            CompressionFormat::Uastc,
            ContainerFormat::Ktx2,
        )
        .unwrap();
    assert_eq!(
        args_of(&inv),
        vec![
            "n.png",
            "-output_file",
            "out.ktx2",
            "-mipmap",
            "-mip_fast",
            "-uastc",
            "-ktx2",
            "-normal_map",
            "-linear",
            "-mip_linear",
        ]
    );
}

#[test]
fn basisu_rejects_foreign_formats() {
    let r = basisu().compress(
        ".",
        "img.png",
        "out.ktx2",
        TextureType::Srgb,
        CompressionFormat::Bc7,
        ContainerFormat::Ktx2,
    );
    assert!(matches!(r, Err(CompressError::UnsupportedCombination)));
}

#[test]
fn kram_args_bc7_srgb() {
    let inv = kram()
        .compress(
            ".",
            "img.png",
            "bc7_ktx2/img_bc7.ktx2",
            TextureType::Srgb,
            CompressionFormat::Bc7,
            ContainerFormat::Ktx2,
        )
        .unwrap();
    assert_eq!(
        args_of(&inv),
        vec![
            "encode",
            "-input",
            "img.png",
            "-output",
            "bc7_ktx2/img_bc7.ktx2",
            "-mipmin",
            "1",
            "-zstd",
            "0",
            "-format",
            "bc7",
            "-encoder",
            "bcenc",
            "-srgb",
        ]
    );
}

#[test]
fn kram_args_astc_normal_map_swizzles() {
    let inv = kram()
        .compress(
            ".",
            "n.png",
            "out.ktx2",
            TextureType::NormalMap,
            CompressionFormat::Astc4x4,
            ContainerFormat::Ktx2,
        )
        .unwrap();
    assert_eq!(
        args_of(&inv),
        vec![
            "encode",
            "-input",
            "n.png",
            "-output",
            "out.ktx2",
            "-mipmin",
            "1",
            "-zstd",
            "0",
            "-format",
            "astc4x4",
            "-encoder",
            "astcenc",
            "-normal",
            "-swizzle",
            "rrrg",
        ]
    );
}

#[test]
fn kram_args_linear_has_no_transfer_flag() {
    let inv = kram()
        .compress(
            ".",
            "l.png",
            "out.ktx2",
            TextureType::Linear,
            CompressionFormat::Etc2rg,
            ContainerFormat::Ktx2,
        )
        .unwrap();
    assert_eq!(
        args_of(&inv),
        vec![
            "encode",
            "-input",
            "l.png",
            "-output",
            "out.ktx2",
            "-mipmin",
            "1",
            "-zstd",
            "0",
            "-format",
            "etc2rg",
            "-encoder",
            "etcenc",
        ]
    );
}

#[test]
fn kram_rejects_basis_container() {
    let r = kram().compress(
        ".",
        "img.png",
        "out.basis",
        TextureType::Srgb,
        CompressionFormat::Bc7,
        ContainerFormat::Basis,
    );
    assert!(matches!(r, Err(CompressError::UnsupportedCombination)));
}

#[test]
fn toktx_args_astc_linear() {
    let inv = toktx()
        .compress(
            ".",
            "img.png",
            "out.ktx2",
            TextureType::Linear,
            CompressionFormat::Astc,
            ContainerFormat::Ktx2,
        )
        .unwrap();
    assert_eq!(
        args_of(&inv),
        vec![
            "--assign_oetf",
            "linear",
            "--2d",
            "--genmipmap",
            "--encode",
            "astc",
            "--t2",
            "--zcmp",
            "18",
            "out.ktx2",
            "img.png",
        ]
    );
}

#[test]
fn toktx_args_etc1s_without_supercompression() {
    let inv = toktx()
        .compress(
            ".",
            "img.png",
            "out.ktx2",
            TextureType::Srgb,
            CompressionFormat::Etc1s,
            ContainerFormat::Ktx2,
        )
        .unwrap();
    assert_eq!(
        args_of(&inv),
        vec![
            "--assign_oetf",
            "srgb",
            "--2d",
            "--genmipmap",
            "--encode",
            "etc1s",
            "--t2",
            "out.ktx2",
            "img.png",
        ]
    );
}

#[test]
fn toktx_rejects_bc7_and_basis() {
    let t = toktx();
    assert!(matches!(
        t.compress(
            ".",
            "i.png",
            "o.ktx2",
            TextureType::Srgb,
            CompressionFormat::Bc7,
            ContainerFormat::Ktx2
        ),
        Err(CompressError::UnsupportedCombination)
    ));
    assert!(matches!(
        t.compress(
            ".",
            "i.png",
            "o.basis",
            TextureType::Srgb,
            CompressionFormat::Etc1s,
            ContainerFormat::Basis
        ),
        Err(CompressError::UnsupportedCombination)
    ));
}

#[test]
fn registry_plan_needs_names_only_planned_backends() {
    let plan = Gltf { file_path: String::from("scene.gltf"), compress_to_all: true }
        .resolve_plan(CompressionFormat::Uastc, ContainerFormat::Ktx2, Backend::Toktx);
    assert!(Registry::plan_needs(&plan, Backend::Basisu));
    assert!(Registry::plan_needs(&plan, Backend::Kram));
    // No format of the sweep resolves to toktx.
    assert!(!Registry::plan_needs(&plan, Backend::Toktx));
}

#[test]
fn registry_build_constructs_exactly_the_needed_backends() {
    let gltf = Gltf { file_path: String::from("scene.gltf"), compress_to_all: false };
    let plan = gltf.resolve_plan(CompressionFormat::Bc7, ContainerFormat::Ktx2, Backend::Kram);
    match gltf.get_compressors(&plan) {
        Ok(reg) => {
            assert!(reg.kram.is_some());
            assert!(reg.basisu.is_none());
            assert!(reg.toktx.is_none());
        },
        Err(klafsa::BackendError::Unavailable(b)) => {
            // The kram tool is absent on this machine; the failing backend
            // must be one the plan needs.
            assert_eq!(b, Backend::Kram);
        },
    }
}

#[test]
fn registry_dispatches_by_backend() {
    let reg = Registry { basisu: Some(basisu()), kram: None, toktx: None };
    let inv = reg
        .compress_with(
            Backend::Basisu,
            ".",
            "img.png",
            "out.basis",
            TextureType::Srgb,
            CompressionFormat::Etc1s,
            ContainerFormat::Basis,
        )
        .unwrap();
    assert_eq!(inv.program, "basisu");
}

fn uri_image(uri: &str, mime: Option<&str>) -> Image {
    Image { uri: Some(String::from(uri)), mime_type: mime.map(String::from) }
}

fn view_image() -> Image {
    Image { uri: None, mime_type: Some(String::from("image/png")) }
}

/// Drives a run to its end, reporting `ok` for every compress task.
fn drive(run: &mut Run, ok: bool) {
    while !run.finished() {
        match run.current_task() {
            PairTask::Skip(reason) => run.step_skip(reason),
            PairTask::Compress { .. } => {
                if ok {
                    run.step_compressed();
                } else {
                    run.step_failed(CompressError::UnsupportedCombination);
                }
            },
        }
    }
}

#[test]
fn unsupported_pair_fails_every_unit_and_leaves_documents_unchanged() {
    // Single-format request (BC7, KTX2) on a backend that accepts neither:
    // every texture/target pair fails, the run still completes, and the
    // output document keeps the original image URI.
    let gltf = Gltf { file_path: String::from("scene.gltf"), compress_to_all: false };
    let plan = gltf.resolve_plan(CompressionFormat::Bc7, ContainerFormat::Ktx2, Backend::Basisu);
    let doc = Document {
        materials: vec![],
        textures: vec![Texture { source: 0 }, Texture { source: 1 }],
        images: vec![uri_image("foo.png", None), uri_image("bar.jpeg", None)],
    };
    let classes = classify_textures(&doc.materials, doc.textures.len());
    let reg = Registry { basisu: Some(basisu()), kram: None, toktx: None };
    let mut run = Run::new(doc, plan, classes);
    while !run.finished() {
        match run.current_task() {
            PairTask::Skip(reason) => run.step_skip(reason),
            PairTask::Compress { backend, texture_type, format, container, src_path, dst_path } => {
                match reg.compress_with(
                    backend,
                    ".",
                    src_path.as_str(),
                    dst_path.as_str(),
                    texture_type,
                    format,
                    container,
                ) {
                    Ok(_) => run.step_compressed(),
                    Err(e) => run.step_failed(e),
                }
            },
        }
    }
    assert_eq!(run.done, 2);
    assert_eq!(run.outcomes.len(), 2);
    for outcome in &run.outcomes {
        assert!(matches!(outcome, PairStatus::Failed(CompressError::UnsupportedCombination)));
    }
    assert_eq!(run.outputs.len(), 1);
    assert_eq!(run.outputs[0].images[0].uri.as_deref(), Some("foo.png"));
    assert_eq!(run.outputs[0].images[0].mime_type, None);
    assert_eq!(run.outputs[0].images[1].uri.as_deref(), Some("bar.jpeg"));
}

#[test]
fn progress_reaches_textures_times_targets_with_mixed_outcomes() {
    let gltf = Gltf { file_path: String::from("scene.gltf"), compress_to_all: true };
    let plan = gltf.resolve_plan(CompressionFormat::Uastc, ContainerFormat::Ktx2, Backend::Basisu);
    let doc = Document {
        materials: vec![],
        textures: vec![Texture { source: 0 }, Texture { source: 1 }, Texture { source: 2 }],
        images: vec![
            view_image(),
            uri_image("a.png", None),
            uri_image("b.webp", None),
        ],
    };
    let classes = classify_textures(&doc.materials, doc.textures.len());
    let mut run = Run::new(doc, plan, classes);
    assert_eq!(run.total_units(), 36);
    drive(&mut run, false);
    assert_eq!(run.done, 36);
    assert_eq!(run.outcomes.len(), 36);
    for (i, outcome) in run.outcomes.iter().enumerate() {
        let expected = match i / 12 {
            0 => matches!(outcome, PairStatus::Skipped(SkipReason::ViewSource)),
            1 => matches!(outcome, PairStatus::Failed(_)),
            _ => matches!(outcome, PairStatus::Skipped(SkipReason::UnsupportedImageType)),
        };
        assert!(expected);
    }
}

#[test]
fn success_rewrites_only_that_targets_document() {
    let gltf = Gltf { file_path: String::from("scene.gltf"), compress_to_all: true };
    let plan = gltf.resolve_plan(CompressionFormat::Uastc, ContainerFormat::Ktx2, Backend::Basisu);
    let doc = Document {
        materials: vec![],
        textures: vec![Texture { source: 0 }],
        images: vec![uri_image("foo.png", Some("image/png"))],
    };
    let classes = classify_textures(&doc.materials, doc.textures.len());
    let mut run = Run::new(doc, plan, classes);
    // Report success for the first target of the sweep only.
    let mut first = true;
    while !run.finished() {
        match run.current_task() {
            PairTask::Skip(reason) => run.step_skip(reason),
            PairTask::Compress { .. } => {
                if first {
                    run.step_compressed();
                    first = false;
                } else {
                    run.step_failed(CompressError::ExecutionFailed(String::from("exit 1")));
                }
            },
        }
    }
    // First target of the sweep is ASTC 4x4 in KTX2.
    assert_eq!(
        run.outputs[0].images[0].uri.as_deref(),
        Some("astc4x4_ktx2/foo_astc4x4.ktx2")
    );
    assert_eq!(run.outputs[0].images[0].mime_type.as_deref(), Some("image/ktx2"));
    for j in 1..run.outputs.len() {
        assert_eq!(run.outputs[j].images[0].uri.as_deref(), Some("foo.png"));
        assert_eq!(run.outputs[j].images[0].mime_type.as_deref(), Some("image/png"));
    }
    // The source document itself is never rewritten.
    assert_eq!(run.doc.images[0].uri.as_deref(), Some("foo.png"));
}

#[test]
fn basis_container_success_clears_the_mime_type() {
    let gltf = Gltf { file_path: String::from("scene.gltf"), compress_to_all: false };
    let plan = gltf.resolve_plan(CompressionFormat::Etc1s, ContainerFormat::Basis, Backend::Basisu);
    let doc = Document {
        materials: vec![],
        textures: vec![Texture { source: 0 }],
        images: vec![uri_image("foo.png", Some("image/png"))],
    };
    let classes = classify_textures(&doc.materials, doc.textures.len());
    let mut run = Run::new(doc, plan, classes);
    drive(&mut run, true);
    assert_eq!(
        run.outputs[0].images[0].uri.as_deref(),
        Some("etc1s_basis/foo_etc1s.basis")
    );
    assert_eq!(run.outputs[0].images[0].mime_type, None);
    assert!(matches!(run.outcomes[0], PairStatus::Compressed));
}

#[test]
fn view_source_texture_is_skipped_for_every_target() {
    let gltf = Gltf { file_path: String::from("scene.gltf"), compress_to_all: false };
    let plan = gltf.resolve_plan(CompressionFormat::Uastc, ContainerFormat::Ktx2, Backend::Basisu);
    let doc = Document {
        materials: vec![],
        textures: vec![Texture { source: 0 }],
        images: vec![view_image()],
    };
    let classes = classify_textures(&doc.materials, doc.textures.len());
    let mut run = Run::new(doc, plan, classes);
    match run.current_task() {
        PairTask::Skip(reason) => assert_eq!(reason, SkipReason::ViewSource),
        PairTask::Compress { .. } => panic!("a view-source texture must be skipped"),
    }
    drive(&mut run, true);
    assert!(matches!(run.outcomes[0], PairStatus::Skipped(SkipReason::ViewSource)));
}

#[test]
fn empty_document_finishes_with_zero_units() {
    let gltf = Gltf { file_path: String::from("scene.gltf"), compress_to_all: false };
    let plan = gltf.resolve_plan(CompressionFormat::Uastc, ContainerFormat::Ktx2, Backend::Basisu);
    let doc = Document { materials: vec![], textures: vec![], images: vec![] };
    let classes = classify_textures(&doc.materials, 0);
    let mut run = Run::new(doc, plan, classes);
    assert!(run.finished());
    assert_eq!(run.total_units(), 0);
    drive(&mut run, true);
    assert_eq!(run.done, 0);
    assert!(run.outcomes.is_empty());
}

#[test]
fn compress_task_carries_class_and_paths() {
    let gltf = Gltf { file_path: String::from("scene.gltf"), compress_to_all: false };
    let plan = gltf.resolve_plan(CompressionFormat::Bc5, ContainerFormat::Ktx2, Backend::Kram);
    let doc = Document {
        materials: vec![Material {
            normal_texture: Some(0),
            occlusion_texture: None,
            metallic_roughness_texture: None,
        }],
        textures: vec![Texture { source: 0 }],
        images: vec![uri_image("maps/n.png", None)],
    };
    let classes = classify_textures(&doc.materials, doc.textures.len());
    let run = Run::new(doc, plan, classes);
    match run.current_task() {
        PairTask::Compress { backend, texture_type, format, container, src_path, dst_path } => {
            assert_eq!(backend, Backend::Kram);
            assert_eq!(texture_type, TextureType::NormalMap);
            assert_eq!(format, CompressionFormat::Bc5);
            assert_eq!(container, ContainerFormat::Ktx2);
            assert_eq!(src_path, "maps/n.png");
            assert_eq!(dst_path, "maps/bc5_ktx2/n_bc5.ktx2");
        },
        PairTask::Skip(_) => panic!("a plain PNG texture must not be skipped"),
    }
}
