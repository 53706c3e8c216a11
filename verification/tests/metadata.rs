use saddle_vat::asset::{
    VatAnimationMode, VatAuxTextureSemantic, VatCoordinateSystem, VatNormalEncoding,
    VatNormalTexture, VatPlaybackSpace, VatPositionEncoding, VatSourceFormat, VatTexturePrecision,
};
use saddle_vat::components::VatLoopMode;
use saddle_vat::float_bits::{F32Bits, Vec3Bits};
use saddle_vat::metadata::{
    accept_metadata, canonical_into_asset, classify_metadata, load_metadata, openvat_into_asset,
    parse_coordinate_system, parse_loop_mode, parse_normal_encoding, parse_playback_space,
    parse_position_encoding, parse_precision, parse_vertex_id_attribute, RawAuxTexture,
    RawBounds, RawCanonicalVatMetadata, RawClip, RawClipEvent, RawNormalTexture,
    RawOpenVatClip, RawOpenVatMetadata, RawOpenVatRemap, RawTexture, VatMetadataKind,
    VatMetadataDocument, VatMetadataLoadError,
};
use saddle_vat::validation::VatValidationError;

fn f(x: f32) -> F32Bits {
    F32Bits::from_bits(x.to_bits())
}

fn v(x: f32, y: f32, z: f32) -> Vec3Bits {
    Vec3Bits::new(f(x), f(y), f(z))
}

fn text(s: &str) -> Option<String> {
    Some(s.to_string())
}

/// The canonical document used by the loader's failure cases: four
/// vertices, two frames, one `idle` clip.
fn small_canonical(precision: &str) -> RawCanonicalVatMetadata {
    RawCanonicalVatMetadata {
        format: text("vertex_animation_texture@1"),
        animation_mode: text("soft_body_fixed_topology"),
        vertex_count: 4,
        frame_count: 2,
        frames_per_second: Some(f(24.0)),
        seconds_per_frame: None,
        decode_bounds: RawBounds { min: v(-1.0, -1.0, -1.0), max: v(1.0, 1.0, 1.0) },
        animation_bounds: None,
        clips: vec![RawClip {
            name: "idle".into(),
            start_frame: 0,
            end_frame: 1,
            default_loop_mode: None,
            events: Vec::new(),
        }],
        position_texture: RawTexture {
            relative_path: None,
            width: 4,
            height: 2,
            rows_per_frame: Some(1),
            precision: text(precision),
        },
        normal_texture: None,
        rotation_texture: None,
        auxiliary_textures: Vec::new(),
        coordinate_system: text("y_up_right_handed"),
        playback_space: text("local"),
        vertex_id_attribute: text("uv1"),
        position_encoding: text("absolute_normalized_bounds"),
    }
}

fn load_canonical(raw: &RawCanonicalVatMetadata) -> Result<saddle_vat::asset::VatAnimationData, VatMetadataLoadError> {
    let reciprocal = match raw.seconds_per_frame {
        Some(spf) => f(1.0 / f32::from_bits(spf.bits)),
        None => F32Bits::zero(),
    };
    let animation = canonical_into_asset(raw, reciprocal)?;
    accept_metadata(animation)
}

fn unsupported_text(error: VatMetadataLoadError) -> String {
    match error {
        VatMetadataLoadError::UnsupportedFormat(text) => text,
        other => panic!("expected an unsupported-format error, got {other:?}"),
    }
}

#[test]
fn unsupported_texture_precision_fails_loudly() {
    let error = load_canonical(&small_canonical("rgb10")).expect_err("unknown precision should fail");
    let message = unsupported_text(error);
    assert!(
        message.contains("unsupported texture precision 'rgb10'"),
        "expected actionable precision error, got: {message}"
    );
}

#[test]
fn missing_separate_normal_descriptor_fails_loudly() {
    let mut raw = small_canonical("png8");
    raw.normal_texture = Some(RawNormalTexture {
        mode: "separate".into(),
        row_offset: None,
        texture: None,
        encoding: text("signed_normalized"),
    });
    let error = load_canonical(&raw).expect_err("missing separate texture descriptor should fail");
    let message = unsupported_text(error);
    assert!(
        message.contains("requires a texture descriptor"),
        "expected actionable missing normal texture error, got: {message}"
    );
}

#[test]
fn unsupported_normal_mode_fails_loudly() {
    let mut raw = small_canonical("png8");
    raw.normal_texture = Some(RawNormalTexture {
        mode: "octahedral".into(),
        row_offset: None,
        texture: None,
        encoding: None,
    });
    let error = load_canonical(&raw).expect_err("unknown normal mode should fail");
    let message = unsupported_text(error);
    assert!(
        message.contains("unsupported normal_texture.mode 'octahedral'"),
        "expected actionable normal mode error, got: {message}"
    );
}

#[test]
fn invalid_position_texture_layout_fails_validation() {
    let mut raw = small_canonical("png8");
    raw.frame_count = 3;
    raw.clips[0].end_frame = 2;
    let error = load_canonical(&raw).expect_err("insufficient position texture height should fail");
    assert_eq!(
        error,
        VatMetadataLoadError::Validation(VatValidationError::InvalidPositionTextureLayout {
            height: 2,
            rows_per_frame: 1,
            frame_count: 3
        })
    );
    let VatMetadataLoadError::Validation(reason) = error else { unreachable!() };
    let message = reason.message();
    assert!(
        message.contains("position texture height/rows_per_frame do not cover all baked frames"),
        "expected actionable position layout error, got: {message}"
    );
}

#[test]
fn canonical_document_normalizes() {
    let mut raw = small_canonical("png8");
    raw.clips[0].default_loop_mode = text("pingpong");
    raw.clips[0].events = vec![RawClipEvent { name: "step".into(), frame: 1 }];
    raw.normal_texture = Some(RawNormalTexture {
        mode: "separate_texture".into(),
        row_offset: None,
        texture: Some(RawTexture {
            relative_path: text("normals.png"),
            width: 4,
            height: 2,
            rows_per_frame: None,
            precision: None,
        }),
        encoding: text("snorm"),
    });
    raw.auxiliary_textures = vec![RawAuxTexture {
        semantic: text("opacity"),
        texture: RawTexture {
            relative_path: None,
            width: 1,
            height: 1,
            rows_per_frame: None,
            precision: text("png16"),
        },
    }];
    let a = load_canonical(&raw).expect("canonical document should load");
    assert_eq!(a.source_format, VatSourceFormat::Canonical);
    assert_eq!(a.animation_mode, VatAnimationMode::SoftBodyFixedTopology);
    assert_eq!((a.vertex_count, a.frame_count), (4, 2));
    assert_eq!(a.frames_per_second.bits, 24.0f32.to_bits());
    assert_eq!(a.animation_bounds_min, v(-1.0, -1.0, -1.0));
    assert_eq!(a.clips.len(), 1);
    assert_eq!(a.clips[0].default_loop_mode, Some(VatLoopMode::PingPong));
    assert_eq!(a.clips[0].events[0].name, "step");
    assert_eq!(a.position_texture.precision, VatTexturePrecision::Png8);
    match &a.normal_texture {
        VatNormalTexture::Separate { texture, encoding } => {
            assert_eq!(*encoding, VatNormalEncoding::SignedNormalized);
            assert_eq!(texture.rows_per_frame, 1);
            assert_eq!(texture.precision, VatTexturePrecision::ExrHalf);
            assert_eq!(texture.relative_path.as_deref(), Some("normals.png"));
        }
        other => panic!("expected a separate normal texture, got {other:?}"),
    }
    assert_eq!(a.auxiliary_textures[0].semantic, VatAuxTextureSemantic::Opacity);
    assert_eq!(a.auxiliary_textures[0].texture.precision, VatTexturePrecision::Png16);
}

#[test]
fn seconds_per_frame_gives_the_frame_rate() {
    let mut raw = small_canonical("png8");
    raw.frames_per_second = Some(f(0.0));
    raw.seconds_per_frame = Some(f(0.04));
    let a = load_canonical(&raw).unwrap();
    assert_eq!(a.frames_per_second.bits, (1.0f32 / 0.04).to_bits());
    raw.seconds_per_frame = Some(f(-1.0));
    assert_eq!(
        load_canonical(&raw),
        Err(VatMetadataLoadError::Validation(VatValidationError::InvalidFramesPerSecond))
    );
}

#[test]
fn animation_bounds_default_to_decode_bounds() {
    let mut raw = small_canonical("png8");
    raw.decode_bounds = RawBounds { min: v(-2.0, 0.0, -2.0), max: v(2.0, 3.0, 2.0) };
    let a = load_canonical(&raw).unwrap();
    assert_eq!(a.animation_bounds_min, v(-2.0, 0.0, -2.0));
    assert_eq!(a.animation_bounds_max, v(2.0, 3.0, 2.0));
    raw.animation_bounds = Some(RawBounds { min: v(-1.0, 0.0, -1.0), max: v(1.0, 1.0, 1.0) });
    let a = load_canonical(&raw).unwrap();
    assert_eq!(a.animation_bounds_max, v(1.0, 1.0, 1.0));
    assert_eq!(a.decode_bounds_max, v(2.0, 3.0, 2.0));
}

#[test]
fn canonical_header_values_are_checked_in_order() {
    let mut raw = small_canonical("png8");
    raw.format = text("vat@2");
    raw.animation_mode = text("rigid");
    assert_eq!(
        unsupported_text(load_canonical(&raw).unwrap_err()),
        "unsupported canonical metadata format 'vat@2'"
    );
    let mut raw = small_canonical("png8");
    raw.animation_mode = text("rigid");
    assert_eq!(
        unsupported_text(load_canonical(&raw).unwrap_err()),
        "unsupported animation_mode 'rigid'"
    );
    let mut raw = small_canonical("png8");
    raw.animation_mode = text("rigid_body");
    assert_eq!(
        load_canonical(&raw),
        Err(VatMetadataLoadError::Validation(VatValidationError::UnsupportedAnimationMode))
    );
    let mut raw = small_canonical("png8");
    raw.coordinate_system = text("x_up");
    assert_eq!(
        load_canonical(&raw),
        Err(VatMetadataLoadError::Validation(VatValidationError::UnsupportedCoordinateSystem(
            "x_up".into()
        )))
    );
    let mut raw = small_canonical("png8");
    raw.clips[0].default_loop_mode = text("bounce");
    assert_eq!(
        unsupported_text(load_canonical(&raw).unwrap_err()),
        "unsupported clip default_loop_mode 'bounce'"
    );
    let mut raw = small_canonical("png8");
    raw.auxiliary_textures = vec![RawAuxTexture {
        semantic: text("glow"),
        texture: RawTexture {
            relative_path: None,
            width: 1,
            height: 1,
            rows_per_frame: None,
            precision: None,
        },
    }];
    assert_eq!(
        unsupported_text(load_canonical(&raw).unwrap_err()),
        "unsupported auxiliary_textures.semantic 'glow'"
    );
}

#[test]
fn missing_required_canonical_fields_are_unsupported() {
    let cases: [(&str, fn(&mut RawCanonicalVatMetadata)); 6] = [
        ("format", |raw| raw.format = None),
        ("animation_mode", |raw| raw.animation_mode = None),
        ("coordinate_system", |raw| raw.coordinate_system = None),
        ("playback_space", |raw| raw.playback_space = None),
        ("vertex_id_attribute", |raw| raw.vertex_id_attribute = None),
        ("position_encoding", |raw| raw.position_encoding = None),
    ];
    for (field, clear) in cases {
        let mut raw = small_canonical("png8");
        clear(&mut raw);
        assert_eq!(
            unsupported_text(load_canonical(&raw).unwrap_err()),
            format!("canonical VAT metadata requires '{field}'")
        );
    }
    let mut raw = small_canonical("png8");
    raw.format = None;
    raw.position_encoding = None;
    assert_eq!(
        unsupported_text(load_canonical(&raw).unwrap_err()),
        "canonical VAT metadata requires 'format'"
    );
}

#[test]
fn absent_optional_fields_take_defaults() {
    let mut raw = small_canonical("png8");
    raw.position_texture.rows_per_frame = None;
    raw.position_texture.precision = None;
    let a = load_canonical(&raw).unwrap();
    assert_eq!(a.animation_bounds_max, a.decode_bounds_max);
    assert_eq!(a.position_texture.rows_per_frame, 1);
    assert_eq!(a.position_texture.precision, VatTexturePrecision::ExrHalf);
    assert_eq!(a.normal_texture, VatNormalTexture::Absent);
}

#[test]
fn value_readers_accept_aliases_and_name_what_they_reject() {
    assert_eq!(parse_loop_mode("clamp"), Ok(VatLoopMode::ClampForever));
    assert_eq!(parse_loop_mode("ping_pong"), Ok(VatLoopMode::PingPong));
    assert_eq!(
        parse_coordinate_system(Some("blender")),
        Ok(VatCoordinateSystem::ZUpRightHanded)
    );
    assert_eq!(parse_coordinate_system(None), Ok(VatCoordinateSystem::YUpRightHanded));
    assert_eq!(parse_playback_space(Some("world")), Ok(VatPlaybackSpace::World));
    assert_eq!(
        unsupported_text(parse_playback_space(Some("screen")).unwrap_err()),
        "unsupported playback_space 'screen'"
    );
    assert_eq!(
        parse_position_encoding(Some("offset")),
        Ok(VatPositionEncoding::OffsetNormalizedBounds)
    );
    assert_eq!(
        unsupported_text(parse_position_encoding(Some("delta")).unwrap_err()),
        "unsupported position_encoding 'delta'"
    );
    assert!(parse_vertex_id_attribute(Some("uv2")).is_ok());
    assert_eq!(
        unsupported_text(parse_vertex_id_attribute(Some("uv3")).unwrap_err()),
        "unsupported vertex_id_attribute 'uv3'"
    );
    assert!(parse_normal_encoding(Some("snorm")).is_ok());
    assert_eq!(
        unsupported_text(parse_normal_encoding(Some("unorm")).unwrap_err()),
        "unsupported normal_texture.encoding 'unorm'"
    );
    assert_eq!(parse_precision(Some("png16")), Ok(VatTexturePrecision::Png16));
}

fn openvat_guide_example() -> RawOpenVatMetadata {
    let entry = |start_frame, end_frame, looping| RawOpenVatClip {
        start_frame,
        end_frame,
        frame_rate: None,
        looping,
    };
    RawOpenVatMetadata {
        os_remap: RawOpenVatRemap {
            min: v(-2.0, -0.5, -2.0),
            max: v(2.0, 3.0, 2.0),
            frames: 72,
        },
        // the map's entries in key order
        animations: vec![
            ("attack".to_string(), entry(48, 71, false)),
            ("idle".to_string(), entry(0, 23, true)),
            ("walk".to_string(), entry(24, 47, true)),
        ],
        vertex_count: Some(500),
        texture_width: Some(500),
        texture_height: Some(72),
        rows_per_frame: Some(1),
        packed_normals: false,
        normal_row_offset: None,
        coordinate_system: None,
        playback_space: None,
    }
}

#[test]
fn openvat_subset_normalizes() {
    let a = accept_metadata(openvat_into_asset(&openvat_guide_example()).unwrap()).unwrap();
    assert_eq!(a.source_format, VatSourceFormat::OpenVat);
    assert_eq!((a.vertex_count, a.frame_count), (500, 72));
    assert_eq!(a.frames_per_second.bits, 24.0f32.to_bits());
    assert_eq!(a.clips.len(), 3);
    assert_eq!(a.clips[0].name, "attack");
    assert_eq!(a.clips[1].name, "idle");
    assert_eq!(a.clips[2].name, "walk");
    assert_eq!(a.clips[0].default_loop_mode, Some(VatLoopMode::Once));
    assert_eq!(a.clips[2].default_loop_mode, Some(VatLoopMode::Loop));
    assert_eq!(a.position_texture.precision, VatTexturePrecision::Png16);
    assert_eq!(a.animation_bounds_max, v(2.0, 3.0, 2.0));
    assert_eq!(a.normal_texture, VatNormalTexture::Absent);
}

#[test]
fn openvat_without_animations_gets_one_looping_clip() {
    let mut raw = openvat_guide_example();
    raw.animations.clear();
    raw.packed_normals = true;
    let a = openvat_into_asset(&raw).unwrap();
    assert_eq!(a.clips.len(), 1);
    assert_eq!(a.clips[0].name, "default");
    assert_eq!((a.clips[0].start_frame, a.clips[0].end_frame), (0, 71));
    assert_eq!(a.clips[0].default_loop_mode, Some(VatLoopMode::Loop));
    assert_eq!(
        a.normal_texture,
        VatNormalTexture::PackedInPositionTexture {
            row_offset: 36,
            encoding: VatNormalEncoding::SignedNormalized
        }
    );
    raw.os_remap.frames = 0;
    let a = openvat_into_asset(&raw).unwrap();
    assert_eq!(a.clips[0].end_frame, 0);
}

#[test]
fn openvat_requires_layout_fields() {
    let mut raw = openvat_guide_example();
    raw.texture_width = None;
    assert_eq!(
        unsupported_text(openvat_into_asset(&raw).unwrap_err()),
        "OpenVAT-compatible metadata requires 'texture_width'"
    );
    let mut raw = openvat_guide_example();
    raw.vertex_count = None;
    raw.texture_height = None;
    assert_eq!(
        unsupported_text(openvat_into_asset(&raw).unwrap_err()),
        "OpenVAT-compatible metadata requires 'vertex_count'"
    );
    let mut raw = openvat_guide_example();
    raw.texture_height = None;
    assert_eq!(
        unsupported_text(openvat_into_asset(&raw).unwrap_err()),
        "OpenVAT-compatible metadata requires 'texture_height'"
    );
}

#[test]
fn documents_are_classified_by_their_keys() {
    assert_eq!(classify_metadata(true, true, true), Ok(VatMetadataKind::OpenVat));
    assert_eq!(classify_metadata(false, true, false), Ok(VatMetadataKind::Canonical));
    assert_eq!(classify_metadata(false, false, true), Ok(VatMetadataKind::Canonical));
    assert_eq!(
        unsupported_text(classify_metadata(false, false, false).unwrap_err()),
        "expected canonical VAT metadata or OpenVAT-compatible remap metadata"
    );
}

#[test]
fn accepted_metadata_is_validated() {
    let mut raw = small_canonical("png8");
    raw.vertex_count = 0;
    let a = canonical_into_asset(&raw, F32Bits::zero()).unwrap();
    assert_eq!(
        accept_metadata(a),
        Err(VatMetadataLoadError::Validation(VatValidationError::InvalidVertexCount))
    );
}

/// A canonical bake laid out like the wave demo: 81 vertices, 72 frames,
/// three clips and a separate normal texture.
fn wave_like_canonical() -> RawCanonicalVatMetadata {
    let mut raw = small_canonical("png16");
    raw.vertex_count = 81;
    raw.frame_count = 72;
    raw.decode_bounds = RawBounds { min: v(-0.85, -0.1, -0.42), max: v(0.85, 1.75, 0.42) };
    let clip = |name: &str, start_frame: u32, end_frame: u32| RawClip {
        name: name.into(),
        start_frame,
        end_frame,
        default_loop_mode: None,
        events: Vec::new(),
    };
    raw.clips = vec![clip("idle", 0, 23), clip("gust", 24, 47), clip("burst", 48, 71)];
    raw.position_texture = RawTexture {
        relative_path: text("wave_positions.png"),
        width: 81,
        height: 72,
        rows_per_frame: Some(1),
        precision: text("png16"),
    };
    raw.normal_texture = Some(RawNormalTexture {
        mode: "separate".into(),
        row_offset: None,
        texture: Some(RawTexture {
            relative_path: text("wave_normals.png"),
            width: 81,
            height: 72,
            rows_per_frame: Some(1),
            precision: text("png8"),
        }),
        encoding: text("signed_normalized"),
    });
    raw
}

#[test]
fn canonical_metadata_normalizes_successfully() {
    let animation = load_metadata(
        false,
        true,
        true,
        Some(VatMetadataDocument::Canonical(wave_like_canonical(), F32Bits::zero())),
    )
    .expect("canonical demo metadata should parse");

    assert_eq!(animation.source_format, VatSourceFormat::Canonical);
    assert_eq!(animation.frame_count, 72);
    assert_eq!(animation.position_texture.rows_per_frame, 1);
    assert_eq!(animation.clips.len(), 3);
    assert!(matches!(animation.normal_texture, VatNormalTexture::Separate { .. }));
}

#[test]
fn openvat_subset_normalizes_successfully() {
    let mut raw = openvat_guide_example();
    raw.vertex_count = Some(81);
    raw.texture_width = Some(81);
    let animation = load_metadata(true, false, false, Some(VatMetadataDocument::OpenVat(raw)))
        .expect("openvat-like demo metadata should parse");

    assert_eq!(animation.source_format, VatSourceFormat::OpenVat);
    assert_eq!(animation.vertex_count, 81);
    assert_eq!(animation.frame_count, 72);
    assert_eq!(animation.clips.len(), 3);
}

#[test]
fn loading_follows_the_top_level_keys() {
    assert_eq!(
        unsupported_text(load_metadata(false, false, false, None).unwrap_err()),
        "expected canonical VAT metadata or OpenVAT-compatible remap metadata"
    );
    let mut broken = wave_like_canonical();
    broken.frame_count = 0;
    assert_eq!(
        load_metadata(false, true, false, Some(VatMetadataDocument::Canonical(broken, F32Bits::zero()))),
        Err(VatMetadataLoadError::Validation(VatValidationError::InvalidFrameCount))
    );
    let mut missing = openvat_guide_example();
    missing.vertex_count = None;
    assert_eq!(
        unsupported_text(
            load_metadata(true, true, true, Some(VatMetadataDocument::OpenVat(missing))).unwrap_err()
        ),
        "OpenVAT-compatible metadata requires 'vertex_count'"
    );
}
