use saddle_vat::asset::{
    VatAnimationData, VatAnimationMode, VatClip, VatClipEvent, VatCoordinateSystem,
    VatNormalEncoding, VatNormalTexture, VatPlaybackSpace, VatPositionEncoding, VatSourceFormat,
    VatTextureDescriptor, VatTexturePrecision, VatVertexIdAttribute,
};
use saddle_vat::components::{VatBoundsMode, VatLoopMode};
use saddle_vat::float_bits::{F32Bits, Vec3Bits};
use saddle_vat::validation::{
    count_distinct_texels, should_disable_frustum_culling, validate_animation_data,
    validate_mesh_summary, VatMeshSummary, VatMeshValidationError,
    VatValidationError,
};

fn f(x: f32) -> F32Bits {
    F32Bits::from_bits(x.to_bits())
}

fn splat(x: f32) -> Vec3Bits {
    Vec3Bits::new(f(x), f(x), f(x))
}

fn sample_animation_for_events() -> VatAnimationData {
    VatAnimationData {
        source_format: VatSourceFormat::Canonical,
        animation_mode: VatAnimationMode::SoftBodyFixedTopology,
        vertex_count: 4,
        frame_count: 10,
        frames_per_second: f(10.0),
        decode_bounds_min: splat(-1.0),
        decode_bounds_max: splat(1.0),
        animation_bounds_min: splat(-1.0),
        animation_bounds_max: splat(1.0),
        clips: vec![VatClip {
            name: "test".into(),
            start_frame: 0,
            end_frame: 9,
            default_loop_mode: Some(VatLoopMode::Loop),
            events: vec![
                VatClipEvent { name: "early".into(), frame: 1 },
                VatClipEvent { name: "middle".into(), frame: 5 },
            ],
        }],
        position_texture: VatTextureDescriptor {
            relative_path: None,
            width: 4,
            height: 10,
            rows_per_frame: 1,
            precision: VatTexturePrecision::Png8,
        },
        normal_texture: VatNormalTexture::Absent,
        rotation_texture: None,
        auxiliary_textures: Vec::new(),
        coordinate_system: VatCoordinateSystem::YUpRightHanded,
        playback_space: VatPlaybackSpace::Local,
        vertex_id_attribute: VatVertexIdAttribute::Uv1,
        position_encoding: VatPositionEncoding::AbsoluteNormalizedBounds,
    }
}

fn rejected(animation: VatAnimationData) -> VatValidationError {
    validate_animation_data(&animation).expect_err("metadata should be rejected")
}

#[test]
fn well_formed_metadata_passes() {
    let animation = sample_animation_for_events();
    assert_eq!(validate_animation_data(&animation), Ok(()));
    assert_eq!(animation.validate(), Ok(()));
}

#[test]
fn rigid_body_is_rejected_first() {
    let mut a = sample_animation_for_events();
    a.animation_mode = VatAnimationMode::RigidBody;
    a.frame_count = 0;
    assert_eq!(rejected(a), VatValidationError::UnsupportedAnimationMode);
}

#[test]
fn frame_rate_must_not_be_at_most_zero() {
    for fps in [0.0f32, -0.0, -24.0, f32::NEG_INFINITY] {
        let mut a = sample_animation_for_events();
        a.frames_per_second = f(fps);
        assert_eq!(rejected(a), VatValidationError::InvalidFramesPerSecond);
    }
    let mut a = sample_animation_for_events();
    a.frames_per_second = f(f32::NAN);
    assert_eq!(validate_animation_data(&a), Ok(()));
}

#[test]
fn counts_must_be_positive() {
    let mut a = sample_animation_for_events();
    a.frame_count = 0;
    assert_eq!(rejected(a), VatValidationError::InvalidFrameCount);
    let mut a = sample_animation_for_events();
    a.vertex_count = 0;
    assert_eq!(rejected(a), VatValidationError::InvalidVertexCount);
    let mut a = sample_animation_for_events();
    a.clips.clear();
    assert_eq!(rejected(a), VatValidationError::MissingClips);
}

#[test]
fn bounds_must_be_finite_and_ordered() {
    let mut a = sample_animation_for_events();
    a.decode_bounds_min = splat(2.0);
    assert_eq!(rejected(a), VatValidationError::InvalidDecodeBounds);
    let mut a = sample_animation_for_events();
    a.animation_bounds_max = splat(f32::INFINITY);
    assert_eq!(rejected(a), VatValidationError::InvalidAnimationBounds);
}

#[test]
fn position_texture_must_hold_every_vertex_and_frame() {
    let mut a = sample_animation_for_events();
    a.position_texture.width = 3;
    assert_eq!(
        rejected(a),
        VatValidationError::PositionTextureTooSmall { vertex_count: 4, capacity: 3 }
    );
    let mut a = sample_animation_for_events();
    a.position_texture.height = 9;
    assert_eq!(
        rejected(a),
        VatValidationError::InvalidPositionTextureLayout {
            height: 9,
            rows_per_frame: 1,
            frame_count: 10
        }
    );
}

#[test]
fn clips_must_fit_the_baked_frames() {
    let mut a = sample_animation_for_events();
    a.clips[0].start_frame = 5;
    a.clips[0].end_frame = 4;
    assert_eq!(rejected(a), VatValidationError::InvalidClipRange { clip_name: "test".into() });
    let mut a = sample_animation_for_events();
    a.clips[0].end_frame = 10;
    assert_eq!(rejected(a), VatValidationError::ClipOutOfBounds { clip_name: "test".into() });
    let mut a = sample_animation_for_events();
    a.clips[0].start_frame = 6;
    assert_eq!(
        rejected(a),
        VatValidationError::EventOutOfBounds {
            clip_name: "test".into(),
            event_name: "middle".into()
        }
    );
}

#[test]
fn normal_texture_descriptions_are_checked() {
    let mut a = sample_animation_for_events();
    a.normal_texture = VatNormalTexture::PackedInPositionTexture {
        row_offset: 0,
        encoding: VatNormalEncoding::SignedNormalized,
    };
    assert_eq!(rejected(a), VatValidationError::InvalidPackedNormalRowOffset);
    let mut a = sample_animation_for_events();
    a.normal_texture = VatNormalTexture::Separate {
        texture: VatTextureDescriptor {
            relative_path: None,
            width: 4,
            height: 9,
            rows_per_frame: 1,
            precision: VatTexturePrecision::Png8,
        },
        encoding: VatNormalEncoding::SignedNormalized,
    };
    assert_eq!(rejected(a), VatValidationError::InvalidNormalTextureLayout);
}

#[test]
fn layouts_beyond_u32_products_are_judged_exactly() {
    // width * rows_per_frame exceeds u32::MAX: plenty of texels, too few rows.
    let mut a = sample_animation_for_events();
    a.position_texture.width = u32::MAX;
    a.position_texture.rows_per_frame = 2;
    assert_eq!(
        rejected(a),
        VatValidationError::InvalidPositionTextureLayout { height: 10, rows_per_frame: 2, frame_count: 10 }
    );
    // rows_per_frame * frame_count exceeds u32::MAX: no height can cover it.
    let mut a = sample_animation_for_events();
    a.position_texture.rows_per_frame = u32::MAX;
    a.position_texture.height = u32::MAX;
    assert_eq!(
        rejected(a),
        VatValidationError::InvalidPositionTextureLayout {
            height: u32::MAX,
            rows_per_frame: u32::MAX,
            frame_count: 10
        }
    );
    // A separate normal texture whose rows for all frames exceed u32::MAX.
    let mut a = sample_animation_for_events();
    a.normal_texture = VatNormalTexture::Separate {
        texture: VatTextureDescriptor {
            relative_path: None,
            width: 4,
            height: u32::MAX,
            rows_per_frame: u32::MAX,
            precision: VatTexturePrecision::Png8,
        },
        encoding: VatNormalEncoding::SignedNormalized,
    };
    assert_eq!(rejected(a), VatValidationError::InvalidNormalTextureLayout);
    // A huge but consistent layout passes.
    let mut a = sample_animation_for_events();
    a.position_texture.width = u32::MAX;
    a.position_texture.rows_per_frame = 2;
    a.position_texture.height = 20;
    assert_eq!(validate_animation_data(&a), Ok(()));
}

#[test]
fn culling_policy() {
    let mut a = sample_animation_for_events();
    assert!(!should_disable_frustum_culling(&a, VatBoundsMode::UseMetadataAabb));
    assert!(!should_disable_frustum_culling(&a, VatBoundsMode::KeepProxyAabb));
    assert!(should_disable_frustum_culling(&a, VatBoundsMode::DisableFrustumCulling));
    a.playback_space = VatPlaybackSpace::World;
    assert!(should_disable_frustum_culling(&a, VatBoundsMode::UseMetadataAabb));
    a.playback_space = VatPlaybackSpace::Local;
    a.animation_mode = VatAnimationMode::RigidBody;
    assert!(should_disable_frustum_culling(&a, VatBoundsMode::KeepProxyAabb));
}

fn mesh(texels: Option<Vec<(i32, i32)>>) -> VatMeshSummary {
    VatMeshSummary {
        has_position: true,
        has_normal: true,
        has_uv0: true,
        has_uv1: true,
        vertex_count: 4,
        uv1_texels: texels,
    }
}

#[test]
fn distinct_texels_are_counted() {
    assert_eq!(count_distinct_texels(&vec![]), 0);
    assert_eq!(count_distinct_texels(&vec![(0, 0), (1, 0), (0, 0), (-1, 0), (0, -1)]), 4);
    assert_eq!(count_distinct_texels(&vec![(i32::MIN, i32::MAX), (i32::MAX, i32::MIN)]), 2);
}

#[test]
fn mesh_checks_in_order() {
    let a = sample_animation_for_events();
    let good = mesh(Some(vec![(0, 0), (1, 0), (2, 0), (3, 0)]));
    assert_eq!(validate_mesh_summary(&good, &a), Ok(()));
    let mut m = good.clone();
    m.has_position = false;
    m.has_uv1 = false;
    assert_eq!(validate_mesh_summary(&m, &a), Err(VatMeshValidationError::MissingPosition));
    let mut m = good.clone();
    m.has_normal = false;
    assert_eq!(validate_mesh_summary(&m, &a), Err(VatMeshValidationError::MissingNormal));
    let mut m = good.clone();
    m.has_uv0 = false;
    assert_eq!(validate_mesh_summary(&m, &a), Err(VatMeshValidationError::MissingUv0));
    let mut m = good.clone();
    m.has_uv1 = false;
    assert_eq!(validate_mesh_summary(&m, &a), Err(VatMeshValidationError::MissingUv1));
    let mut m = good.clone();
    m.vertex_count = 5;
    assert_eq!(
        validate_mesh_summary(&m, &a),
        Err(VatMeshValidationError::VertexCountMismatch {
            mesh_vertex_count: 5,
            metadata_vertex_count: 4
        })
    );
    let m = mesh(None);
    assert_eq!(validate_mesh_summary(&m, &a), Err(VatMeshValidationError::InvalidUv1Format));
    let m = mesh(Some(vec![(0, 0), (1, 0), (1, 0), (3, 0)]));
    assert_eq!(
        validate_mesh_summary(&m, &a),
        Err(VatMeshValidationError::VertexIdMismatch { metadata_vertex_count: 4 })
    );
}

#[test]
fn validation_errors_say_what_is_wrong() {
    let cases = [
        (VatValidationError::InvalidFramesPerSecond, "frames_per_second must be greater than zero"),
        (VatValidationError::InvalidFrameCount, "frame_count must be greater than zero"),
        (VatValidationError::InvalidVertexCount, "vertex_count must be greater than zero"),
        (VatValidationError::MissingClips, "metadata must define at least one clip"),
        (
            VatValidationError::InvalidClipRange { clip_name: "idle".into() },
            "clip 'idle' starts after it ends",
        ),
        (
            VatValidationError::ClipOutOfBounds { clip_name: "idle".into() },
            "clip 'idle' is outside the baked frame range",
        ),
        (
            VatValidationError::EventOutOfBounds {
                clip_name: "idle".into(),
                event_name: "step".into(),
            },
            "clip 'idle' contains event 'step' outside the clip frame range",
        ),
        (
            VatValidationError::PositionTextureTooSmall { vertex_count: 81, capacity: 0 },
            "position texture layout cannot store 81 vertices in 0 texels per frame",
        ),
        (
            VatValidationError::InvalidPositionTextureLayout {
                height: 2,
                rows_per_frame: 1,
                frame_count: 4294967295,
            },
            "position texture height/rows_per_frame do not cover all baked frames (height=2, rows_per_frame=1, frame_count=4294967295)",
        ),
        (
            VatValidationError::UnsupportedCoordinateSystem("x_up".into()),
            "unsupported coordinate system 'x_up'",
        ),
        (VatValidationError::InvalidDecodeBounds, "decode bounds are invalid or non-finite"),
        (VatValidationError::InvalidAnimationBounds, "animation bounds are invalid or non-finite"),
        (
            VatValidationError::InvalidNormalTextureLayout,
            "separate normal texture height/rows_per_frame do not match the frame count",
        ),
        (
            VatValidationError::InvalidPackedNormalRowOffset,
            "packed normals require a non-zero row_offset",
        ),
        (
            VatValidationError::UnsupportedAnimationMode,
            "rigid-body VAT metadata is present, but the v0.1 runtime only supports fixed-topology soft-body VAT",
        ),
    ];
    for (error, text) in cases {
        assert_eq!(error.message(), text);
    }
}
