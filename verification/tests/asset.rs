use saddle_vat::asset::{
    VatAnimationData, VatAnimationMode, VatClip, VatClipEvent, VatClipResolveError,
    VatCoordinateSystem, VatNormalTexture, VatPlaybackSpace, VatPositionEncoding,
    VatSourceFormat, VatTextureDescriptor, VatTexturePrecision, VatVertexIdAttribute,
};
use saddle_vat::components::{
    VatClipSelection, VatCrossfade, VatInvalidClipFallback, VatLoopMode, VatPlayback,
    VatPlaybackFollower,
};
use saddle_vat::float_bits::{F32Bits, Vec3Bits};

fn f(x: f32) -> F32Bits {
    F32Bits::from_bits(x.to_bits())
}

fn splat(x: f32) -> Vec3Bits {
    Vec3Bits::new(f(x), f(x), f(x))
}

fn clip(name: &str, start_frame: u32, end_frame: u32) -> VatClip {
    VatClip {
        name: name.into(),
        start_frame,
        end_frame,
        default_loop_mode: None,
        events: Vec::new(),
    }
}

fn three_clip_animation() -> VatAnimationData {
    VatAnimationData {
        source_format: VatSourceFormat::Canonical,
        animation_mode: VatAnimationMode::SoftBodyFixedTopology,
        vertex_count: 4,
        frame_count: 72,
        frames_per_second: f(24.0),
        decode_bounds_min: splat(-1.0),
        decode_bounds_max: splat(1.0),
        animation_bounds_min: splat(-1.0),
        animation_bounds_max: splat(1.0),
        clips: vec![
            clip("idle", 0, 23),
            VatClip {
                events: vec![VatClipEvent { name: "peak".into(), frame: 5 }],
                ..clip("gust", 24, 47)
            },
            clip("burst", 48, 71),
        ],
        position_texture: VatTextureDescriptor {
            relative_path: Some("wave_positions.png".into()),
            width: 4,
            height: 72,
            rows_per_frame: 1,
            precision: VatTexturePrecision::Png8,
        },
        normal_texture: VatNormalTexture::Absent,
        rotation_texture: None,
        auxiliary_textures: Vec::new(),
        coordinate_system: VatCoordinateSystem::YUpRightHanded,
        playback_space: VatPlaybackSpace::Local,
        vertex_id_attribute: VatVertexIdAttribute::Uv1,
        position_encoding: VatPositionEncoding::AbsoluteNormalizedBounds,
    }
}

#[test]
fn clip_lookup_by_index_and_name() {
    let animation = three_clip_animation();
    assert_eq!(animation.clip(1).map(|c| c.name.as_str()), Some("gust"));
    assert!(animation.clip(3).is_none());
    assert_eq!(animation.clip_index_by_name("burst"), Some(2));
    assert_eq!(animation.clip_index_by_name("missing"), None);
}

#[test]
fn first_clip_wins_for_duplicate_names() {
    let mut animation = three_clip_animation();
    animation.clips.push(clip("idle", 10, 12));
    assert_eq!(animation.clip_index_by_name("idle"), Some(0));
}

#[test]
fn clip_frame_count_includes_both_ends() {
    let animation = three_clip_animation();
    assert_eq!(animation.clips[0].frame_count(), 24);
    assert_eq!(clip("single", 7, 7).frame_count(), 1);
}

#[test]
fn layout_helpers() {
    let mut animation = three_clip_animation();
    animation.position_texture.width = 9;
    animation.position_texture.rows_per_frame = 3;
    assert_eq!(animation.position_capacity_per_frame(), 27);
    assert!(!animation.uses_world_space());
    assert!(animation.supports_v1_runtime());
    animation.playback_space = VatPlaybackSpace::World;
    animation.animation_mode = VatAnimationMode::RigidBody;
    assert!(animation.uses_world_space());
    assert!(!animation.supports_v1_runtime());
}

#[test]
fn clip_selections_resolve() {
    let animation = three_clip_animation();
    assert_eq!(animation.resolve_clip_selection(&VatClipSelection::MetadataDefault), Ok(0));
    assert_eq!(animation.resolve_clip_selection(&VatClipSelection::Index(2)), Ok(2));
    assert_eq!(
        animation.resolve_clip_selection(&VatClipSelection::Index(3)),
        Err(VatClipResolveError::ClipIndexOutOfRange { requested: 3, clip_count: 3 })
    );
    assert_eq!(
        animation.resolve_clip_selection(&VatClipSelection::Name("gust".into())),
        Ok(1)
    );
    assert_eq!(
        animation.resolve_clip_selection(&VatClipSelection::Name("nope".into())),
        Err(VatClipResolveError::UnknownClipName("nope".into()))
    );
    let mut empty = three_clip_animation();
    empty.clips.clear();
    assert_eq!(
        empty.resolve_clip_selection(&VatClipSelection::MetadataDefault),
        Err(VatClipResolveError::NoClips)
    );
}

#[test]
fn play_clip_named_reads_back() {
    let animation = three_clip_animation();
    let mut playback = VatPlayback::default();
    assert_eq!(playback.play_clip_named(&animation, "burst"), Ok(2));
    assert_eq!(playback.active_clip, Some(2));
    assert_eq!(playback.startup_clip, VatClipSelection::Name("burst".into()));
    assert_eq!(playback.active_clip_name(&animation), Some("burst"));
}

#[test]
fn failed_clip_switch_leaves_playback_alone() {
    let animation = three_clip_animation();
    let mut playback = VatPlayback::default().with_clip(1);
    let before = playback.clone();
    assert_eq!(
        playback.play_clip_named(&animation, "missing"),
        Err(VatClipResolveError::UnknownClipName("missing".into()))
    );
    assert_eq!(playback, before);
    assert_eq!(
        playback.play_clip_index(&animation, 7),
        Err(VatClipResolveError::ClipIndexOutOfRange { requested: 7, clip_count: 3 })
    );
    assert_eq!(playback, before);
    assert_eq!(playback.play_clip_index(&animation, 0), Ok(0));
    assert_eq!(playback.startup_clip, VatClipSelection::Index(0));
}

#[test]
fn active_clip_name_needs_a_valid_index() {
    let animation = three_clip_animation();
    assert_eq!(VatPlayback::default().active_clip_name(&animation), Some("idle"));
    assert_eq!(VatPlayback::default().with_clip(9).active_clip_name(&animation), None);
    assert_eq!(VatPlayback::default().with_clip_index(1).active_clip_name(&animation), Some("gust"));
}

#[test]
fn playback_builders() {
    let playback = VatPlayback::default();
    assert_eq!(playback.active_clip, Some(0));
    assert_eq!(playback.speed.bits, 1.0f32.to_bits());
    assert_eq!(playback.time_seconds.bits, 0);
    assert!(playback.playing);
    assert_eq!(playback.loop_mode, VatLoopMode::Loop);
    assert_eq!(playback.startup_clip, VatClipSelection::MetadataDefault);
    let playback = playback
        .with_clip_name("idle".to_string())
        .with_loop_mode(VatLoopMode::PingPong)
        .with_speed(f(-1.0))
        .with_invalid_clip_fallback(VatInvalidClipFallback::KeepCurrent)
        .paused();
    assert_eq!(playback.active_clip, None);
    assert_eq!(playback.startup_clip, VatClipSelection::Name("idle".into()));
    assert_eq!(playback.loop_mode, VatLoopMode::PingPong);
    assert_eq!(playback.speed.bits, (-1.0f32).to_bits());
    assert_eq!(playback.invalid_clip_fallback, VatInvalidClipFallback::KeepCurrent);
    assert!(!playback.playing);
    let playback = playback.with_clip(2).with_metadata_default_clip();
    assert_eq!(playback.active_clip, None);
    assert_eq!(playback.startup_clip, VatClipSelection::MetadataDefault);
}

#[test]
fn crossfades_between_named_clips() {
    let animation = three_clip_animation();
    let crossfade = VatCrossfade::between_clip_names(&animation, "idle", "burst", f(0.5)).unwrap();
    assert_eq!((crossfade.from_clip, crossfade.to_clip), (0, 2));
    assert_eq!(crossfade.duration.bits, 0.5f32.to_bits());
    assert_eq!(
        VatCrossfade::between_clip_names(&animation, "nope", "burst", f(0.5)),
        Err(VatClipResolveError::UnknownClipName("nope".into()))
    );
    assert_eq!(
        VatCrossfade::between_clip_names(&animation, "idle", "gone", f(0.5)),
        Err(VatClipResolveError::UnknownClipName("gone".into()))
    );
}

#[test]
fn crossfade_to_named_clip_starts_from_active_clip() {
    let animation = three_clip_animation();
    let playback = VatPlayback::default().with_clip(1);
    let crossfade = VatCrossfade::to_clip_name(&animation, &playback, "idle", f(0.45)).unwrap();
    assert_eq!((crossfade.from_clip, crossfade.to_clip), (1, 0));
    assert_eq!(
        VatCrossfade::to_clip_name(
            &animation,
            &VatPlayback::default().with_metadata_default_clip(),
            "idle",
            f(0.45)
        ),
        Err(VatClipResolveError::UnresolvedPlaybackClip)
    );
    let from_default =
        VatCrossfade::to_clip_name(&animation, &VatPlayback::default(), "burst", f(0.45)).unwrap();
    assert_eq!((from_default.from_clip, from_default.to_clip), (0, 2));
}

#[test]
fn follower_builders() {
    let follower = VatPlaybackFollower::new(42);
    assert_eq!(follower.leader, 42);
    assert!(follower.mirror_loop_mode && follower.mirror_crossfade);
    let follower = follower
        .with_time_offset_seconds(f(0.05))
        .without_loop_mode_sync()
        .without_crossfade_sync();
    assert_eq!(follower.time_offset_seconds.bits, 0.05f32.to_bits());
    assert!(!follower.mirror_loop_mode && !follower.mirror_crossfade);
}

#[test]
fn valid_metadata_resolves_every_clip() {
    let animation = three_clip_animation();
    assert_eq!(animation.validate(), Ok(()));
    assert_eq!(animation.resolve_clip_selection(&VatClipSelection::MetadataDefault), Ok(0));
    for index in 0..animation.clips.len() {
        assert_eq!(animation.resolve_clip_selection(&VatClipSelection::Index(index)), Ok(index));
        let clip = &animation.clips[index];
        assert!(clip.start_frame <= clip.end_frame && clip.end_frame < animation.frame_count);
    }
}
