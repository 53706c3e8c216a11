//! What the library's name tables, shader codes and playback decisions
//! promise, stated over all inputs in terms of the inputs themselves.
use vstd::prelude::*;

use crate::asset::{
    VatAnimationMode, VatAuxTextureSemantic, VatCoordinateSystem, VatNormalEncoding,
    VatNormalTexture, VatPlaybackSpace, VatPositionEncoding, VatTexturePrecision,
    VatVertexIdAttribute,
};
use crate::components::{VatLoopMode, VatPlayback};
use crate::float_bits::{f32_le, is_finite};
use crate::material::{
    coordinate_system_code, normal_mode_code, playback_space_code, position_encoding_code,
};
use crate::metadata::{
    animation_mode_named, aux_semantic_named, coordinate_system_named, loop_mode_named,
    normal_encoding_named, playback_space_named, position_encoding_named, precision_named,
    vertex_id_attribute_named,
};
use crate::playback::{effective_loop_mode, mirrored_playback};
use crate::validation::{bounds_valid, validation_outcome};
use crate::asset::{
    clip_selection_result, lemma_clip_selection_in_range, lemma_first_clip_named_from,
    VatAnimationData, VatClip, VatClipResolveError,
};
use crate::components::{VatClipSelection, VatInvalidClipFallback};
use crate::float_bits::{
    f32_clamp, f32_eq, f32_lt, f32_max, f32_neg, is_nan, magnitude, sign_set, Vec3Bits,
};
use crate::material::normal_layout_of;
use crate::playback::{
    source_state, clip_resolution, fallback_clip, requested_clip, resolution_clip, VatClipResolution,
};
use crate::asset::{VatSourceFormat};
use crate::float_bits::F32Bits;
use crate::metadata::{
    canonical_fault, canonical_format_accepted, canonical_matches, canonical_missing_field,
    clip_matches, normal_texture_fault, normal_texture_matches, openvat_clip_matches,
    openvat_fault, openvat_matches, text_of, MetadataFault, RawCanonicalVatMetadata, RawNormalTexture,
    RawOpenVatMetadata,
};
use crate::validation::{mesh_validation_outcome, VatMeshSummary, VatValidationError};
use crate::validation::{clip_is_valid, passes_header_checks, converted_coordinates, lemma_validation_accepts_exactly};

verus! {

/// The coordinate-system names: no value, `y_up_right_handed` and `bevy`
/// name the Y-up basis; `z_up_right_handed`, `openvat_blender` and
/// `blender` name the Z-up basis; any other name is unsupported.
pub proof fn law_coordinate_system_names(v: Seq<char>)
    ensures
        coordinate_system_named(None) == Some(VatCoordinateSystem::YUpRightHanded),
        v == "y_up_right_handed"@ || v == "bevy"@ ==> coordinate_system_named(Some(v)) == Some(
            VatCoordinateSystem::YUpRightHanded,
        ),
        v == "z_up_right_handed"@ || v == "openvat_blender"@ || v == "blender"@
            ==> coordinate_system_named(Some(v)) == Some(VatCoordinateSystem::ZUpRightHanded),
        !(v == "y_up_right_handed"@ || v == "bevy"@ || v == "z_up_right_handed"@ || v
            == "openvat_blender"@ || v == "blender"@) ==> coordinate_system_named(Some(v)) is None,
{
    reveal_strlit("y_up_right_handed");
    reveal_strlit("bevy");
    reveal_strlit("z_up_right_handed");
    reveal_strlit("openvat_blender");
    reveal_strlit("blender");
    assert("z_up_right_handed"@[0] != "y_up_right_handed"@[0]);
    assert("bevy"@.len() != "z_up_right_handed"@.len());
    assert("bevy"@.len() != "openvat_blender"@.len());
    assert("bevy"@.len() != "blender"@.len());
    assert("y_up_right_handed"@.len() != "openvat_blender"@.len());
    assert("y_up_right_handed"@.len() != "blender"@.len());
}

/// The clip loop-mode names: `loop`, `once`, `ping_pong` or `pingpong`,
/// `clamp_forever` or `clamp`; any other name is unsupported.
pub proof fn law_loop_mode_names(v: Seq<char>)
    ensures
        v == "loop"@ ==> loop_mode_named(v) == Some(VatLoopMode::Loop),
        v == "once"@ ==> loop_mode_named(v) == Some(VatLoopMode::Once),
        v == "ping_pong"@ || v == "pingpong"@ ==> loop_mode_named(v) == Some(VatLoopMode::PingPong),
        v == "clamp_forever"@ || v == "clamp"@ ==> loop_mode_named(v) == Some(VatLoopMode::ClampForever),
        !(v == "loop"@ || v == "once"@ || v == "ping_pong"@ || v == "pingpong"@ || v == "clamp_forever"@ || v == "clamp"@) ==> loop_mode_named(v) is None,
{
    reveal_strlit("loop");
    reveal_strlit("once");
    reveal_strlit("ping_pong");
    reveal_strlit("pingpong");
    reveal_strlit("clamp_forever");
    reveal_strlit("clamp");
    assert("loop"@[0] != "once"@[0]);
    assert("loop"@.len() != "ping_pong"@.len());
    assert("loop"@.len() != "pingpong"@.len());
    assert("loop"@.len() != "clamp_forever"@.len());
    assert("loop"@.len() != "clamp"@.len());
    assert("once"@.len() != "ping_pong"@.len());
    assert("once"@.len() != "pingpong"@.len());
    assert("once"@.len() != "clamp_forever"@.len());
    assert("once"@.len() != "clamp"@.len());
    assert("ping_pong"@.len() != "pingpong"@.len());
    assert("ping_pong"@.len() != "clamp_forever"@.len());
    assert("ping_pong"@.len() != "clamp"@.len());
    assert("pingpong"@.len() != "clamp_forever"@.len());
    assert("pingpong"@.len() != "clamp"@.len());
    assert("clamp_forever"@.len() != "clamp"@.len());
}

/// The playback-space names: `local` (also when absent) and `world`; any
/// other name is unsupported.
pub proof fn law_playback_space_names(v: Seq<char>)
    ensures
        playback_space_named(None) == Some(VatPlaybackSpace::Local),
        v == "local"@ ==> playback_space_named(Some(v)) == Some(VatPlaybackSpace::Local),
        v == "world"@ ==> playback_space_named(Some(v)) == Some(VatPlaybackSpace::World),
        !(v == "local"@ || v == "world"@) ==> playback_space_named(Some(v)) is None,
{
    reveal_strlit("local");
    reveal_strlit("world");
    assert("local"@[0] != "world"@[0]);
}

/// The position-encoding names: `absolute_normalized_bounds` or `absolute`
/// (also when absent), `offset_normalized_bounds` or `offset`; any other
/// name is unsupported.
pub proof fn law_position_encoding_names(v: Seq<char>)
    ensures
        position_encoding_named(None) == Some(VatPositionEncoding::AbsoluteNormalizedBounds),
        v == "absolute_normalized_bounds"@ || v == "absolute"@ ==> position_encoding_named(Some(v)) == Some(VatPositionEncoding::AbsoluteNormalizedBounds),
        v == "offset_normalized_bounds"@ || v == "offset"@ ==> position_encoding_named(Some(v)) == Some(VatPositionEncoding::OffsetNormalizedBounds),
        !(v == "absolute_normalized_bounds"@ || v == "absolute"@ || v == "offset_normalized_bounds"@ || v == "offset"@) ==> position_encoding_named(Some(v)) is None,
{
    reveal_strlit("absolute_normalized_bounds");
    reveal_strlit("absolute");
    reveal_strlit("offset_normalized_bounds");
    reveal_strlit("offset");
    assert("absolute_normalized_bounds"@.len() != "absolute"@.len());
    assert("absolute_normalized_bounds"@.len() != "offset_normalized_bounds"@.len());
    assert("absolute_normalized_bounds"@.len() != "offset"@.len());
    assert("absolute"@.len() != "offset_normalized_bounds"@.len());
    assert("absolute"@.len() != "offset"@.len());
    assert("offset_normalized_bounds"@.len() != "offset"@.len());
}

/// The vertex-id attribute names: `uv1` or `uv2` (also when absent); any
/// other name is unsupported.
pub proof fn law_vertex_id_attribute_names(v: Seq<char>)
    ensures
        vertex_id_attribute_named(None) == Some(VatVertexIdAttribute::Uv1),
        v == "uv1"@ || v == "uv2"@ ==> vertex_id_attribute_named(Some(v)) == Some(VatVertexIdAttribute::Uv1),
        !(v == "uv1"@ || v == "uv2"@) ==> vertex_id_attribute_named(Some(v)) is None,
{
    reveal_strlit("uv1");
    reveal_strlit("uv2");
    assert("uv1"@[2] != "uv2"@[2]);
}

/// The normal-encoding names: `signed_normalized` or `snorm` (also when
/// absent); any other name is unsupported.
pub proof fn law_normal_encoding_names(v: Seq<char>)
    ensures
        normal_encoding_named(None) == Some(VatNormalEncoding::SignedNormalized),
        v == "signed_normalized"@ || v == "snorm"@ ==> normal_encoding_named(Some(v)) == Some(VatNormalEncoding::SignedNormalized),
        !(v == "signed_normalized"@ || v == "snorm"@) ==> normal_encoding_named(Some(v)) is None,
{
    reveal_strlit("signed_normalized");
    reveal_strlit("snorm");
    assert("signed_normalized"@.len() != "snorm"@.len());
}

/// The texture precision names: `exr_half` (also when absent), `png16` and
/// `png8`; any other name is unsupported.
pub proof fn law_precision_names(v: Seq<char>)
    ensures
        precision_named(None) == Some(VatTexturePrecision::ExrHalf),
        v == "exr_half"@ ==> precision_named(Some(v)) == Some(VatTexturePrecision::ExrHalf),
        v == "png16"@ ==> precision_named(Some(v)) == Some(VatTexturePrecision::Png16),
        v == "png8"@ ==> precision_named(Some(v)) == Some(VatTexturePrecision::Png8),
        !(v == "exr_half"@ || v == "png16"@ || v == "png8"@) ==> precision_named(Some(v)) is None,
{
    reveal_strlit("exr_half");
    reveal_strlit("png16");
    reveal_strlit("png8");
    assert("exr_half"@.len() != "png16"@.len());
    assert("exr_half"@.len() != "png8"@.len());
    assert("png16"@.len() != "png8"@.len());
}

/// The animation-mode names: `soft_body_fixed_topology` or `soft_body`, and
/// `rigid_body`; any other name is unsupported.
pub proof fn law_animation_mode_names(v: Seq<char>)
    ensures
        animation_mode_named(None) == Some(VatAnimationMode::SoftBodyFixedTopology),
        v == "soft_body_fixed_topology"@ || v == "soft_body"@ ==> animation_mode_named(Some(v)) == Some(VatAnimationMode::SoftBodyFixedTopology),
        v == "rigid_body"@ ==> animation_mode_named(Some(v)) == Some(VatAnimationMode::RigidBody),
        !(v == "soft_body_fixed_topology"@ || v == "soft_body"@ || v == "rigid_body"@) ==> animation_mode_named(Some(v)) is None,
{
    reveal_strlit("soft_body_fixed_topology");
    reveal_strlit("soft_body");
    reveal_strlit("rigid_body");
    assert("soft_body_fixed_topology"@.len() != "soft_body"@.len());
    assert("soft_body_fixed_topology"@.len() != "rigid_body"@.len());
    assert("soft_body"@.len() != "rigid_body"@.len());
}

/// The auxiliary texture semantics: `emission`, `opacity`, and `scalar`
/// (also when absent); any other name is unsupported.
pub proof fn law_aux_semantic_names(v: Seq<char>)
    ensures
        aux_semantic_named(None) == Some(VatAuxTextureSemantic::Scalar),
        v == "emission"@ ==> aux_semantic_named(Some(v)) == Some(VatAuxTextureSemantic::Emission),
        v == "opacity"@ ==> aux_semantic_named(Some(v)) == Some(VatAuxTextureSemantic::Opacity),
        v == "scalar"@ ==> aux_semantic_named(Some(v)) == Some(VatAuxTextureSemantic::Scalar),
        !(v == "emission"@ || v == "opacity"@ || v == "scalar"@) ==> aux_semantic_named(Some(v)) is None,
{
    reveal_strlit("emission");
    reveal_strlit("opacity");
    reveal_strlit("scalar");
    assert("emission"@.len() != "opacity"@.len());
    assert("emission"@.len() != "scalar"@.len());
    assert("opacity"@.len() != "scalar"@.len());
}

/// Bounds are valid exactly when every coordinate of both corners is
/// finite and the minimum is at most the maximum on each axis.
pub proof fn law_bounds_valid_per_axis(min: crate::float_bits::Vec3Bits, max: crate::float_bits::Vec3Bits)
    ensures
        bounds_valid(min, max) <==> {
            &&& is_finite(min.x.bits) && is_finite(min.y.bits) && is_finite(min.z.bits)
            &&& is_finite(max.x.bits) && is_finite(max.y.bits) && is_finite(max.z.bits)
            &&& f32_le(min.x.bits, max.x.bits)
            &&& f32_le(min.y.bits, max.y.bits)
            &&& f32_le(min.z.bits, max.z.bits)
        },
{
}

/// Metadata that passes validation has finite decode and animation bounds
/// whose minimum is at most their maximum on every axis.
pub proof fn law_validated_bounds_are_ordered(a: VatAnimationData)
    requires
        validation_outcome(a) is Ok,
    ensures
        f32_le(a.decode_bounds_min.x.bits, a.decode_bounds_max.x.bits),
        f32_le(a.decode_bounds_min.y.bits, a.decode_bounds_max.y.bits),
        f32_le(a.decode_bounds_min.z.bits, a.decode_bounds_max.z.bits),
        f32_le(a.animation_bounds_min.x.bits, a.animation_bounds_max.x.bits),
        f32_le(a.animation_bounds_min.y.bits, a.animation_bounds_max.y.bits),
        f32_le(a.animation_bounds_min.z.bits, a.animation_bounds_max.z.bits),
        is_finite(a.decode_bounds_min.x.bits) && is_finite(a.decode_bounds_min.y.bits)
            && is_finite(a.decode_bounds_min.z.bits),
        is_finite(a.decode_bounds_max.x.bits) && is_finite(a.decode_bounds_max.y.bits)
            && is_finite(a.decode_bounds_max.z.bits),
        is_finite(a.animation_bounds_min.x.bits) && is_finite(a.animation_bounds_min.y.bits)
            && is_finite(a.animation_bounds_min.z.bits),
        is_finite(a.animation_bounds_max.x.bits) && is_finite(a.animation_bounds_max.y.bits)
            && is_finite(a.animation_bounds_max.z.bits),
{
}

/// A follower takes its leader's active clip and play state, takes the
/// leader's loop mode only when it mirrors it, and keeps everything else.
pub proof fn law_follower_takes_leader_state(
    leader: VatPlayback,
    mirror_loop_mode: bool,
    follower: VatPlayback,
)
    ensures
        mirrored_playback(leader, mirror_loop_mode, follower).active_clip == leader.active_clip,
        mirrored_playback(leader, mirror_loop_mode, follower).playing == leader.playing,
        mirror_loop_mode ==> mirrored_playback(leader, mirror_loop_mode, follower).loop_mode
            == leader.loop_mode,
        !mirror_loop_mode ==> mirrored_playback(leader, mirror_loop_mode, follower).loop_mode
            == follower.loop_mode,
        mirrored_playback(leader, mirror_loop_mode, follower).time_seconds == follower.time_seconds,
        mirrored_playback(leader, mirror_loop_mode, follower).speed == follower.speed,
        mirrored_playback(leader, mirror_loop_mode, follower).startup_clip == follower.startup_clip,
        mirrored_playback(leader, mirror_loop_mode, follower).invalid_clip_fallback
            == follower.invalid_clip_fallback,
{
}

/// The shader's mode codes tell every case apart: absolute positions are
/// 0 and offsets 1; the Y-up basis 0 and Z-up 1; local space 0 and world 1;
/// no normals 0, packed normals 1 and a separate normal texture 2.
pub proof fn law_shader_codes(
    e: VatPositionEncoding,
    c: VatCoordinateSystem,
    p: VatPlaybackSpace,
    n: VatNormalTexture,
)
    ensures
        position_encoding_code(e) == 0 <==> e == VatPositionEncoding::AbsoluteNormalizedBounds,
        position_encoding_code(e) == 1 <==> e == VatPositionEncoding::OffsetNormalizedBounds,
        coordinate_system_code(c) == 0 <==> c == VatCoordinateSystem::YUpRightHanded,
        coordinate_system_code(c) == 1 <==> c == VatCoordinateSystem::ZUpRightHanded,
        playback_space_code(p) == 0 <==> p == VatPlaybackSpace::Local,
        playback_space_code(p) == 1 <==> p == VatPlaybackSpace::World,
        normal_mode_code(n) == 0 <==> n is Absent,
        normal_mode_code(n) == 1 <==> n is PackedInPositionTexture,
        normal_mode_code(n) == 2 <==> n is Separate,
{
}

/// A loop mode other than `Loop` asked for by playback governs whatever
/// the clip's default; under `Loop`, the clip's default governs when it
/// has one; a clip without a default plays what playback asks for.
pub proof fn law_requested_loop_mode_governs(requested: VatLoopMode, clip_default: Option<VatLoopMode>)
    ensures
        requested != VatLoopMode::Loop ==> effective_loop_mode(requested, clip_default) == requested,
        clip_default is None ==> effective_loop_mode(requested, clip_default) == requested,
        requested == VatLoopMode::Loop && clip_default is Some ==> effective_loop_mode(
            requested,
            clip_default,
        ) == clip_default->0,
{
}

/// Resolving a clip selection: the metadata default is the first clip,
/// and there is none without clips; an index names itself when it is in
/// range and is reported out of range with the clip count otherwise; a name
/// resolves to the first clip that carries it, and to an error carrying the
/// name when no clip does.
pub proof fn law_clip_selection(clips: Seq<VatClip>, selection: VatClipSelection)
    requires
        clips.len() <= usize::MAX,
    ensures
        selection is MetadataDefault && clips.len() > 0 ==> clip_selection_result(clips, selection)
            == Ok::<usize, VatClipResolveError>(0),
        selection is MetadataDefault && clips.len() == 0 ==> clip_selection_result(
            clips,
            selection,
        ) == Err::<usize, VatClipResolveError>(VatClipResolveError::NoClips),
        selection matches VatClipSelection::Index(k) ==> clip_selection_result(clips, selection)
            == (if k < clips.len() {
            Ok::<usize, VatClipResolveError>(k)
        } else {
            Err::<usize, VatClipResolveError>(
                VatClipResolveError::ClipIndexOutOfRange {
                    requested: k,
                    clip_count: clips.len() as usize,
                },
            )
        }),
        selection matches VatClipSelection::Name(n) ==> match clip_selection_result(
            clips,
            selection,
        ) {
            Ok(k) => k < clips.len() && clips[k as int].name@ == n@ && forall|j: int|
                0 <= j < k ==> #[trigger] clips[j].name@ != n@,
            Err(e) => e == VatClipResolveError::UnknownClipName(n) && forall|j: int|
                0 <= j < clips.len() ==> #[trigger] clips[j].name@ != n@,
        },
{
    if let VatClipSelection::Name(n) = selection {
        lemma_first_clip_named_from(clips, n@, 0);
    }
}

/// The fallback policies: `FirstValid` picks the first clip when there is
/// one; `KeepCurrent` keeps the clip played last while it is in range;
/// `StartupClipThenFirstValid` picks the startup selection when it
/// resolves, else the first clip. Whatever is picked is a clip of the list.
pub proof fn law_fallback_policies(
    clips: Seq<VatClip>,
    playback: VatPlayback,
    last_clip_index: Option<usize>,
)
    requires
        clips.len() <= usize::MAX,
    ensures
        fallback_clip(clips, playback, last_clip_index) matches Some(i) ==> i < clips.len(),
        playback.invalid_clip_fallback == VatInvalidClipFallback::FirstValid ==> fallback_clip(
            clips,
            playback,
            last_clip_index,
        ) == (if clips.len() > 0 {
            Some(0usize)
        } else {
            None
        }),
        playback.invalid_clip_fallback == VatInvalidClipFallback::KeepCurrent ==> fallback_clip(
            clips,
            playback,
            last_clip_index,
        ) == (if last_clip_index matches Some(i) && i < clips.len() {
            last_clip_index
        } else {
            None
        }),
        playback.invalid_clip_fallback == VatInvalidClipFallback::StartupClipThenFirstValid
            && clips.len() > 0 ==> fallback_clip(clips, playback, last_clip_index) is Some,
        playback.invalid_clip_fallback == VatInvalidClipFallback::StartupClipThenFirstValid ==> (
        clip_selection_result(clips, playback.startup_clip) matches Ok(k) ==> fallback_clip(
            clips,
            playback,
            last_clip_index,
        ) == Some(k)),
{
    lemma_clip_selection_in_range(clips, playback.startup_clip);
}

/// Metadata passes validation exactly when it is a fixed-topology
/// soft-body bake with a frame rate not `<= 0.0`, at least one frame,
/// vertex and clip, finite decode and animation bounds ordered on every
/// axis, a position texture whose `width * rows_per_frame` texels hold a
/// frame's vertices and whose height holds `rows_per_frame` rows for every
/// frame, clips with `start <= end < frame_count` whose events fall inside
/// the clip, and a normal texture that is absent, packed at a nonzero row,
/// or a separate texture with rows for every frame.
pub proof fn law_validation_rules(a: VatAnimationData)
    ensures
        validation_outcome(a) is Ok <==> {
            let t = a.position_texture;
            &&& a.animation_mode == VatAnimationMode::SoftBodyFixedTopology
            &&& !f32_le(a.frames_per_second.bits, 0)
            &&& a.frame_count > 0
            &&& a.vertex_count > 0
            &&& a.clips@.len() > 0
            &&& is_finite(a.decode_bounds_min.x.bits) && is_finite(a.decode_bounds_min.y.bits)
                && is_finite(a.decode_bounds_min.z.bits)
            &&& is_finite(a.decode_bounds_max.x.bits) && is_finite(a.decode_bounds_max.y.bits)
                && is_finite(a.decode_bounds_max.z.bits)
            &&& f32_le(a.decode_bounds_min.x.bits, a.decode_bounds_max.x.bits)
            &&& f32_le(a.decode_bounds_min.y.bits, a.decode_bounds_max.y.bits)
            &&& f32_le(a.decode_bounds_min.z.bits, a.decode_bounds_max.z.bits)
            &&& is_finite(a.animation_bounds_min.x.bits) && is_finite(
                a.animation_bounds_min.y.bits,
            ) && is_finite(a.animation_bounds_min.z.bits)
            &&& is_finite(a.animation_bounds_max.x.bits) && is_finite(
                a.animation_bounds_max.y.bits,
            ) && is_finite(a.animation_bounds_max.z.bits)
            &&& f32_le(a.animation_bounds_min.x.bits, a.animation_bounds_max.x.bits)
            &&& f32_le(a.animation_bounds_min.y.bits, a.animation_bounds_max.y.bits)
            &&& f32_le(a.animation_bounds_min.z.bits, a.animation_bounds_max.z.bits)
            &&& t.width * t.rows_per_frame >= a.vertex_count
            &&& t.width > 0 && t.rows_per_frame > 0
            &&& t.height >= t.rows_per_frame * a.frame_count
            &&& forall|i: int|
                0 <= i < a.clips@.len() ==> {
                    let c = #[trigger] a.clips@[i];
                    &&& c.start_frame <= c.end_frame
                    &&& c.end_frame < a.frame_count
                    &&& forall|k: int|
                        0 <= k < c.events@.len() ==> #[trigger] c.events@[k].frame
                            < c.end_frame - c.start_frame + 1
                }
            &&& match a.normal_texture {
                VatNormalTexture::Absent => true,
                VatNormalTexture::PackedInPositionTexture { row_offset, .. } => row_offset != 0,
                VatNormalTexture::Separate { texture, .. } => texture.width > 0
                    && texture.rows_per_frame > 0 && texture.height >= texture.rows_per_frame
                    * a.frame_count,
            }
        },
{
    lemma_validation_accepts_exactly(a);
    assert forall|i: int| 0 <= i < a.clips@.len() implies (clip_is_valid(
        #[trigger] a.clips@[i],
        a.frame_count,
    ) <==> {
        let c = a.clips@[i];
        &&& c.start_frame <= c.end_frame
        &&& c.end_frame < a.frame_count
        &&& forall|k: int|
            0 <= k < c.events@.len() ==> #[trigger] c.events@[k].frame < c.end_frame
                - c.start_frame + 1
    }) by {
        let c = a.clips@[i];
        if clip_is_valid(c, a.frame_count) {
            assert forall|k: int| 0 <= k < c.events@.len() implies #[trigger] c.events@[k].frame
                < c.end_frame - c.start_frame + 1 by {
                assert(c.events@[k].frame <= c.end_frame - c.start_frame);
            }
        }
    }
}

/// The normal layout the shader reads: a separate texture's width, height
/// and rows per frame; a one-texel layout carrying the packed row offset;
/// a one-texel layout with no offset when there are no normals.
pub proof fn law_normal_layout(n: VatNormalTexture)
    ensures
        n matches VatNormalTexture::Separate { texture, .. } ==> normal_layout_of(n) == seq![
            texture.width,
            texture.height,
            texture.rows_per_frame,
            0u32,
        ],
        n matches VatNormalTexture::PackedInPositionTexture { row_offset, .. } ==> normal_layout_of(n)
            == seq![1u32, 1, 0, row_offset],
        n is Absent ==> normal_layout_of(n) == seq![1u32, 1, 0, 0],
{
}

/// Binary32 order: `<` is irreflexive and asymmetric, `<=` is `<` or `==`,
/// both are transitive, and NaN is ordered with nothing.
pub proof fn law_f32_order(a: u32, b: u32, c: u32)
    ensures
        !f32_lt(a, a),
        f32_lt(a, b) ==> !f32_lt(b, a),
        f32_le(a, b) <==> (f32_lt(a, b) || f32_eq(a, b)),
        f32_lt(a, b) && f32_lt(b, c) ==> f32_lt(a, c),
        f32_le(a, b) && f32_le(b, c) ==> f32_le(a, c),
        is_nan(a) ==> !f32_le(a, b) && !f32_le(b, a),
        !is_nan(a) && !is_nan(b) ==> (f32_le(a, b) || f32_le(b, a)),
{
}

/// `max` of two numbers is one of them and at least both; a NaN operand
/// gives the other operand.
pub proof fn law_f32_max(a: u32, b: u32)
    ensures
        f32_max(a, b) == a || f32_max(a, b) == b,
        !is_nan(a) && !is_nan(b) ==> f32_le(a, f32_max(a, b)) && f32_le(b, f32_max(a, b)),
        is_nan(a) ==> f32_max(a, b) == b,
        !is_nan(a) && is_nan(b) ==> f32_max(a, b) == a,
{
}

/// Clamping a number into ordered bounds gives a number within them, the
/// number itself when it already lies within them, and NaN for NaN.
pub proof fn law_f32_clamp(x: u32, lo: u32, hi: u32)
    requires
        f32_le(lo, hi),
    ensures
        !is_nan(x) ==> f32_le(lo, f32_clamp(x, lo, hi)) && f32_le(f32_clamp(x, lo, hi), hi),
        f32_le(lo, x) && f32_le(x, hi) ==> f32_clamp(x, lo, hi) == x,
        is_nan(x) ==> f32_clamp(x, lo, hi) == x,
{
}

/// Negation flips the sign and keeps the magnitude.
pub proof fn law_f32_neg(a: u32)
    ensures
        sign_set(f32_neg(a)) != sign_set(a),
        magnitude(f32_neg(a)) == magnitude(a),
{
}

/// Converting to the Y-up basis leaves Y-up vectors alone and turns a Z-up
/// `(x, y, z)` into `(x, z, -y)`.
pub proof fn law_coordinate_conversion(v: Vec3Bits, c: VatCoordinateSystem)
    ensures
        c == VatCoordinateSystem::YUpRightHanded ==> converted_coordinates(v, c) == v,
        c == VatCoordinateSystem::ZUpRightHanded ==> {
            let r = converted_coordinates(v, c);
            &&& r.x == v.x
            &&& r.y == v.z
            &&& sign_set(r.z.bits) != sign_set(v.y.bits)
            &&& magnitude(r.z.bits) == magnitude(v.y.bits)
        },
{
}

/// A rate field that is given and greater than zero.
pub open spec fn positive_rate(value: Option<F32Bits>) -> bool {
    match value {
        Some(v) => f32_lt(0, v.bits),
        None => false,
    }
}

/// A canonical document lacking any field the format requires is refused
/// as unsupported; without `format` the message names `format`.
pub proof fn law_canonical_required_fields(raw: RawCanonicalVatMetadata)
    ensures
        raw.format is None ==> canonical_fault(raw) == Some(
            MetadataFault::Unsupported(
                "canonical VAT metadata requires '"@ + "format"@ + "'"@,
            ),
        ),
        raw.format is None || raw.animation_mode is None || raw.coordinate_system is None
            || raw.playback_space is None || raw.vertex_id_attribute is None
            || raw.position_encoding is None ==> canonical_fault(raw) matches Some(
            MetadataFault::Unsupported(_),
        ),
{
}

/// What a canonical document normalizes to: a canonical bake with its
/// counts, decode bounds, clips (name and frame range) and position
/// texture size copied; animation bounds that default to the decode
/// bounds; one row per frame unless given; and a frame rate that is
/// `frames_per_second` when positive, else the reciprocal of a positive
/// `seconds_per_frame`. Without either the document is refused.
pub proof fn law_canonical_normalization(
    raw: RawCanonicalVatMetadata,
    reciprocal: F32Bits,
    a: VatAnimationData,
)
    ensures
        canonical_matches(raw, reciprocal, a) ==> {
            &&& a.source_format == VatSourceFormat::Canonical
            &&& a.vertex_count == raw.vertex_count
            &&& a.frame_count == raw.frame_count
            &&& a.decode_bounds_min == raw.decode_bounds.min
            &&& a.decode_bounds_max == raw.decode_bounds.max
            &&& raw.animation_bounds is None ==> a.animation_bounds_min == raw.decode_bounds.min
                && a.animation_bounds_max == raw.decode_bounds.max
            &&& raw.animation_bounds matches Some(b) ==> a.animation_bounds_min == b.min
                && a.animation_bounds_max == b.max
            &&& a.clips@.len() == raw.clips@.len()
            &&& forall|i: int|
                0 <= i < a.clips@.len() ==> #[trigger] a.clips@[i].name == raw.clips@[i].name
                    && a.clips@[i].start_frame == raw.clips@[i].start_frame
                    && a.clips@[i].end_frame == raw.clips@[i].end_frame
            &&& a.position_texture.width == raw.position_texture.width
            &&& a.position_texture.height == raw.position_texture.height
            &&& raw.position_texture.rows_per_frame is None ==> a.position_texture.rows_per_frame
                == 1
            &&& positive_rate(raw.frames_per_second) ==> Some(a.frames_per_second)
                == raw.frames_per_second
            &&& !positive_rate(raw.frames_per_second) && positive_rate(raw.seconds_per_frame)
                ==> a.frames_per_second == reciprocal
        },
        canonical_missing_field(raw) is None && canonical_format_accepted(text_of(raw.format))
            && !positive_rate(raw.frames_per_second) && !positive_rate(raw.seconds_per_frame)
            ==> canonical_fault(raw) == Some(
            MetadataFault::Invalid(VatValidationError::InvalidFramesPerSecond),
        ),
{
    if canonical_matches(raw, reciprocal, a) {
        assert forall|i: int| 0 <= i < a.clips@.len() implies #[trigger] a.clips@[i].name
            == raw.clips@[i].name && a.clips@[i].start_frame == raw.clips@[i].start_frame
            && a.clips@[i].end_frame == raw.clips@[i].end_frame by {
            assert(clip_matches(raw.clips@[i], a.clips@[i]));
        }
    }
}

/// What an OpenVAT-compatible document normalizes to: a soft-body bake
/// played at 24 frames per second, bounded by the remap bounds, with a
/// 16-bit position texture of one row per frame unless given, packed
/// normals at half the texture height unless an offset is given, and one
/// clip per animation entry (looping entries loop, the others play once),
/// or one looping clip `default` over all frames when there are none.
pub proof fn law_openvat_normalization(raw: RawOpenVatMetadata, a: VatAnimationData)
    requires
        openvat_matches(raw, a),
    ensures
        a.source_format == VatSourceFormat::OpenVat,
        a.animation_mode == VatAnimationMode::SoftBodyFixedTopology,
        a.frames_per_second.bits == 0x41C0_0000u32,
        a.frame_count == raw.os_remap.frames,
        a.decode_bounds_min == raw.os_remap.min && a.decode_bounds_max == raw.os_remap.max,
        a.animation_bounds_min == raw.os_remap.min && a.animation_bounds_max == raw.os_remap.max,
        a.position_texture.precision == VatTexturePrecision::Png16,
        raw.rows_per_frame is None ==> a.position_texture.rows_per_frame == 1,
        raw.rows_per_frame matches Some(rows) ==> a.position_texture.rows_per_frame == rows,
        raw.packed_normals && raw.normal_row_offset is None ==> (a.normal_texture matches
            VatNormalTexture::PackedInPositionTexture { row_offset, .. } && row_offset
            == raw.texture_height->0 / 2),
        !raw.packed_normals ==> a.normal_texture is Absent,
        raw.animations@.len() == 0 ==> a.clips@.len() == 1 && a.clips@[0].name@ == "default"@
            && a.clips@[0].start_frame == 0 && a.clips@[0].default_loop_mode == Some(
            VatLoopMode::Loop,
        ),
        raw.animations@.len() > 0 ==> a.clips@.len() == raw.animations@.len(),
        forall|i: int|
            0 <= i < raw.animations@.len() ==> #[trigger] a.clips@[i].name == raw.animations@[i].0
                && a.clips@[i].start_frame == raw.animations@[i].1.start_frame
                && a.clips@[i].end_frame == raw.animations@[i].1.end_frame
                && a.clips@[i].default_loop_mode == Some(
                if raw.animations@[i].1.looping {
                    VatLoopMode::Loop
                } else {
                    VatLoopMode::Once
                },
            ),
{
    assert forall|i: int| 0 <= i < raw.animations@.len() implies #[trigger] a.clips@[i].name
        == raw.animations@[i].0 && a.clips@[i].start_frame == raw.animations@[i].1.start_frame
        && a.clips@[i].end_frame == raw.animations@[i].1.end_frame
        && a.clips@[i].default_loop_mode == Some(
        if raw.animations@[i].1.looping {
            VatLoopMode::Loop
        } else {
            VatLoopMode::Once
        },
    ) by {
        assert(openvat_clip_matches(raw.animations@[i], a.clips@[i]));
    }
}

/// The normal-texture modes: `none` means no normals; `packed` or
/// `packed_in_position_texture` means normals in the position texture, at
/// row offset 0 unless given; `separate` or `separate_texture` needs a
/// texture descriptor; any other mode is unsupported.
pub proof fn law_normal_texture_modes(raw: RawNormalTexture, n: VatNormalTexture)
    ensures
        raw.mode@ == "none"@ && normal_texture_matches(raw, n) ==> n is Absent,
        (raw.mode@ == "packed"@ || raw.mode@ == "packed_in_position_texture"@)
            && normal_texture_matches(raw, n) ==> (n matches
            VatNormalTexture::PackedInPositionTexture { row_offset, .. } && row_offset == (
        match raw.row_offset {
            Some(offset) => offset,
            None => 0,
        })),
        (raw.mode@ == "separate"@ || raw.mode@ == "separate_texture"@) && normal_texture_matches(
            raw,
            n,
        ) ==> n is Separate,
        (raw.mode@ == "separate"@ || raw.mode@ == "separate_texture"@) && raw.texture is None
            && normal_encoding_named(text_of(raw.encoding)) is Some ==> normal_texture_fault(raw)
            == Some(
            MetadataFault::Unsupported(
                "normal_texture.mode='separate' requires a texture descriptor"@,
            ),
        ),
        !(raw.mode@ == "none"@ || raw.mode@ == "packed"@ || raw.mode@
            == "packed_in_position_texture"@ || raw.mode@ == "separate"@ || raw.mode@
            == "separate_texture"@) ==> normal_texture_fault(raw) is Some,
{
    reveal_strlit("none");
    reveal_strlit("packed");
    reveal_strlit("packed_in_position_texture");
    reveal_strlit("separate");
    reveal_strlit("separate_texture");
    assert("none"@.len() != "packed"@.len());
    assert("none"@.len() != "packed_in_position_texture"@.len());
    assert("none"@.len() != "separate"@.len());
    assert("none"@.len() != "separate_texture"@.len());
    assert("packed"@.len() != "separate"@.len());
    assert("packed"@.len() != "separate_texture"@.len());
    assert("packed_in_position_texture"@.len() != "separate"@.len());
    assert("packed_in_position_texture"@.len() != "separate_texture"@.len());
}

/// A proxy mesh can carry a bake exactly when it has positions, normals
/// and both UV channels, as many vertices as the bake, and UV1 texels
/// that name as many distinct texels as the bake has vertices.
pub proof fn law_mesh_rules(mesh: VatMeshSummary, a: VatAnimationData)
    ensures
        mesh_validation_outcome(mesh, a) is Ok <==> {
            &&& mesh.has_position && mesh.has_normal && mesh.has_uv0 && mesh.has_uv1
            &&& mesh.vertex_count == a.vertex_count
            &&& mesh.uv1_texels matches Some(texels) && texels@.to_set().len() == a.vertex_count
        },
{
}

/// Settling a clip: an active clip in range plays as it is; with no active
/// clip the startup selection plays when it resolves; otherwise the
/// fallback policy decides, and nothing plays when it finds nothing.
pub proof fn law_clip_resolution(
    clips: Seq<VatClip>,
    playback: VatPlayback,
    last_clip_index: Option<usize>,
)
    requires
        clips.len() <= usize::MAX,
    ensures
        playback.active_clip matches Some(i) ==> (i < clips.len() ==> clip_resolution(
            clips,
            playback,
            last_clip_index,
        ) == VatClipResolution::Resolved(i)),
        playback.active_clip is None ==> (clip_selection_result(clips, playback.startup_clip)
            matches Ok(k) ==> clip_resolution(clips, playback, last_clip_index)
            == VatClipResolution::Resolved(k)),
        requested_clip(clips, playback) is Err ==> resolution_clip(
            clip_resolution(clips, playback, last_clip_index),
        ) == fallback_clip(clips, playback, last_clip_index),
{
}

/// Which rule a rejection names: the rules are checked in order (mode,
/// frame rate, frame count, vertex count, clips, decode bounds, animation
/// bounds, texels per frame, rows for all frames, then clips and normals),
/// and the first one broken is reported.
pub proof fn law_validation_error_order(a: VatAnimationData)
    ensures
        a.animation_mode != VatAnimationMode::SoftBodyFixedTopology ==> validation_outcome(a)
            == Err::<(), VatValidationError>(VatValidationError::UnsupportedAnimationMode),
        a.animation_mode == VatAnimationMode::SoftBodyFixedTopology && f32_le(
            a.frames_per_second.bits,
            0,
        ) ==> validation_outcome(a) == Err::<(), VatValidationError>(
            VatValidationError::InvalidFramesPerSecond,
        ),
        a.animation_mode == VatAnimationMode::SoftBodyFixedTopology && !f32_le(
            a.frames_per_second.bits,
            0,
        ) && a.frame_count == 0 ==> validation_outcome(a) == Err::<(), VatValidationError>(
            VatValidationError::InvalidFrameCount,
        ),
        a.animation_mode == VatAnimationMode::SoftBodyFixedTopology && !f32_le(
            a.frames_per_second.bits,
            0,
        ) && a.frame_count > 0 && a.vertex_count == 0 ==> validation_outcome(a) == Err::<
            (),
            VatValidationError,
        >(VatValidationError::InvalidVertexCount),
        a.animation_mode == VatAnimationMode::SoftBodyFixedTopology && !f32_le(
            a.frames_per_second.bits,
            0,
        ) && a.frame_count > 0 && a.vertex_count > 0 && a.clips@.len() == 0
            ==> validation_outcome(a) == Err::<(), VatValidationError>(
            VatValidationError::MissingClips,
        ),
        a.animation_mode == VatAnimationMode::SoftBodyFixedTopology && !f32_le(
            a.frames_per_second.bits,
            0,
        ) && a.frame_count > 0 && a.vertex_count > 0 && a.clips@.len() > 0 && !f32_le(
            a.decode_bounds_min.z.bits,
            a.decode_bounds_max.z.bits,
        ) ==> validation_outcome(a) == Err::<(), VatValidationError>(
            VatValidationError::InvalidDecodeBounds,
        ),
        a.animation_mode == VatAnimationMode::SoftBodyFixedTopology && !f32_le(
            a.frames_per_second.bits,
            0,
        ) && a.frame_count > 0 && a.vertex_count > 0 && a.clips@.len() > 0 && bounds_valid(
            a.decode_bounds_min,
            a.decode_bounds_max,
        ) && !f32_le(a.animation_bounds_min.z.bits, a.animation_bounds_max.z.bits)
            ==> validation_outcome(a) == Err::<(), VatValidationError>(
            VatValidationError::InvalidAnimationBounds,
        ),
        passes_header_checks(a) && a.position_texture.width * a.position_texture.rows_per_frame
            < a.vertex_count ==> validation_outcome(a) == Err::<(), VatValidationError>(
            VatValidationError::PositionTextureTooSmall {
                vertex_count: a.vertex_count,
                capacity: (a.position_texture.width * a.position_texture.rows_per_frame) as u32,
            },
        ),
        passes_header_checks(a) && a.position_texture.width * a.position_texture.rows_per_frame
            >= a.vertex_count && a.position_texture.height < a.position_texture.rows_per_frame
            * a.frame_count ==> validation_outcome(a) == Err::<(), VatValidationError>(
            VatValidationError::InvalidPositionTextureLayout {
                height: a.position_texture.height,
                rows_per_frame: a.position_texture.rows_per_frame,
                frame_count: a.frame_count,
            },
        ),
{
}

/// An OpenVAT-compatible document must give `vertex_count`,
/// `texture_width` and `texture_height`, and is refused naming the first
/// one it lacks.
pub proof fn law_openvat_required_fields(raw: RawOpenVatMetadata)
    ensures
        raw.vertex_count is None ==> openvat_fault(raw) == Some(
            MetadataFault::Unsupported("OpenVAT-compatible metadata requires 'vertex_count'"@),
        ),
        raw.vertex_count is Some && raw.texture_width is None ==> openvat_fault(raw) == Some(
            MetadataFault::Unsupported("OpenVAT-compatible metadata requires 'texture_width'"@),
        ),
        raw.vertex_count is Some && raw.texture_width is Some && raw.texture_height is None
            ==> openvat_fault(raw) == Some(
            MetadataFault::Unsupported("OpenVAT-compatible metadata requires 'texture_height'"@),
        ),
        raw.vertex_count is Some && raw.texture_width is Some && raw.texture_height is Some
            && raw.coordinate_system is None && raw.playback_space is None ==> openvat_fault(raw)
            is None,
{
    law_coordinate_system_names(Seq::empty());
    law_playback_space_names(Seq::empty());
}

/// The source state a crossfade records is the clip it names, with the
/// playing clip's time and direction at that moment.
pub proof fn law_crossfade_source_state(clip: usize, playback: VatPlayback, direction: F32Bits)
    ensures
        source_state(clip, playback, direction).source_clip == clip,
        source_state(clip, playback, direction).source_time_seconds == playback.time_seconds,
        source_state(clip, playback, direction).source_direction == direction,
{
}

} // verus!
