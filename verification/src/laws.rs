//! Properties that tie several operations of the library together.
use vstd::prelude::*;

use crate::asset::{
    clip_selection_result, lemma_clip_selection_in_range, named_clip_result, VatAnimationData,
    VatClip, VatClipResolveError,
};
use crate::components::{VatClipSelection, VatPlayback, MIN_CROSSFADE_DURATION_BITS};
use crate::float_bits::{f32_le, f32_max, f32_neg, is_nan, vec3_is_finite, Vec3Bits};
use crate::playback::{clip_resolution, mirrored_playback, resolution_clip};
use crate::validation::{bounds_valid, lemma_validation_accepts_exactly, validation_outcome};

verus! {

/// Reading back a named clip: when `play_clip_named(animation, name)`
/// succeeds, the clip it makes active carries `name`, so
/// `active_clip_name(animation)` gives `name` back.
pub proof fn law_play_clip_named_reads_back(
    clips: Seq<VatClip>,
    name: Seq<char>,
    index: usize,
)
    requires
        clips.len() <= usize::MAX,
        named_clip_result(clips, name, Ok(index)),
    ensures
        index < clips.len(),
        clips[index as int].name@ == name,
{
    crate::asset::lemma_first_clip_named_from(clips, name, 0);
}

/// Metadata that passes validation always has a default clip: the first one.
pub proof fn law_valid_metadata_has_default_clip(a: VatAnimationData)
    requires
        validation_outcome(a) is Ok,
    ensures
        clip_selection_result(a.clips@, VatClipSelection::MetadataDefault) == Ok::<
            usize,
            VatClipResolveError,
        >(0),
{
}

/// In metadata that passes validation every clip lies inside the baked
/// frames, so every clip index resolves and every clip's frame count is defined.
pub proof fn law_valid_metadata_clips_resolve(a: VatAnimationData, index: usize)
    requires
        validation_outcome(a) is Ok,
        index < a.clips@.len(),
    ensures
        clip_selection_result(a.clips@, VatClipSelection::Index(index)) == Ok::<
            usize,
            VatClipResolveError,
        >(index),
        a.clips@[index as int].start_frame <= a.clips@[index as int].end_frame < a.frame_count,
{
    lemma_validation_accepts_exactly(a);
    assert(crate::validation::clip_is_valid(a.clips@[index as int], a.frame_count));
}

/// `with_time_seconds` never stores a negative time or a NaN.
pub proof fn law_time_seconds_not_negative(time_bits: u32)
    ensures
        !is_nan(f32_max(time_bits, 0)),
        f32_le(0, f32_max(time_bits, 0)),
{
}

/// A crossfade's duration is never below `0.0001`, whatever was asked for.
pub proof fn law_crossfade_duration_floor(duration_bits: u32)
    ensures
        f32_le(MIN_CROSSFADE_DURATION_BITS, f32_max(duration_bits, MIN_CROSSFADE_DURATION_BITS)),
{
}

/// Bounds made of one point are valid exactly when the point is finite.
pub proof fn law_point_bounds_valid(v: Vec3Bits)
    ensures
        bounds_valid(v, v) <==> vec3_is_finite(v),
{
}

/// Negating twice gives back the same bit pattern.
pub proof fn law_negation_involutive(bits: u32)
    ensures
        f32_neg(f32_neg(bits)) == bits,
{
}

/// A follower whose leader plays a clip that the follower's metadata also
/// has plays that same clip.
pub proof fn law_follower_plays_leader_clip(
    clips: Seq<VatClip>,
    leader: VatPlayback,
    mirror_loop_mode: bool,
    follower: VatPlayback,
    last_clip_index: Option<usize>,
    index: usize,
)
    requires
        leader.active_clip == Some(index),
        index < clips.len(),
    ensures
        resolution_clip(
            clip_resolution(
                clips,
                mirrored_playback(leader, mirror_loop_mode, follower),
                last_clip_index,
            ),
        ) == Some(index),
{
}

/// A settled clip stays settled: once playback's clip is resolved (or a
/// fallback is taken), resolving again keeps playing that clip.
pub proof fn law_resolved_clip_is_stable(
    clips: Seq<VatClip>,
    playback: VatPlayback,
    last_clip_index: Option<usize>,
    next_last_clip_index: Option<usize>,
    index: usize,
)
    requires
        clips.len() <= usize::MAX,
        resolution_clip(clip_resolution(clips, playback, last_clip_index)) == Some(index),
    ensures
        clip_resolution(
            clips,
            VatPlayback { active_clip: Some(index), ..playback },
            next_last_clip_index,
        ) == crate::playback::VatClipResolution::Resolved(index),
{
    lemma_clip_selection_in_range(clips, playback.startup_clip);
    if let Some(i) = playback.active_clip {
        lemma_clip_selection_in_range(clips, VatClipSelection::Index(i));
    }
}

} // verus!
