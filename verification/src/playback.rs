//! The decisions the runtime takes each frame: which clip an entity plays,
//! what a crossfade request does to it, what a follower copies from its
//! leader, and which binding markers a proxy mesh gets.
use vstd::prelude::*;

use crate::asset::{clip_selection_result, VatAnimationData, VatClip, VatClipResolveError};
use crate::components::{
    VatBoundsMode, VatClipSelection, VatCrossfade, VatInvalidClipFallback, VatLoopMode,
    VatPlayback,
};
use crate::float_bits::{f32_clamp, f32_le, F32Bits, POSITIVE_ZERO_BITS};
use crate::validation::should_disable_frustum_culling;

verus! {

/// The pattern of `1.0`: playing forward.
pub const FORWARD_DIRECTION_BITS: u32 = 0x3F80_0000;

/// The loop mode that applies: the clip's own default when playback asks
/// for the default `Loop`, else what playback asks for.
pub open spec fn effective_loop_mode(requested: VatLoopMode, clip_default: Option<VatLoopMode>) -> VatLoopMode {
    if requested == VatLoopMode::Loop {
        match clip_default {
            Some(mode) => mode,
            None => VatLoopMode::Loop,
        }
    } else {
        requested
    }
}

/// The loop mode that governs `clip` under `playback`.
pub fn resolve_loop_mode(playback: &VatPlayback, clip: &VatClip) -> (r: VatLoopMode)
    ensures
        r == effective_loop_mode(playback.loop_mode, clip.default_loop_mode),
        playback.loop_mode != VatLoopMode::Loop ==> r == playback.loop_mode,
        clip.default_loop_mode is None ==> r == playback.loop_mode,
{
    if playback.loop_mode == VatLoopMode::Loop {
        match clip.default_loop_mode {
            Some(mode) => mode,
            None => playback.loop_mode,
        }
    } else {
        playback.loop_mode
    }
}

/// The clip the fallback policy picks when the requested clip does not resolve.
pub open spec fn fallback_clip(clips: Seq<VatClip>, playback: VatPlayback, last_clip_index: Option<
    usize,
>) -> Option<usize> {
    let first_valid = if clips.len() > 0 {
        Some(0usize)
    } else {
        None
    };
    match playback.invalid_clip_fallback {
        VatInvalidClipFallback::StartupClipThenFirstValid => {
            match clip_selection_result(clips, playback.startup_clip) {
                Ok(index) => Some(index),
                Err(_) => first_valid,
            }
        },
        VatInvalidClipFallback::FirstValid => first_valid,
        VatInvalidClipFallback::KeepCurrent => {
            if last_clip_index matches Some(index) && index < clips.len() {
                last_clip_index
            } else {
                None
            }
        },
    }
}

/// The clip the fallback policy of `playback` picks; `last_clip_index` is
/// the clip the entity played last.
pub fn resolve_invalid_clip_fallback(
    animation: &VatAnimationData,
    playback: &VatPlayback,
    last_clip_index: Option<usize>,
) -> (r: Option<usize>)
    ensures
        r == fallback_clip(animation.clips@, *playback, last_clip_index),
        r matches Some(index) ==> index < animation.clips@.len(),
{
    proof {
        assert(animation.clips.len() == animation.clips@.len());
        crate::asset::lemma_clip_selection_in_range(animation.clips@, playback.startup_clip);
    }
    match playback.invalid_clip_fallback {
        VatInvalidClipFallback::StartupClipThenFirstValid => {
            match animation.resolve_clip_selection(&playback.startup_clip) {
                Ok(index) => Some(index),
                Err(_) => if animation.clips.len() > 0 {
                    Some(0)
                } else {
                    None
                },
            }
        },
        VatInvalidClipFallback::FirstValid => if animation.clips.len() > 0 {
            Some(0)
        } else {
            None
        },
        VatInvalidClipFallback::KeepCurrent => match last_clip_index {
            Some(index) => if index < animation.clips.len() {
                Some(index)
            } else {
                None
            },
            None => None,
        },
    }
}

/// How the playback's clip was settled.
#[derive(Clone, Debug, PartialEq)]
pub enum VatClipResolution {
    /// The requested clip resolved.
    Resolved(usize),
    /// The requested clip did not resolve; the fallback policy picked another.
    FellBack { clip_index: usize, error: VatClipResolveError },
    /// Neither the requested clip nor the fallback policy gives a clip.
    Unresolved(VatClipResolveError),
}

impl VatClipResolution {
    /// The clip that plays, if any.
    pub fn clip_index(&self) -> (r: Option<usize>)
        ensures
            r == resolution_clip(*self),
    {
        match self {
            VatClipResolution::Resolved(index) => Some(*index),
            VatClipResolution::FellBack { clip_index, .. } => Some(*clip_index),
            VatClipResolution::Unresolved(_) => None,
        }
    }
}

/// The clip that a resolution plays.
pub open spec fn resolution_clip(r: VatClipResolution) -> Option<usize> {
    match r {
        VatClipResolution::Resolved(index) => Some(index),
        VatClipResolution::FellBack { clip_index, .. } => Some(clip_index),
        VatClipResolution::Unresolved(_) => None,
    }
}

/// The clip playback asks for: its active clip, or its startup selection
/// while it has none.
pub open spec fn requested_clip(clips: Seq<VatClip>, playback: VatPlayback) -> Result<
    usize,
    VatClipResolveError,
> {
    match playback.active_clip {
        None => clip_selection_result(clips, playback.startup_clip),
        Some(index) => clip_selection_result(clips, VatClipSelection::Index(index)),
    }
}

/// How `playback`'s clip is settled against `clips`.
pub open spec fn clip_resolution(
    clips: Seq<VatClip>,
    playback: VatPlayback,
    last_clip_index: Option<usize>,
) -> VatClipResolution {
    match requested_clip(clips, playback) {
        Ok(index) => VatClipResolution::Resolved(index),
        Err(error) => match fallback_clip(clips, playback, last_clip_index) {
            Some(clip_index) => VatClipResolution::FellBack { clip_index, error },
            None => VatClipResolution::Unresolved(error),
        },
    }
}

/// Settles which clip `playback` plays, records it as the active clip
/// (none when nothing resolves), and says how it was settled.
pub fn resolve_playback_clip(
    animation: &VatAnimationData,
    playback: &mut VatPlayback,
    last_clip_index: Option<usize>,
) -> (r: VatClipResolution)
    ensures
        r == clip_resolution(animation.clips@, *old(playback), last_clip_index),
        *final(playback) == (VatPlayback { active_clip: resolution_clip(r), ..*old(playback) }),
        resolution_clip(r) matches Some(index) ==> index < animation.clips@.len(),
{
    proof {
        assert(animation.clips.len() == animation.clips@.len());
        crate::asset::lemma_clip_selection_in_range(animation.clips@, playback.startup_clip);
        if let Some(index) = playback.active_clip {
            crate::asset::lemma_clip_selection_in_range(
                animation.clips@,
                VatClipSelection::Index(index),
            );
        }
    }
    let requested = match playback.active_clip {
        None => animation.resolve_clip_selection(&playback.startup_clip),
        Some(index) => animation.resolve_clip_selection(&VatClipSelection::Index(index)),
    };
    match requested {
        Ok(index) => {
            playback.active_clip = Some(index);
            VatClipResolution::Resolved(index)
        },
        Err(error) => match resolve_invalid_clip_fallback(animation, playback, last_clip_index) {
            Some(clip_index) => {
                playback.active_clip = Some(clip_index);
                VatClipResolution::FellBack { clip_index, error }
            },
            None => {
                playback.active_clip = None;
                VatClipResolution::Unresolved(error)
            },
        },
    }
}

/// Why a crossfade request is dropped.
#[derive(Clone, Copy, Debug, PartialEq, Eq, Structural)]
pub enum VatCrossfadeRejection {
    /// The source clip index is past the end of the clip list.
    MissingSourceClip,
    /// The target clip index is past the end of the clip list.
    MissingTargetClip,
}

/// The source and target clips of a crossfade request, when both exist.
pub fn validate_crossfade_request(animation: &VatAnimationData, crossfade: &VatCrossfade) -> (r:
    Result<(usize, usize), VatCrossfadeRejection>)
    ensures
        crossfade.from_clip >= animation.clips@.len() ==> r == Err::<
            (usize, usize),
            VatCrossfadeRejection,
        >(VatCrossfadeRejection::MissingSourceClip),
        crossfade.from_clip < animation.clips@.len() <= crossfade.to_clip ==> r == Err::<
            (usize, usize),
            VatCrossfadeRejection,
        >(VatCrossfadeRejection::MissingTargetClip),
        crossfade.from_clip < animation.clips@.len() && crossfade.to_clip < animation.clips@.len()
            ==> r == Ok::<(usize, usize), VatCrossfadeRejection>(
            (crossfade.from_clip, crossfade.to_clip),
        ),
{
    if animation.clip(crossfade.from_clip).is_none() {
        return Err(VatCrossfadeRejection::MissingSourceClip);
    }
    if animation.clip(crossfade.to_clip).is_none() {
        return Err(VatCrossfadeRejection::MissingTargetClip);
    }
    Ok((crossfade.from_clip, crossfade.to_clip))
}

/// Where the clip a crossfade blends from stands.
#[derive(Clone, Copy, Debug, PartialEq)]
pub struct VatCrossfadeRuntime {
    pub source_clip: usize,
    pub source_time_seconds: F32Bits,
    pub source_direction: F32Bits,
}

/// What a crossfade request does this frame.
#[derive(Clone, Debug, PartialEq)]
pub enum VatCrossfadeStep {
    /// The request names a missing clip: drop it and its source state.
    Drop(VatCrossfadeRejection),
    /// The request is new: record this source state; nothing advances yet.
    Capture(VatCrossfadeRuntime),
    /// Blend from this source state, whose clip time advances with playback.
    Blend(VatCrossfadeRuntime),
}

/// The source state taken from the playing clip.
pub open spec fn source_state(clip: usize, playback: VatPlayback, direction: F32Bits) -> VatCrossfadeRuntime {
    VatCrossfadeRuntime {
        source_clip: clip,
        source_time_seconds: playback.time_seconds,
        source_direction: direction,
    }
}

/// Applies a crossfade request to an entity whose playback has just
/// advanced on `active_clip_index`, moving in `direction`. A new request
/// only records where the source stands. A running one re-records the
/// source when the request names another source clip, and switches
/// playback to the target clip from its start, moving forward, keeping
/// the clip it left as the source.
pub fn plan_crossfade_step(
    animation: &VatAnimationData,
    crossfade: &VatCrossfade,
    existing: Option<VatCrossfadeRuntime>,
    active_clip_index: usize,
    playback: &mut VatPlayback,
    direction: &mut F32Bits,
    last_clip_index: &mut Option<usize>,
) -> (r: VatCrossfadeStep)
    ensures
        ({
            let clips = animation.clips@;
            let from = crossfade.from_clip;
            let to = crossfade.to_clip;
            if from >= clips.len() || to >= clips.len() {
                &&& r matches VatCrossfadeStep::Drop(_)
                &&& *final(playback) == *old(playback)
                &&& *final(direction) == *old(direction)
                &&& *final(last_clip_index) == *old(last_clip_index)
            } else if existing is None {
                &&& r == VatCrossfadeStep::Capture(
                    source_state(from, *old(playback), *old(direction)),
                )
                &&& *final(playback) == *old(playback)
                &&& *final(direction) == *old(direction)
                &&& *final(last_clip_index) == *old(last_clip_index)
            } else if old(playback).active_clip != Some(to) {
                &&& r == VatCrossfadeStep::Blend(
                    source_state(active_clip_index, *old(playback), *old(direction)),
                )
                &&& *final(playback) == (VatPlayback {
                    active_clip: Some(to),
                    time_seconds: F32Bits { bits: 0 },
                    ..*old(playback)
                })
                &&& final(direction).bits == FORWARD_DIRECTION_BITS
                &&& *final(last_clip_index) == Some(to)
            } else {
                &&& r == VatCrossfadeStep::Blend(
                    if existing->0.source_clip != from {
                        source_state(from, *old(playback), *old(direction))
                    } else {
                        existing->0
                    },
                )
                &&& *final(playback) == *old(playback)
                &&& *final(direction) == *old(direction)
                &&& *final(last_clip_index) == *old(last_clip_index)
            }
        }),
{
    let (from_clip, to_clip) = match validate_crossfade_request(animation, crossfade) {
        Ok(pair) => pair,
        Err(rejection) => {
            return VatCrossfadeStep::Drop(rejection);
        },
    };
    let mut runtime = match existing {
        Some(runtime) => runtime,
        None => {
            return VatCrossfadeStep::Capture(
                VatCrossfadeRuntime {
                    source_clip: from_clip,
                    source_time_seconds: playback.time_seconds,
                    source_direction: *direction,
                },
            );
        },
    };
    if runtime.source_clip != from_clip {
        runtime = VatCrossfadeRuntime {
            source_clip: from_clip,
            source_time_seconds: playback.time_seconds,
            source_direction: *direction,
        };
    }
    let switching = match playback.active_clip {
        Some(index) => index != to_clip,
        None => true,
    };
    if switching {
        runtime = VatCrossfadeRuntime {
            source_clip: active_clip_index,
            source_time_seconds: playback.time_seconds,
            source_direction: *direction,
        };
        playback.active_clip = Some(to_clip);
        playback.time_seconds = F32Bits::zero();
        *direction = F32Bits::from_bits(FORWARD_DIRECTION_BITS);
        *last_clip_index = Some(to_clip);
    }
    VatCrossfadeStep::Blend(runtime)
}

/// Settles playback on `active_clip_index`, the clip it plays this frame.
/// When that is not the clip played last, playback starts it moving
/// forward, with its time clamped into `[0, clip_duration]`, and records it
/// as played last; otherwise nothing changes. Returns whether the clip
/// changed. `clip_duration` only matters on a change, where it must be an
/// ordered number no less than zero.
pub fn enter_active_clip(
    active_clip_index: usize,
    clip_duration: F32Bits,
    playback: &mut VatPlayback,
    direction: &mut F32Bits,
    last_clip_index: &mut Option<usize>,
) -> (changed: bool)
    requires
        *old(last_clip_index) != Some(active_clip_index) ==> f32_le(
            POSITIVE_ZERO_BITS,
            clip_duration.bits,
        ),
    ensures
        changed == (*old(last_clip_index) != Some(active_clip_index)),
        changed ==> {
            &&& *final(playback) == (VatPlayback {
                time_seconds: F32Bits {
                    bits: f32_clamp(
                        old(playback).time_seconds.bits,
                        POSITIVE_ZERO_BITS,
                        clip_duration.bits,
                    ),
                },
                ..*old(playback)
            })
            &&& final(direction).bits == FORWARD_DIRECTION_BITS
            &&& *final(last_clip_index) == Some(active_clip_index)
        },
        !changed ==> {
            &&& *final(playback) == *old(playback)
            &&& *final(direction) == *old(direction)
            &&& *final(last_clip_index) == *old(last_clip_index)
        },
{
    let changed = match *last_clip_index {
        Some(index) => index != active_clip_index,
        None => true,
    };
    if changed {
        *direction = F32Bits::from_bits(FORWARD_DIRECTION_BITS);
        *last_clip_index = Some(active_clip_index);
        playback.time_seconds = playback.time_seconds.clamp(F32Bits::zero(), clip_duration);
    }
    changed
}

/// Stops playback when this frame's advance ran a play-once clip out.
pub fn pause_when_finished(playback: &mut VatPlayback, should_pause: bool)
    ensures
        *final(playback) == (VatPlayback {
            playing: old(playback).playing && !should_pause,
            ..*old(playback)
        }),
{
    if should_pause {
        playback.playing = false;
    }
}

/// `a` is drawn before `b`: by smaller key, and by position among equal keys.
pub open spec fn slot_before(keys: Seq<u32>, a: int, b: int) -> bool {
    keys[a] < keys[b] || (keys[a] == keys[b] && a < b)
}

/// Some slot of `order` holds position `p`.
pub open spec fn has_slot(order: Seq<usize>, p: int) -> bool {
    exists|k: int| 0 <= k < order.len() && order[k] == p
}

/// The order in which the instances sharing a material are laid out in
/// its buffer: positions `0..keys.len()` sorted by key, equal keys keeping
/// their order. The instance at `order[k]` fills slot `k` of the buffer
/// and is tagged with `k`.
#[verifier::loop_isolation(false)]
pub fn instance_order(keys: &Vec<u32>) -> (order: Vec<usize>)
    ensures
        order@.len() == keys@.len(),
        forall|k: int| 0 <= k < order@.len() ==> #[trigger] order@[k] < keys@.len(),
        forall|i: int, j: int|
            #![trigger order@[i], order@[j]]
            0 <= i < j < order@.len() ==> slot_before(keys@, order@[i] as int, order@[j] as int),
        forall|i: int, j: int|
            #![trigger order@[i], order@[j]]
            0 <= i < j < order@.len() ==> keys@[order@[i] as int] <= keys@[order@[j] as int]
                && order@[i] != order@[j],
        forall|p: int| 0 <= p < keys@.len() ==> #[trigger] has_slot(order@, p),
{
    let mut order: Vec<usize> = Vec::new();
    let mut p: usize = 0;
    while p < keys.len()
        invariant
            p <= keys@.len(),
            order@.len() == p,
            forall|k: int| 0 <= k < order@.len() ==> #[trigger] order@[k] < p,
            forall|i: int, j: int|
                #![trigger order@[i], order@[j]]
                0 <= i < j < order@.len() ==> slot_before(keys@, order@[i] as int, order@[j] as int),
            forall|x: int| 0 <= x < p ==> #[trigger] has_slot(order@, x),
        decreases keys@.len() - p,
    {
        let key = keys[p];
        let mut q: usize = order.len();
        while q > 0 && keys[order[q - 1]] > key
            invariant
                q <= order@.len(),
                forall|k: int| q <= k < order@.len() ==> keys@[#[trigger] order@[k] as int] > key,
            decreases q,
        {
            q = q - 1;
        }
        proof {
            assert forall|k: int| 0 <= k < q implies keys@[#[trigger] order@[k] as int] <= key by {
                if k < q - 1 {
                    assert(slot_before(keys@, order@[k] as int, order@[q - 1] as int));
                }
            }
        }
        let ghost before = order@;
        order.insert(q, p);
        proof {
            assert(order@ == before.insert(q as int, p));
            assert forall|x: int| 0 <= x <= p implies #[trigger] has_slot(order@, x) by {
                if x == p {
                    assert(order@[q as int] == p);
                } else {
                    assert(has_slot(before, x));
                    let k0 = choose|k: int| 0 <= k < before.len() && before[k] == x;
                    if k0 < q {
                        assert(order@[k0] == x);
                    } else {
                        assert(order@[k0 + 1] == x);
                    }
                }
            }
            assert forall|i: int, j: int|
                #![trigger order@[i], order@[j]]
                0 <= i < j < order@.len() implies slot_before(keys@, order@[i] as int, order@[j] as int) by {
                if j < q {
                    assert(order@[i] == before[i] && order@[j] == before[j]);
                } else if j == q {
                    assert(order@[i] == before[i]);
                    assert(keys@[before[i] as int] <= key);
                } else if i < q {
                    assert(order@[i] == before[i] && order@[j] == before[j - 1]);
                } else if i == q {
                    assert(order@[j] == before[j - 1]);
                    assert(keys@[before[j - 1] as int] > key);
                } else {
                    assert(order@[i] == before[i - 1] && order@[j] == before[j - 1]);
                }
            }
        }
        p = p + 1;
    }
    order
}

/// The playback a follower takes over from its leader before its clip is
/// settled: the leader's active clip and play state, and its loop mode
/// when the follower mirrors it.
pub open spec fn mirrored_playback(
    leader: VatPlayback,
    mirror_loop_mode: bool,
    follower: VatPlayback,
) -> VatPlayback {
    VatPlayback {
        active_clip: leader.active_clip,
        playing: leader.playing,
        loop_mode: if mirror_loop_mode {
            leader.loop_mode
        } else {
            follower.loop_mode
        },
        ..follower
    }
}

/// Copies the leader's clip selection and play state into a follower and
/// settles its clip; does nothing (and answers `None`) when the follower's
/// metadata has no clips.
pub fn sync_follower_clip(
    animation: &VatAnimationData,
    leader: &VatPlayback,
    mirror_loop_mode: bool,
    playback: &mut VatPlayback,
    last_clip_index: Option<usize>,
) -> (r: Option<VatClipResolution>)
    ensures
        animation.clips@.len() == 0 ==> r is None && *final(playback) == *old(playback),
        animation.clips@.len() > 0 ==> {
            let mirrored = mirrored_playback(*leader, mirror_loop_mode, *old(playback));
            &&& r == Some(clip_resolution(animation.clips@, mirrored, last_clip_index))
            &&& *final(playback) == (VatPlayback {
                active_clip: resolution_clip(r->0),
                ..mirrored
            })
        },
        animation.clips@.len() > 0 ==> {
            &&& final(playback).playing == leader.playing
            &&& final(playback).loop_mode == (if mirror_loop_mode {
                leader.loop_mode
            } else {
                old(playback).loop_mode
            })
            &&& final(playback).time_seconds == old(playback).time_seconds
            &&& final(playback).speed == old(playback).speed
        },
{
    if animation.clips.len() == 0 {
        return None;
    }
    playback.active_clip = leader.active_clip;
    playback.playing = leader.playing;
    if mirror_loop_mode {
        playback.loop_mode = leader.loop_mode;
    }
    Some(resolve_playback_clip(animation, playback, last_clip_index))
}

/// What a follower does about its leader's crossfade.
#[derive(Clone, Debug, PartialEq)]
pub enum VatFollowerCrossfadeStep {
    /// The leader blends nothing: the follower drops any crossfade.
    Remove,
    /// The leader's request names a clip the follower's metadata lacks: drop it.
    Reject(VatCrossfadeRejection),
    /// Blend as the leader does.
    Mirror(VatCrossfade),
}

/// The follower's part of its leader's crossfade: the leader's request,
/// as long as the leader has started blending and both clips exist in the
/// follower's metadata.
pub fn plan_follower_crossfade(
    animation: &VatAnimationData,
    leader_crossfade: Option<&VatCrossfade>,
    leader_blending: bool,
) -> (r: VatFollowerCrossfadeStep)
    ensures
        match leader_crossfade {
            Some(c) if leader_blending => {
                if c.from_clip >= animation.clips@.len() {
                    r == VatFollowerCrossfadeStep::Reject(VatCrossfadeRejection::MissingSourceClip)
                } else if c.to_clip >= animation.clips@.len() {
                    r == VatFollowerCrossfadeStep::Reject(VatCrossfadeRejection::MissingTargetClip)
                } else {
                    r == VatFollowerCrossfadeStep::Mirror(*c)
                }
            },
            _ => r == VatFollowerCrossfadeStep::Remove,
        },
{
    match leader_crossfade {
        Some(crossfade) => {
            if !leader_blending {
                return VatFollowerCrossfadeStep::Remove;
            }
            match validate_crossfade_request(animation, crossfade) {
                Ok((from_clip, to_clip)) => VatFollowerCrossfadeStep::Mirror(
                    VatCrossfade {
                        from_clip,
                        to_clip,
                        elapsed: crossfade.elapsed,
                        duration: crossfade.duration,
                    },
                ),
                Err(rejection) => VatFollowerCrossfadeStep::Reject(rejection),
            }
        },
        None => VatFollowerCrossfadeStep::Remove,
    }
}

/// Whether a binding must be checked again: something it depends on
/// changed, or it has no outcome yet.
pub fn binding_needs_check(
    source_changed: bool,
    mesh_changed: bool,
    assets_changed: bool,
    has_binding_ready: bool,
    has_binding_failure: bool,
) -> (r: bool)
    ensures
        r == (source_changed || mesh_changed || assets_changed || !(has_binding_ready
            || has_binding_failure)),
{
    source_changed || mesh_changed || assets_changed || !(has_binding_ready || has_binding_failure)
}

/// The markers a binding check adds or removes.
#[derive(Clone, Copy, Debug, PartialEq, Eq, Structural)]
pub struct VatBindingActions {
    pub remove_failure: bool,
    pub insert_ready: bool,
    pub remove_ready: bool,
    pub record_failure: bool,
    pub insert_metadata_aabb: bool,
    pub insert_no_frustum_culling: bool,
    pub remove_no_frustum_culling: bool,
}

/// What a binding check does with its outcome. A valid mesh is marked
/// ready (a recorded failure goes), gets the metadata bounds when the
/// bounds mode asks for them, and loses or gains the no-culling marker as
/// `should_disable_frustum_culling` decides. An invalid mesh loses the
/// ready marker and records the failure unless the same reason is recorded.
pub fn plan_binding_actions(
    animation: &VatAnimationData,
    bounds_mode: VatBoundsMode,
    mesh_valid: bool,
    has_binding_ready: bool,
    has_binding_failure: bool,
    same_failure_recorded: bool,
    has_no_frustum_culling: bool,
) -> (r: VatBindingActions)
    ensures
        mesh_valid ==> {
            let disable = bounds_mode == VatBoundsMode::DisableFrustumCulling
                || animation.playback_space == crate::asset::VatPlaybackSpace::World
                || animation.animation_mode == crate::asset::VatAnimationMode::RigidBody;
            r == (VatBindingActions {
                remove_failure: has_binding_failure,
                insert_ready: !has_binding_ready,
                remove_ready: false,
                record_failure: false,
                insert_metadata_aabb: bounds_mode == VatBoundsMode::UseMetadataAabb,
                insert_no_frustum_culling: disable && !has_no_frustum_culling,
                remove_no_frustum_culling: !disable && has_no_frustum_culling,
            })
        },
        !mesh_valid ==> r == (VatBindingActions {
            remove_failure: false,
            insert_ready: false,
            remove_ready: has_binding_ready,
            record_failure: !(has_binding_failure && same_failure_recorded),
            insert_metadata_aabb: false,
            insert_no_frustum_culling: false,
            remove_no_frustum_culling: false,
        }),
{
    if !mesh_valid {
        return VatBindingActions {
            remove_failure: false,
            insert_ready: false,
            remove_ready: has_binding_ready,
            record_failure: !(has_binding_failure && same_failure_recorded),
            insert_metadata_aabb: false,
            insert_no_frustum_culling: false,
            remove_no_frustum_culling: false,
        };
    }
    let disable = should_disable_frustum_culling(animation, bounds_mode);
    VatBindingActions {
        remove_failure: has_binding_failure,
        insert_ready: !has_binding_ready,
        remove_ready: false,
        record_failure: false,
        insert_metadata_aabb: matches!(bounds_mode, VatBoundsMode::UseMetadataAabb),
        insert_no_frustum_culling: disable && !has_no_frustum_culling,
        remove_no_frustum_culling: !disable && has_no_frustum_culling,
    }
}

} // verus!
