//! Playback state that an animated entity carries.
use vstd::prelude::*;

use crate::asset::{
    clip_selection_result, first_clip_named, lemma_first_clip_named_from, named_clip_result, VatAnimationData,
    VatClipResolveError,
};
use crate::float_bits::{f32_max, F32Bits};

verus! {

/// The pattern of `1.0`, the default playback speed.
pub const UNIT_SPEED_BITS: u32 = 0x3F80_0000;

/// The pattern of `0.0001`, the shortest crossfade.
pub const MIN_CROSSFADE_DURATION_BITS: u32 = 0x38D1_B717;

/// What happens at the boundaries of a clip.
#[derive(Clone, Copy, Debug, Default, PartialEq, Eq, Structural, Hash)]
pub enum VatLoopMode {
    /// Wraps at the end and plays forever.
    #[default]
    Loop,
    /// Plays to the boundary and pauses.
    Once,
    /// Reflects at both boundaries.
    PingPong,
    /// Holds the boundary frame without pausing.
    ClampForever,
}

/// How the clip to start with is chosen.
#[derive(Clone, Debug, Default, PartialEq, Eq, Hash)]
pub enum VatClipSelection {
    #[default]
    MetadataDefault,
    Index(usize),
    Name(String),
}

/// What playback falls back to when its clip no longer resolves.
#[derive(Clone, Copy, Debug, Default, PartialEq, Eq, Structural, Hash)]
pub enum VatInvalidClipFallback {
    #[default]
    StartupClipThenFirstValid,
    FirstValid,
    KeepCurrent,
}

/// Which bounds the renderer culls against.
#[derive(Clone, Copy, Debug, Default, PartialEq, Eq, Structural, Hash)]
pub enum VatBoundsMode {
    #[default]
    UseMetadataAabb,
    KeepProxyAabb,
    DisableFrustumCulling,
}

/// Clip-local playback state of one entity.
#[derive(Clone, Debug, PartialEq)]
pub struct VatPlayback {
    pub time_seconds: F32Bits,
    pub speed: F32Bits,
    pub active_clip: Option<usize>,
    pub startup_clip: VatClipSelection,
    pub invalid_clip_fallback: VatInvalidClipFallback,
    pub loop_mode: VatLoopMode,
    pub playing: bool,
}

/// A blend from one clip to another over a duration.
#[derive(Clone, Debug, PartialEq)]
pub struct VatCrossfade {
    pub from_clip: usize,
    pub to_clip: usize,
    pub elapsed: F32Bits,
    pub duration: F32Bits,
}

/// Per-entity playback options.
#[derive(Clone, Debug, Default, PartialEq)]
pub struct VatPlaybackTweaks {
    pub disable_interpolation: bool,
}

/// Mirrors the playback of a leader entity, known by its entity bits.
#[derive(Clone, Debug, PartialEq)]
pub struct VatPlaybackFollower {
    pub leader: u64,
    pub time_offset_seconds: F32Bits,
    pub mirror_loop_mode: bool,
    pub mirror_crossfade: bool,
}

impl Default for VatPlayback {
    fn default() -> (r: Self)
        ensures
            r.time_seconds.bits == 0,
            r.speed.bits == UNIT_SPEED_BITS,
            r.active_clip == Some(0usize),
            r.startup_clip == VatClipSelection::MetadataDefault,
            r.invalid_clip_fallback == VatInvalidClipFallback::StartupClipThenFirstValid,
            r.loop_mode == VatLoopMode::Loop,
            r.playing,
    {
        VatPlayback {
            time_seconds: F32Bits::zero(),
            speed: F32Bits::from_bits(UNIT_SPEED_BITS),
            active_clip: Some(0),
            startup_clip: VatClipSelection::MetadataDefault,
            invalid_clip_fallback: VatInvalidClipFallback::StartupClipThenFirstValid,
            loop_mode: VatLoopMode::Loop,
            playing: true,
        }
    }
}

impl VatPlayback {
    /// Plays the clip at `clip_index`, also as the startup selection.
    pub fn with_clip(self, clip_index: usize) -> (r: Self)
        ensures
            r == (VatPlayback {
                active_clip: Some(clip_index),
                startup_clip: VatClipSelection::Index(clip_index),
                ..self
            }),
    {
        VatPlayback {
            active_clip: Some(clip_index),
            startup_clip: VatClipSelection::Index(clip_index),
            ..self
        }
    }

    /// The same as `with_clip`.
    pub fn with_clip_index(self, clip_index: usize) -> (r: Self)
        ensures
            r == (VatPlayback {
                active_clip: Some(clip_index),
                startup_clip: VatClipSelection::Index(clip_index),
                ..self
            }),
    {
        self.with_clip(clip_index)
    }

    /// Starts from the clip named `clip_name`, resolved against the metadata.
    pub fn with_clip_name(self, clip_name: String) -> (r: Self)
        ensures
            r == (VatPlayback {
                active_clip: None,
                startup_clip: VatClipSelection::Name(clip_name),
                ..self
            }),
    {
        VatPlayback { active_clip: None, startup_clip: VatClipSelection::Name(clip_name), ..self }
    }

    /// Starts from the metadata's default clip.
    pub fn with_metadata_default_clip(self) -> (r: Self)
        ensures
            r == (VatPlayback {
                active_clip: None,
                startup_clip: VatClipSelection::MetadataDefault,
                ..self
            }),
    {
        VatPlayback { active_clip: None, startup_clip: VatClipSelection::MetadataDefault, ..self }
    }

    /// Sets the fallback policy.
    pub fn with_invalid_clip_fallback(self, invalid_clip_fallback: VatInvalidClipFallback) -> (r:
        Self)
        ensures
            r == (VatPlayback { invalid_clip_fallback, ..self }),
    {
        VatPlayback { invalid_clip_fallback, ..self }
    }

    /// Sets the loop mode.
    pub fn with_loop_mode(self, loop_mode: VatLoopMode) -> (r: Self)
        ensures
            r == (VatPlayback { loop_mode, ..self }),
    {
        VatPlayback { loop_mode, ..self }
    }

    /// Sets the speed multiplier.
    pub fn with_speed(self, speed: F32Bits) -> (r: Self)
        ensures
            r == (VatPlayback { speed, ..self }),
    {
        VatPlayback { speed, ..self }
    }

    /// Sets the clip-local time, `time_seconds.max(0.0)`.
    pub fn with_time_seconds(self, time_seconds: F32Bits) -> (r: Self)
        ensures
            r == (VatPlayback {
                time_seconds: F32Bits { bits: f32_max(time_seconds.bits, 0) },
                ..self
            }),
    {
        VatPlayback { time_seconds: time_seconds.max(F32Bits::zero()), ..self }
    }

    /// Stops time from advancing.
    pub fn paused(self) -> (r: Self)
        ensures
            r == (VatPlayback { playing: false, ..self }),
    {
        VatPlayback { playing: false, ..self }
    }

    /// Switches to the clip named `clip_name`; leaves the playback as it
    /// was when no clip has that name.
    pub fn play_clip_named(&mut self, animation: &VatAnimationData, clip_name: &str) -> (r: Result<
        usize,
        VatClipResolveError,
    >)
        ensures
            named_clip_result(animation.clips@, clip_name@, r),
            r matches Ok(index) ==> {
                &&& final(self).startup_clip matches VatClipSelection::Name(n) && n@ == clip_name@
                &&& *final(self) == (VatPlayback {
                    active_clip: Some(index),
                    startup_clip: final(self).startup_clip,
                    ..*old(self)
                })
            },
            r is Err ==> *final(self) == *old(self),
    {
        let selection = VatClipSelection::Name(clip_name.to_owned());
        let resolved = animation.resolve_clip_selection(&selection);
        if let Ok(index) = resolved {
            self.active_clip = Some(index);
            self.startup_clip = selection;
        }
        resolved
    }

    /// Switches to the clip at `clip_index`; leaves the playback as it was
    /// when the index is out of range.
    pub fn play_clip_index(&mut self, animation: &VatAnimationData, clip_index: usize) -> (r:
        Result<usize, VatClipResolveError>)
        ensures
            r == clip_selection_result(animation.clips@, VatClipSelection::Index(clip_index)),
            r matches Ok(index) ==> *final(self) == (VatPlayback {
                active_clip: Some(index),
                startup_clip: VatClipSelection::Index(index),
                ..*old(self)
            }),
            r is Err ==> *final(self) == *old(self),
    {
        let resolved = animation.resolve_clip_selection(&VatClipSelection::Index(clip_index));
        if let Ok(index) = resolved {
            self.active_clip = Some(index);
            self.startup_clip = VatClipSelection::Index(index);
        }
        resolved
    }

    /// The name of the active clip, when it names a clip of `animation`.
    pub fn active_clip_name<'a>(&self, animation: &'a VatAnimationData) -> (r: Option<&'a str>)
        ensures
            match self.active_clip {
                Some(i) if i < animation.clips@.len() => r matches Some(name) && name@
                    == animation.clips@[i as int].name@,
                _ => r is None,
            },
    {
        match self.active_clip {
            Some(index) => match animation.clip(index) {
                Some(clip) => Some(clip.name.as_str()),
                None => None,
            },
            None => None,
        }
    }
}

impl VatCrossfade {
    /// A crossfade that has not started; the duration is at least `0.0001`.
    pub fn new(from_clip: usize, to_clip: usize, duration: F32Bits) -> (r: Self)
        ensures
            r.from_clip == from_clip,
            r.to_clip == to_clip,
            r.elapsed.bits == 0,
            r.duration.bits == f32_max(duration.bits, MIN_CROSSFADE_DURATION_BITS),
    {
        VatCrossfade {
            from_clip,
            to_clip,
            elapsed: F32Bits::zero(),
            duration: duration.max(F32Bits::from_bits(MIN_CROSSFADE_DURATION_BITS)),
        }
    }

    /// A crossfade between two clips named in the metadata.
    pub fn between_clip_names(
        animation: &VatAnimationData,
        from_clip_name: &str,
        to_clip_name: &str,
        duration: F32Bits,
    ) -> (r: Result<Self, VatClipResolveError>)
        ensures
            match (
                first_clip_named(animation.clips@, from_clip_name@),
                first_clip_named(animation.clips@, to_clip_name@),
            ) {
                (None, _) => r matches Err(VatClipResolveError::UnknownClipName(n)) && n@
                    == from_clip_name@,
                (Some(_), None) => r matches Err(VatClipResolveError::UnknownClipName(n)) && n@
                    == to_clip_name@,
                (Some(f), Some(t)) => r matches Ok(c) && c.from_clip == f && c.to_clip == t
                    && c.elapsed.bits == 0 && c.duration.bits == f32_max(
                    duration.bits,
                    MIN_CROSSFADE_DURATION_BITS,
                ),
            },
    {
        proof {
            assert(animation.clips.len() == animation.clips@.len());
            lemma_first_clip_named_from(animation.clips@, from_clip_name@, 0);
            lemma_first_clip_named_from(animation.clips@, to_clip_name@, 0);
        }
        let from_clip = match animation.resolve_clip_selection(
            &VatClipSelection::Name(from_clip_name.to_owned()),
        ) {
            Ok(index) => index,
            Err(error) => {
                return Err(error);
            },
        };
        let to_clip = match animation.resolve_clip_selection(
            &VatClipSelection::Name(to_clip_name.to_owned()),
        ) {
            Ok(index) => index,
            Err(error) => {
                return Err(error);
            },
        };
        Ok(VatCrossfade::new(from_clip, to_clip, duration))
    }

    /// A crossfade from the playback's active clip to the clip named `to_clip_name`.
    pub fn to_clip_name(
        animation: &VatAnimationData,
        playback: &VatPlayback,
        to_clip_name: &str,
        duration: F32Bits,
    ) -> (r: Result<Self, VatClipResolveError>)
        ensures
            match (playback.active_clip, first_clip_named(animation.clips@, to_clip_name@)) {
                (None, _) => r == Err::<Self, VatClipResolveError>(
                    VatClipResolveError::UnresolvedPlaybackClip,
                ),
                (Some(_), None) => r matches Err(VatClipResolveError::UnknownClipName(n)) && n@
                    == to_clip_name@,
                (Some(f), Some(t)) => r matches Ok(c) && c.from_clip == f && c.to_clip == t
                    && c.elapsed.bits == 0 && c.duration.bits == f32_max(
                    duration.bits,
                    MIN_CROSSFADE_DURATION_BITS,
                ),
            },
    {
        proof {
            assert(animation.clips.len() == animation.clips@.len());
            lemma_first_clip_named_from(animation.clips@, to_clip_name@, 0);
        }
        let from_clip = match playback.active_clip {
            Some(index) => index,
            None => {
                return Err(VatClipResolveError::UnresolvedPlaybackClip);
            },
        };
        let to_clip = match animation.resolve_clip_selection(
            &VatClipSelection::Name(to_clip_name.to_owned()),
        ) {
            Ok(index) => index,
            Err(error) => {
                return Err(error);
            },
        };
        Ok(VatCrossfade::new(from_clip, to_clip, duration))
    }
}

impl VatPlaybackFollower {
    /// Follows `leader` with no time offset, mirroring loop mode and crossfades.
    pub fn new(leader: u64) -> (r: Self)
        ensures
            r.leader == leader,
            r.time_offset_seconds.bits == 0,
            r.mirror_loop_mode,
            r.mirror_crossfade,
    {
        VatPlaybackFollower {
            leader,
            time_offset_seconds: F32Bits::zero(),
            mirror_loop_mode: true,
            mirror_crossfade: true,
        }
    }

    /// Sets the signed clip-local offset from the leader's time.
    pub fn with_time_offset_seconds(self, time_offset_seconds: F32Bits) -> (r: Self)
        ensures
            r == (VatPlaybackFollower { time_offset_seconds, ..self }),
    {
        VatPlaybackFollower { time_offset_seconds, ..self }
    }

    /// Keeps the follower's own loop mode.
    pub fn without_loop_mode_sync(self) -> (r: Self)
        ensures
            r == (VatPlaybackFollower { mirror_loop_mode: false, ..self }),
    {
        VatPlaybackFollower { mirror_loop_mode: false, ..self }
    }

    /// Does not mirror the leader's crossfades.
    pub fn without_crossfade_sync(self) -> (r: Self)
        ensures
            r == (VatPlaybackFollower { mirror_crossfade: false, ..self }),
    {
        VatPlaybackFollower { mirror_crossfade: false, ..self }
    }
}

} // verus!
