//! The runtime description of a vertex animation texture bake.
use vstd::prelude::*;

use crate::components::{VatClipSelection, VatLoopMode};
use crate::float_bits::{F32Bits, Vec3Bits};
use crate::text::text_eq;

verus! {

/// A baked animation: layout of the data textures, clips and decode rules.
#[derive(Clone, Debug, PartialEq)]
pub struct VatAnimationData {
    pub source_format: VatSourceFormat,
    pub animation_mode: VatAnimationMode,
    pub vertex_count: u32,
    pub frame_count: u32,
    pub frames_per_second: F32Bits,
    pub decode_bounds_min: Vec3Bits,
    pub decode_bounds_max: Vec3Bits,
    pub animation_bounds_min: Vec3Bits,
    pub animation_bounds_max: Vec3Bits,
    pub clips: Vec<VatClip>,
    pub position_texture: VatTextureDescriptor,
    pub normal_texture: VatNormalTexture,
    pub rotation_texture: Option<VatTextureDescriptor>,
    pub auxiliary_textures: Vec<VatAuxTextureDescriptor>,
    pub coordinate_system: VatCoordinateSystem,
    pub playback_space: VatPlaybackSpace,
    pub vertex_id_attribute: VatVertexIdAttribute,
    pub position_encoding: VatPositionEncoding,
}

/// A named range of baked frames, inclusive at both ends.
#[derive(Clone, Debug, PartialEq)]
pub struct VatClip {
    pub name: String,
    pub start_frame: u32,
    pub end_frame: u32,
    pub default_loop_mode: Option<VatLoopMode>,
    pub events: Vec<VatClipEvent>,
}

/// A named marker on a clip-local frame.
#[derive(Clone, Debug, PartialEq)]
pub struct VatClipEvent {
    pub name: String,
    pub frame: u32,
}

/// Size and layout of one data texture.
#[derive(Clone, Debug, PartialEq)]
pub struct VatTextureDescriptor {
    pub relative_path: Option<String>,
    pub width: u32,
    pub height: u32,
    pub rows_per_frame: u32,
    pub precision: VatTexturePrecision,
}

/// Where animated normals come from.
#[derive(Clone, Debug, PartialEq)]
pub enum VatNormalTexture {
    /// No animated normals (the mesh keeps its own).
    Absent,
    PackedInPositionTexture { row_offset: u32, encoding: VatNormalEncoding },
    Separate { texture: VatTextureDescriptor, encoding: VatNormalEncoding },
}

/// A texture beyond positions and normals, with what it holds.
#[derive(Clone, Debug, PartialEq)]
pub struct VatAuxTextureDescriptor {
    pub semantic: VatAuxTextureSemantic,
    pub texture: VatTextureDescriptor,
}

#[derive(Clone, Copy, Debug, Default, PartialEq, Eq, Structural, Hash)]
pub enum VatSourceFormat {
    #[default]
    Canonical,
    OpenVat,
}

#[derive(Clone, Copy, Debug, Default, PartialEq, Eq, Structural, Hash)]
pub enum VatAnimationMode {
    #[default]
    SoftBodyFixedTopology,
    RigidBody,
}

#[derive(Clone, Copy, Debug, Default, PartialEq, Eq, Structural, Hash)]
pub enum VatCoordinateSystem {
    #[default]
    YUpRightHanded,
    ZUpRightHanded,
}

#[derive(Clone, Copy, Debug, Default, PartialEq, Eq, Structural, Hash)]
pub enum VatPlaybackSpace {
    #[default]
    Local,
    World,
}

#[derive(Clone, Copy, Debug, Default, PartialEq, Eq, Structural, Hash)]
pub enum VatVertexIdAttribute {
    #[default]
    Uv1,
}

#[derive(Clone, Copy, Debug, Default, PartialEq, Eq, Structural, Hash)]
pub enum VatPositionEncoding {
    #[default]
    AbsoluteNormalizedBounds,
    OffsetNormalizedBounds,
}

#[derive(Clone, Copy, Debug, Default, PartialEq, Eq, Structural, Hash)]
pub enum VatNormalEncoding {
    #[default]
    SignedNormalized,
}

#[derive(Clone, Copy, Debug, Default, PartialEq, Eq, Structural, Hash)]
pub enum VatTexturePrecision {
    #[default]
    ExrHalf,
    Png16,
    Png8,
}

#[derive(Clone, Copy, Debug, Default, PartialEq, Eq, Structural, Hash)]
pub enum VatAuxTextureSemantic {
    Emission,
    Opacity,
    #[default]
    Scalar,
}

/// Why a clip selection names no clip of the metadata.
#[derive(Clone, Debug, PartialEq)]
pub enum VatClipResolveError {
    /// The metadata defines no clips, so it has no default clip.
    NoClips,
    /// The index is past the end of the clip list.
    ClipIndexOutOfRange { requested: usize, clip_count: usize },
    /// No clip carries the name.
    UnknownClipName(String),
    /// The playback has no resolved clip to start from.
    UnresolvedPlaybackClip,
}

/// The index of the first clip at or after `from` whose name is `name`.
pub open spec fn first_clip_named_from(clips: Seq<VatClip>, name: Seq<char>, from: int) -> Option<int>
    decreases clips.len() - from,
{
    if 0 <= from < clips.len() {
        if clips[from].name@ == name {
            Some(from)
        } else {
            first_clip_named_from(clips, name, from + 1)
        }
    } else {
        None
    }
}

/// The index of the first clip whose name is `name`.
pub open spec fn first_clip_named(clips: Seq<VatClip>, name: Seq<char>) -> Option<int> {
    first_clip_named_from(clips, name, 0)
}

/// `r` is what resolving the clip name `name` gives: the first clip so
/// named, or the error that carries the name.
pub open spec fn named_clip_result(
    clips: Seq<VatClip>,
    name: Seq<char>,
    r: Result<usize, VatClipResolveError>,
) -> bool {
    match first_clip_named(clips, name) {
        Some(i) => r == Ok::<usize, VatClipResolveError>(i as usize),
        None => r matches Err(VatClipResolveError::UnknownClipName(n)) && n@ == name,
    }
}

/// What a clip selection resolves to against a clip list.
pub open spec fn clip_selection_result(clips: Seq<VatClip>, selection: VatClipSelection) -> Result<
    usize,
    VatClipResolveError,
> {
    match selection {
        VatClipSelection::MetadataDefault => {
            if clips.len() > 0 {
                Ok(0)
            } else {
                Err(VatClipResolveError::NoClips)
            }
        },
        VatClipSelection::Index(index) => {
            if index < clips.len() {
                Ok(index)
            } else {
                Err(
                    VatClipResolveError::ClipIndexOutOfRange {
                        requested: index,
                        clip_count: clips.len() as usize,
                    },
                )
            }
        },
        VatClipSelection::Name(name) => {
            match first_clip_named(clips, name@) {
                Some(index) => Ok(index as usize),
                None => Err(VatClipResolveError::UnknownClipName(name)),
            }
        },
    }
}

/// `first_clip_named_from` finds a matching clip, and no earlier one from `from`.
pub proof fn lemma_first_clip_named_from(clips: Seq<VatClip>, name: Seq<char>, from: int)
    requires
        0 <= from,
    ensures
        match first_clip_named_from(clips, name, from) {
            Some(i) => from <= i < clips.len() && clips[i].name@ == name && forall|j: int|
                from <= j < i ==> #[trigger] clips[j].name@ != name,
            None => forall|j: int| from <= j < clips.len() ==> #[trigger] clips[j].name@ != name,
        },
    decreases clips.len() - from,
{
    if from < clips.len() {
        if clips[from].name@ != name {
            lemma_first_clip_named_from(clips, name, from + 1);
        }
    }
}

/// A selection that resolves names a clip of the list: the resolved index
/// is in range, and a name resolves to the first clip so named.
pub proof fn lemma_clip_selection_in_range(clips: Seq<VatClip>, selection: VatClipSelection)
    requires
        clips.len() <= usize::MAX,
    ensures
        clip_selection_result(clips, selection) matches Ok(i) ==> i < clips.len(),
        selection matches VatClipSelection::Name(name) ==> (clip_selection_result(
            clips,
            selection,
        ) matches Ok(i) ==> clips[i as int].name@ == name@ && forall|j: int|
            0 <= j < i ==> #[trigger] clips[j].name@ != name@),
{
    if let VatClipSelection::Name(name) = selection {
        lemma_first_clip_named_from(clips, name@, 0);
    }
}

impl VatClip {
    /// Number of frames in the clip, both ends included.
    pub fn frame_count(&self) -> (r: u32)
        requires
            self.start_frame <= self.end_frame,
            self.end_frame - self.start_frame < u32::MAX,
        ensures
            r == self.end_frame - self.start_frame + 1,
    {
        self.end_frame - self.start_frame + 1
    }
}

impl VatAnimationData {
    /// The clip at `clip_index`, if there is one.
    pub fn clip(&self, clip_index: usize) -> (r: Option<&VatClip>)
        ensures
            r == (if clip_index < self.clips@.len() {
                Some(&self.clips@[clip_index as int])
            } else {
                None
            }),
    {
        if clip_index < self.clips.len() {
            Some(&self.clips[clip_index])
        } else {
            None
        }
    }

    /// The index of the first clip named `name`.
    pub fn clip_index_by_name(&self, name: &str) -> (r: Option<usize>)
        ensures
            r == (match first_clip_named(self.clips@, name@) {
                Some(i) => Some(i as usize),
                None => None::<usize>,
            }),
    {
        let mut i: usize = 0;
        while i < self.clips.len()
            invariant
                i <= self.clips@.len(),
                first_clip_named(self.clips@, name@) == first_clip_named_from(
                    self.clips@,
                    name@,
                    i as int,
                ),
            decreases self.clips@.len() - i,
        {
            if text_eq(self.clips[i].name.as_str(), name) {
                return Some(i);
            }
            i = i + 1;
        }
        None
    }

    /// Texels of the position texture available to one frame.
    pub fn position_capacity_per_frame(&self) -> (r: u32)
        requires
            self.position_texture.width * self.position_texture.rows_per_frame <= u32::MAX,
        ensures
            r == self.position_texture.width * self.position_texture.rows_per_frame,
    {
        self.position_texture.width * self.position_texture.rows_per_frame
    }

    /// Whether decoded positions are world-space.
    pub fn uses_world_space(&self) -> (r: bool)
        ensures
            r == (self.playback_space == VatPlaybackSpace::World),
    {
        matches!(self.playback_space, VatPlaybackSpace::World)
    }

    /// Whether the runtime can play this bake (fixed-topology soft body only).
    pub fn supports_v1_runtime(&self) -> (r: bool)
        ensures
            r == (self.animation_mode == VatAnimationMode::SoftBodyFixedTopology),
    {
        matches!(self.animation_mode, VatAnimationMode::SoftBodyFixedTopology)
    }

    /// The clip index that `selection` names: the first clip for the
    /// metadata default, the index itself when it is in range, the first
    /// clip with the name.
    pub fn resolve_clip_selection(&self, selection: &VatClipSelection) -> (r: Result<
        usize,
        VatClipResolveError,
    >)
        ensures
            r == clip_selection_result(self.clips@, *selection),
    {
        match selection {
            VatClipSelection::MetadataDefault => {
                if self.clips.len() > 0 {
                    Ok(0)
                } else {
                    Err(VatClipResolveError::NoClips)
                }
            },
            VatClipSelection::Index(index) => {
                if *index < self.clips.len() {
                    Ok(*index)
                } else {
                    Err(
                        VatClipResolveError::ClipIndexOutOfRange {
                            requested: *index,
                            clip_count: self.clips.len(),
                        },
                    )
                }
            },
            VatClipSelection::Name(name) => {
                match self.clip_index_by_name(name.as_str()) {
                    Some(index) => Ok(index),
                    None => Err(VatClipResolveError::UnknownClipName(name.clone())),
                }
            },
        }
    }
}

} // verus!
