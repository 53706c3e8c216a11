//! The rules a bake's metadata and its proxy mesh must meet.
use vstd::prelude::*;

use crate::asset::{
    VatAnimationData, VatAnimationMode, VatClip, VatClipEvent, VatCoordinateSystem,
    VatNormalTexture, VatPlaybackSpace, VatTextureDescriptor,
};
use crate::components::VatBoundsMode;
use crate::text::{decimal, decimal_text};
use crate::float_bits::{
    f32_le, f32_neg, vec3_all_le, vec3_is_finite, F32Bits, Vec3Bits, POSITIVE_ZERO_BITS,
};

verus! {

/// Why metadata cannot be played.
#[derive(Clone, Debug, PartialEq)]
pub enum VatValidationError {
    InvalidFramesPerSecond,
    InvalidFrameCount,
    InvalidVertexCount,
    MissingClips,
    InvalidClipRange { clip_name: String },
    ClipOutOfBounds { clip_name: String },
    EventOutOfBounds { clip_name: String, event_name: String },
    PositionTextureTooSmall { vertex_count: u32, capacity: u32 },
    InvalidPositionTextureLayout { height: u32, rows_per_frame: u32, frame_count: u32 },
    UnsupportedCoordinateSystem(String),
    InvalidDecodeBounds,
    InvalidAnimationBounds,
    InvalidNormalTextureLayout,
    InvalidPackedNormalRowOffset,
    UnsupportedAnimationMode,
}

/// What a validation error says.
pub open spec fn validation_message(e: VatValidationError) -> Seq<char> {
    match e {
        VatValidationError::InvalidFramesPerSecond => "frames_per_second must be greater than zero"@,
        VatValidationError::InvalidFrameCount => "frame_count must be greater than zero"@,
        VatValidationError::InvalidVertexCount => "vertex_count must be greater than zero"@,
        VatValidationError::MissingClips => "metadata must define at least one clip"@,
        VatValidationError::InvalidClipRange { clip_name } => "clip '"@ + clip_name@
            + "' starts after it ends"@,
        VatValidationError::ClipOutOfBounds { clip_name } => "clip '"@ + clip_name@
            + "' is outside the baked frame range"@,
        VatValidationError::EventOutOfBounds { clip_name, event_name } => "clip '"@ + clip_name@
            + "' contains event '"@ + event_name@ + "' outside the clip frame range"@,
        VatValidationError::PositionTextureTooSmall { vertex_count, capacity } =>
            "position texture layout cannot store "@ + decimal_text(vertex_count as nat)
            + " vertices in "@ + decimal_text(capacity as nat) + " texels per frame"@,
        VatValidationError::InvalidPositionTextureLayout { height, rows_per_frame, frame_count } =>
            "position texture height/rows_per_frame do not cover all baked frames (height="@
            + decimal_text(height as nat) + ", rows_per_frame="@ + decimal_text(
            rows_per_frame as nat,
        ) + ", frame_count="@ + decimal_text(frame_count as nat) + ")"@,
        VatValidationError::UnsupportedCoordinateSystem(name) => "unsupported coordinate system '"@
            + name@ + "'"@,
        VatValidationError::InvalidDecodeBounds => "decode bounds are invalid or non-finite"@,
        VatValidationError::InvalidAnimationBounds => "animation bounds are invalid or non-finite"@,
        VatValidationError::InvalidNormalTextureLayout =>
            "separate normal texture height/rows_per_frame do not match the frame count"@,
        VatValidationError::InvalidPackedNormalRowOffset =>
            "packed normals require a non-zero row_offset"@,
        VatValidationError::UnsupportedAnimationMode =>
            "rigid-body VAT metadata is present, but the v0.1 runtime only supports fixed-topology soft-body VAT"@,
    }
}

impl VatValidationError {
    /// What the error says.
    pub fn message(&self) -> (r: String)
        ensures
            r@ == validation_message(*self),
    {
        match self {
            VatValidationError::InvalidFramesPerSecond => String::from_str(
                "frames_per_second must be greater than zero",
            ),
            VatValidationError::InvalidFrameCount => String::from_str(
                "frame_count must be greater than zero",
            ),
            VatValidationError::InvalidVertexCount => String::from_str(
                "vertex_count must be greater than zero",
            ),
            VatValidationError::MissingClips => String::from_str(
                "metadata must define at least one clip",
            ),
            VatValidationError::InvalidClipRange { clip_name } => {
                let mut out = String::from_str("clip '");
                out.append(clip_name.as_str());
                out.append("' starts after it ends");
                out
            },
            VatValidationError::ClipOutOfBounds { clip_name } => {
                let mut out = String::from_str("clip '");
                out.append(clip_name.as_str());
                out.append("' is outside the baked frame range");
                out
            },
            VatValidationError::EventOutOfBounds { clip_name, event_name } => {
                let mut out = String::from_str("clip '");
                out.append(clip_name.as_str());
                out.append("' contains event '");
                out.append(event_name.as_str());
                out.append("' outside the clip frame range");
                out
            },
            VatValidationError::PositionTextureTooSmall { vertex_count, capacity } => {
                let mut out = String::from_str("position texture layout cannot store ");
                out.append(decimal(*vertex_count).as_str());
                out.append(" vertices in ");
                out.append(decimal(*capacity).as_str());
                out.append(" texels per frame");
                out
            },
            VatValidationError::InvalidPositionTextureLayout {
                height,
                rows_per_frame,
                frame_count,
            } => {
                let mut out = String::from_str(
                    "position texture height/rows_per_frame do not cover all baked frames (height=",
                );
                out.append(decimal(*height).as_str());
                out.append(", rows_per_frame=");
                out.append(decimal(*rows_per_frame).as_str());
                out.append(", frame_count=");
                out.append(decimal(*frame_count).as_str());
                out.append(")");
                out
            },
            VatValidationError::UnsupportedCoordinateSystem(name) => {
                let mut out = String::from_str("unsupported coordinate system '");
                out.append(name.as_str());
                out.append("'");
                out
            },
            VatValidationError::InvalidDecodeBounds => String::from_str(
                "decode bounds are invalid or non-finite",
            ),
            VatValidationError::InvalidAnimationBounds => String::from_str(
                "animation bounds are invalid or non-finite",
            ),
            VatValidationError::InvalidNormalTextureLayout => String::from_str(
                "separate normal texture height/rows_per_frame do not match the frame count",
            ),
            VatValidationError::InvalidPackedNormalRowOffset => String::from_str(
                "packed normals require a non-zero row_offset",
            ),
            VatValidationError::UnsupportedAnimationMode => String::from_str(
                "rigid-body VAT metadata is present, but the v0.1 runtime only supports fixed-topology soft-body VAT",
            ),
        }
    }
}

/// Bounds are finite and ordered componentwise.
pub open spec fn bounds_valid(min: Vec3Bits, max: Vec3Bits) -> bool {
    vec3_is_finite(min) && vec3_is_finite(max) && vec3_all_le(min, max)
}

/// Texels per frame of the position texture.
pub open spec fn position_capacity(a: VatAnimationData) -> int {
    a.position_texture.width * a.position_texture.rows_per_frame
}

/// A texture's height and rows per frame cover `frame_count` frames.
pub open spec fn texture_covers_frames(t: VatTextureDescriptor, frame_count: u32) -> bool {
    t.rows_per_frame != 0 && t.width != 0 && t.height >= t.rows_per_frame * frame_count
}

/// The index of the first event at or after `from` past the clip's frames.
pub open spec fn first_event_past_from(events: Seq<VatClipEvent>, clip_frames: int, from: int) -> Option<
    int,
>
    decreases events.len() - from,
{
    if 0 <= from < events.len() {
        if events[from].frame >= clip_frames {
            Some(from)
        } else {
            first_event_past_from(events, clip_frames, from + 1)
        }
    } else {
        None
    }
}

/// What is wrong with one clip against `frame_count` baked frames, if anything.
pub open spec fn clip_error(clip: VatClip, frame_count: u32) -> Option<VatValidationError> {
    if clip.start_frame > clip.end_frame {
        Some(VatValidationError::InvalidClipRange { clip_name: clip.name })
    } else if clip.end_frame >= frame_count {
        Some(VatValidationError::ClipOutOfBounds { clip_name: clip.name })
    } else {
        match first_event_past_from(
            clip.events@,
            clip.end_frame - clip.start_frame + 1,
            0,
        ) {
            Some(k) => Some(
                VatValidationError::EventOutOfBounds {
                    clip_name: clip.name,
                    event_name: clip.events@[k].name,
                },
            ),
            None => None,
        }
    }
}

/// The error of the first faulty clip at or after `from`.
pub open spec fn first_clip_error_from(clips: Seq<VatClip>, frame_count: u32, from: int) -> Option<
    VatValidationError,
>
    decreases clips.len() - from,
{
    if 0 <= from < clips.len() {
        match clip_error(clips[from], frame_count) {
            Some(e) => Some(e),
            None => first_clip_error_from(clips, frame_count, from + 1),
        }
    } else {
        None
    }
}

/// What is wrong with the normal texture description, if anything.
pub open spec fn normal_texture_error(normal: VatNormalTexture, frame_count: u32) -> Option<
    VatValidationError,
> {
    match normal {
        VatNormalTexture::Absent => None,
        VatNormalTexture::PackedInPositionTexture { row_offset, .. } => {
            if row_offset == 0 {
                Some(VatValidationError::InvalidPackedNormalRowOffset)
            } else {
                None
            }
        },
        VatNormalTexture::Separate { texture, .. } => {
            if texture_covers_frames(texture, frame_count) {
                None
            } else {
                Some(VatValidationError::InvalidNormalTextureLayout)
            }
        },
    }
}

/// The rules in the order they are checked; the first one broken gives the error.
pub open spec fn validation_outcome(a: VatAnimationData) -> Result<(), VatValidationError> {
    if a.animation_mode != VatAnimationMode::SoftBodyFixedTopology {
        Err(VatValidationError::UnsupportedAnimationMode)
    } else if f32_le(a.frames_per_second.bits, POSITIVE_ZERO_BITS) {
        Err(VatValidationError::InvalidFramesPerSecond)
    } else if a.frame_count == 0 {
        Err(VatValidationError::InvalidFrameCount)
    } else if a.vertex_count == 0 {
        Err(VatValidationError::InvalidVertexCount)
    } else if a.clips@.len() == 0 {
        Err(VatValidationError::MissingClips)
    } else if !bounds_valid(a.decode_bounds_min, a.decode_bounds_max) {
        Err(VatValidationError::InvalidDecodeBounds)
    } else if !bounds_valid(a.animation_bounds_min, a.animation_bounds_max) {
        Err(VatValidationError::InvalidAnimationBounds)
    } else if position_capacity(a) < a.vertex_count {
        Err(
            VatValidationError::PositionTextureTooSmall {
                vertex_count: a.vertex_count,
                capacity: position_capacity(a) as u32,
            },
        )
    } else if !texture_covers_frames(a.position_texture, a.frame_count) {
        Err(
            VatValidationError::InvalidPositionTextureLayout {
                height: a.position_texture.height,
                rows_per_frame: a.position_texture.rows_per_frame,
                frame_count: a.frame_count,
            },
        )
    } else {
        match first_clip_error_from(a.clips@, a.frame_count, 0) {
            Some(e) => Err(e),
            None => match normal_texture_error(a.normal_texture, a.frame_count) {
                Some(e) => Err(e),
                None => Ok(()),
            },
        }
    }
}

/// The checks before the texture layout pass.
pub open spec fn passes_header_checks(a: VatAnimationData) -> bool {
    &&& a.animation_mode == VatAnimationMode::SoftBodyFixedTopology
    &&& !f32_le(a.frames_per_second.bits, POSITIVE_ZERO_BITS)
    &&& a.frame_count != 0
    &&& a.vertex_count != 0
    &&& a.clips@.len() != 0
    &&& bounds_valid(a.decode_bounds_min, a.decode_bounds_max)
    &&& bounds_valid(a.animation_bounds_min, a.animation_bounds_max)
}

proof fn lemma_first_event_past_from(events: Seq<VatClipEvent>, clip_frames: int, from: int)
    requires
        0 <= from,
    ensures
        match first_event_past_from(events, clip_frames, from) {
            Some(k) => from <= k < events.len() && events[k].frame >= clip_frames && forall|j: int|
                from <= j < k ==> #[trigger] events[j].frame < clip_frames,
            None => forall|j: int| from <= j < events.len() ==> #[trigger] events[j].frame < clip_frames,
        },
    decreases events.len() - from,
{
    if from < events.len() && events[from].frame < clip_frames {
        lemma_first_event_past_from(events, clip_frames, from + 1);
    }
}

proof fn lemma_first_clip_error_from(clips: Seq<VatClip>, frame_count: u32, from: int)
    requires
        0 <= from,
    ensures
        first_clip_error_from(clips, frame_count, from) is None <==> forall|j: int|
            from <= j < clips.len() ==> #[trigger] clip_error(clips[j], frame_count) is None,
    decreases clips.len() - from,
{
    if from < clips.len() {
        lemma_first_clip_error_from(clips, frame_count, from + 1);
        if clip_error(clips[from], frame_count) is None {
            if first_clip_error_from(clips, frame_count, from + 1) is None {
                assert forall|j: int| from <= j < clips.len() implies #[trigger] clip_error(
                    clips[j],
                    frame_count,
                ) is None by {
                    if j != from {
                        assert(from + 1 <= j < clips.len());
                    }
                }
            }
        }
    }
}

/// A product of two `u32` values fits in `u64`.
proof fn lemma_u32_product_fits_u64(a: u32, b: u32)
    ensures
        a * b <= u64::MAX,
{
    assert(a * b <= 0xFFFF_FFFF * 0xFFFF_FFFF) by (nonlinear_arith)
        requires
            a <= 0xFFFF_FFFF,
            b <= 0xFFFF_FFFF,
    ;
}

/// A clip passes its checks.
pub open spec fn clip_is_valid(clip: VatClip, frame_count: u32) -> bool {
    &&& clip.start_frame <= clip.end_frame
    &&& clip.end_frame < frame_count
    &&& forall|k: int|
        0 <= k < clip.events@.len() ==> #[trigger] clip.events@[k].frame <= clip.end_frame
            - clip.start_frame
}

/// Metadata is accepted exactly when every rule holds: a fixed-topology
/// soft-body bake, a frame rate that is not `<= 0.0`, at least one frame,
/// vertex and clip, finite ordered decode and animation bounds, a position
/// texture with a texel per vertex in each frame and rows for every frame,
/// clips inside the baked frames with their events inside the clip, and a
/// usable normal texture description.
pub proof fn lemma_validation_accepts_exactly(a: VatAnimationData)
    ensures
        validation_outcome(a) is Ok <==> {
            &&& passes_header_checks(a)
            &&& position_capacity(a) >= a.vertex_count
            &&& texture_covers_frames(a.position_texture, a.frame_count)
            &&& forall|i: int| 0 <= i < a.clips@.len() ==> #[trigger] clip_is_valid(a.clips@[i], a.frame_count)
            &&& normal_texture_error(a.normal_texture, a.frame_count) is None
        },
{
    lemma_first_clip_error_from(a.clips@, a.frame_count, 0);
    assert forall|i: int| 0 <= i < a.clips@.len() implies (clip_error(a.clips@[i], a.frame_count)
        is None <==> clip_is_valid(a.clips@[i], a.frame_count)) by {
        let c = a.clips@[i];
        if c.start_frame <= c.end_frame && c.end_frame < a.frame_count {
            lemma_first_event_past_from(c.events@, c.end_frame - c.start_frame + 1, 0);
        }
    }
    if first_clip_error_from(a.clips@, a.frame_count, 0) is None {
        assert forall|i: int| 0 <= i < a.clips@.len() implies #[trigger] clip_is_valid(
            a.clips@[i],
            a.frame_count,
        ) by {
            assert(clip_error(a.clips@[i], a.frame_count) is None);
        }
    } else {
        let j = choose|j: int|
            0 <= j < a.clips@.len() && #[trigger] clip_error(a.clips@[j], a.frame_count) is Some;
        assert(!clip_is_valid(a.clips@[j], a.frame_count));
    }
}

/// Checks one clip against `frame_count` baked frames.
#[verifier::loop_isolation(false)]
fn check_clip(clip: &VatClip, frame_count: u32) -> (r: Option<VatValidationError>)
    ensures
        r == clip_error(*clip, frame_count),
{
    if clip.start_frame > clip.end_frame {
        return Some(VatValidationError::InvalidClipRange { clip_name: clip.name.clone() });
    }
    if clip.end_frame >= frame_count {
        return Some(VatValidationError::ClipOutOfBounds { clip_name: clip.name.clone() });
    }
    let clip_frames = clip.frame_count();
    let mut k: usize = 0;
    while k < clip.events.len()
        invariant
            k <= clip.events@.len(),
            clip_frames == clip.end_frame - clip.start_frame + 1,
            first_event_past_from(clip.events@, clip_frames as int, 0) == first_event_past_from(
                clip.events@,
                clip_frames as int,
                k as int,
            ),
        decreases clip.events@.len() - k,
    {
        if clip.events[k].frame >= clip_frames {
            assert(first_event_past_from(clip.events@, clip_frames as int, k as int) == Some(
                k as int,
            ));
            let clip_name = clip.name.clone();
            let event_name = clip.events[k].name.clone();
            assert(clip_name == clip.name);
            assert(event_name == clip.events@[k as int].name);
            let error = VatValidationError::EventOutOfBounds { clip_name, event_name };
            assert(clip_error(*clip, frame_count) == Some(error));
            return Some(error);
        }
        k = k + 1;
    }
    None
}

/// Checks `animation` against the metadata rules, in order.
#[verifier::loop_isolation(false)]
pub fn validate_animation_data(animation: &VatAnimationData) -> (r: Result<(), VatValidationError>)
    ensures
        r == validation_outcome(*animation),
{
    if !animation.supports_v1_runtime() {
        return Err(VatValidationError::UnsupportedAnimationMode);
    }
    if animation.frames_per_second.le(F32Bits::zero()) {
        return Err(VatValidationError::InvalidFramesPerSecond);
    }
    if animation.frame_count == 0 {
        return Err(VatValidationError::InvalidFrameCount);
    }
    if animation.vertex_count == 0 {
        return Err(VatValidationError::InvalidVertexCount);
    }
    if animation.clips.len() == 0 {
        return Err(VatValidationError::MissingClips);
    }
    if !valid_bounds(animation.decode_bounds_min, animation.decode_bounds_max) {
        return Err(VatValidationError::InvalidDecodeBounds);
    }
    if !valid_bounds(animation.animation_bounds_min, animation.animation_bounds_max) {
        return Err(VatValidationError::InvalidAnimationBounds);
    }
    let position = &animation.position_texture;
    proof {
        lemma_u32_product_fits_u64(position.width, position.rows_per_frame);
        lemma_u32_product_fits_u64(position.rows_per_frame, animation.frame_count);
    }
    // Products are taken in `u64`, where two `u32` factors always fit.
    let capacity = position.width as u64 * position.rows_per_frame as u64;
    if capacity < animation.vertex_count as u64 {
        return Err(
            VatValidationError::PositionTextureTooSmall {
                vertex_count: animation.vertex_count,
                capacity: capacity as u32,
            },
        );
    }
    if position.rows_per_frame == 0 || position.width == 0 || (position.height as u64)
        < position.rows_per_frame as u64 * animation.frame_count as u64 {
        return Err(
            VatValidationError::InvalidPositionTextureLayout {
                height: position.height,
                rows_per_frame: position.rows_per_frame,
                frame_count: animation.frame_count,
            },
        );
    }
    let mut i: usize = 0;
    while i < animation.clips.len()
        invariant
            i <= animation.clips@.len(),
            first_clip_error_from(animation.clips@, animation.frame_count, 0)
                == first_clip_error_from(animation.clips@, animation.frame_count, i as int),
        decreases animation.clips@.len() - i,
    {
        match check_clip(&animation.clips[i], animation.frame_count) {
            Some(error) => {
                assert(first_clip_error_from(animation.clips@, animation.frame_count, i as int)
                    == Some(error));
                return Err(error);
            },
            None => {},
        }
        i = i + 1;
    }
    match &animation.normal_texture {
        VatNormalTexture::Absent => {},
        VatNormalTexture::PackedInPositionTexture { row_offset, .. } => {
            if *row_offset == 0 {
                return Err(VatValidationError::InvalidPackedNormalRowOffset);
            }
        },
        VatNormalTexture::Separate { texture, .. } => {
            proof {
                lemma_u32_product_fits_u64(texture.rows_per_frame, animation.frame_count);
            }
            if texture.rows_per_frame == 0 || texture.width == 0 || (texture.height as u64)
                < texture.rows_per_frame as u64 * animation.frame_count as u64 {
                return Err(VatValidationError::InvalidNormalTextureLayout);
            }
        },
    }
    Ok(())
}

/// Whether `min`/`max` are finite and `min <= max` componentwise.
pub fn valid_bounds(min: Vec3Bits, max: Vec3Bits) -> (r: bool)
    ensures
        r == bounds_valid(min, max),
        r ==> f32_le(min.x.bits, max.x.bits) && f32_le(min.y.bits, max.y.bits) && f32_le(
            min.z.bits,
            max.z.bits,
        ),
{
    min.is_finite() && max.is_finite() && min.all_le(max)
}

/// `value` in the renderer's Y-up basis.
pub open spec fn converted_coordinates(value: Vec3Bits, coordinate_system: VatCoordinateSystem) -> Vec3Bits {
    match coordinate_system {
        VatCoordinateSystem::YUpRightHanded => value,
        VatCoordinateSystem::ZUpRightHanded => Vec3Bits {
            x: value.x,
            y: value.z,
            z: F32Bits { bits: f32_neg(value.y.bits) },
        },
    }
}

/// Converts a source-space vector to the Y-up basis: Z-up `(x, y, z)` becomes `(x, z, -y)`.
pub fn convert_coordinate_system(value: Vec3Bits, coordinate_system: VatCoordinateSystem) -> (r:
    Vec3Bits)
    ensures
        r == converted_coordinates(value, coordinate_system),
{
    match coordinate_system {
        VatCoordinateSystem::YUpRightHanded => value,
        VatCoordinateSystem::ZUpRightHanded => Vec3Bits::new(value.x, value.z, value.y.neg()),
    }
}

/// Whether the renderer must not cull this entity by its bounds.
pub fn should_disable_frustum_culling(animation: &VatAnimationData, bounds_mode: VatBoundsMode) -> (r:
    bool)
    ensures
        r == (bounds_mode == VatBoundsMode::DisableFrustumCulling || animation.playback_space
            == VatPlaybackSpace::World || animation.animation_mode == VatAnimationMode::RigidBody),
{
    matches!(bounds_mode, VatBoundsMode::DisableFrustumCulling) || matches!(
        animation.playback_space,
        VatPlaybackSpace::World,
    ) || matches!(animation.animation_mode, VatAnimationMode::RigidBody)
}

impl VatAnimationData {
    /// Checks the metadata rules; see `validate_animation_data`.
    pub fn validate(&self) -> (r: Result<(), VatValidationError>)
        ensures
            r == validation_outcome(*self),
    {
        validate_animation_data(self)
    }
}

/// Why a proxy mesh cannot carry a bake.
#[derive(Clone, Debug, PartialEq)]
pub enum VatMeshValidationError {
    MissingPosition,
    MissingNormal,
    MissingUv0,
    MissingUv1,
    VertexCountMismatch { mesh_vertex_count: usize, metadata_vertex_count: u32 },
    InvalidUv1Format,
    VertexIdMismatch { metadata_vertex_count: u32 },
}

/// What the mesh rules read of a proxy mesh: which attributes it has, its
/// vertex count and, when its UV1 channel holds two floats per vertex, the
/// texel (column, row) of the first frame that each vertex looks up.
#[derive(Clone, Debug, PartialEq)]
pub struct VatMeshSummary {
    pub has_position: bool,
    pub has_normal: bool,
    pub has_uv0: bool,
    pub has_uv1: bool,
    pub vertex_count: usize,
    pub uv1_texels: Option<Vec<(i32, i32)>>,
}

/// The mesh rules in the order they are checked; the first one broken gives the error.
pub open spec fn mesh_validation_outcome(mesh: VatMeshSummary, a: VatAnimationData) -> Result<
    (),
    VatMeshValidationError,
> {
    if !mesh.has_position {
        Err(VatMeshValidationError::MissingPosition)
    } else if !mesh.has_normal {
        Err(VatMeshValidationError::MissingNormal)
    } else if !mesh.has_uv0 {
        Err(VatMeshValidationError::MissingUv0)
    } else if !mesh.has_uv1 {
        Err(VatMeshValidationError::MissingUv1)
    } else if mesh.vertex_count != a.vertex_count {
        Err(
            VatMeshValidationError::VertexCountMismatch {
                mesh_vertex_count: mesh.vertex_count,
                metadata_vertex_count: a.vertex_count,
            },
        )
    } else {
        match mesh.uv1_texels {
            None => Err(VatMeshValidationError::InvalidUv1Format),
            Some(texels) => if texels@.to_set().len() != a.vertex_count {
                Err(
                    VatMeshValidationError::VertexIdMismatch {
                        metadata_vertex_count: a.vertex_count,
                    },
                )
            } else {
                Ok(())
            },
        }
    }
}

/// A distinct 64-bit number for each texel.
pub open spec fn texel_key(texel: (i32, i32)) -> int {
    (texel.0 + 0x8000_0000) * 0x1_0000_0000 + (texel.1 + 0x8000_0000)
}

proof fn lemma_texel_key_injective(a: (i32, i32), b: (i32, i32))
    requires
        texel_key(a) == texel_key(b),
    ensures
        a == b,
{
    let ha = a.0 + 0x8000_0000;
    let hb = b.0 + 0x8000_0000;
    let la = a.1 + 0x8000_0000;
    let lb = b.1 + 0x8000_0000;
    assert(ha == hb) by (nonlinear_arith)
        requires
            ha * 0x1_0000_0000 + la == hb * 0x1_0000_0000 + lb,
            0 <= la < 0x1_0000_0000,
            0 <= lb < 0x1_0000_0000,
    ;
}

fn texel_key_u64(texel: (i32, i32)) -> (k: u64)
    ensures
        k == texel_key(texel),
{
    let column = (texel.0 as i64 + 0x8000_0000) as u64;
    let row = (texel.1 as i64 + 0x8000_0000) as u64;
    column * 0x1_0000_0000 + row
}

/// The number of distinct texels in `texels`.
pub fn count_distinct_texels(texels: &Vec<(i32, i32)>) -> (n: usize)
    ensures
        n == texels@.to_set().len(),
{
    let mut seen: std::collections::HashSet<u64> = std::collections::HashSet::with_capacity(
        texels.len(),
    );
    let ghost mut distinct: Set<(i32, i32)> = Set::empty();
    let mut count: usize = 0;
    let mut i: usize = 0;
    while i < texels.len()
        invariant
            i <= texels@.len(),
            distinct == texels@.take(i as int).to_set(),
            distinct.finite(),
            count == distinct.len(),
            count <= i,
            forall|p: (i32, i32)| #[trigger]
                distinct.contains(p) <==> seen@.contains(texel_key(p) as u64),
        decreases texels@.len() - i,
    {
        let texel = texels[i];
        let key = texel_key_u64(texel);
        proof {
            assert(texels@.take(i + 1).to_set() =~= distinct.insert(texel)) by {
                assert forall|p: (i32, i32)| #[trigger]
                    texels@.take(i + 1).to_set().contains(p) <==> distinct.insert(texel).contains(
                    p,
                ) by {
                    if texels@.take(i + 1).contains(p) {
                        let j = choose|j: int| 0 <= j < i + 1 && #[trigger] texels@.take(i + 1)[j] == p;
                        if j < i {
                            assert(texels@.take(i as int)[j] == p);
                        }
                    }
                    if distinct.contains(p) {
                        let j = choose|j: int| 0 <= j < i && #[trigger] texels@.take(i as int)[j] == p;
                        assert(texels@.take(i + 1)[j] == p);
                    }
                    if p == texel {
                        assert(texels@.take(i + 1)[i as int] == p);
                    }
                }
            }
            assert forall|p: (i32, i32)| texel_key(p) as u64 == key implies p == texel by {
                lemma_texel_key_injective(p, texel);
            }
        }
        let fresh = seen.insert(key);
        if fresh {
            count = count + 1;
        }
        proof {
            distinct = distinct.insert(texel);
            assert forall|p: (i32, i32)| #[trigger]
                distinct.contains(p) <==> seen@.contains(texel_key(p) as u64) by {
                if p != texel && texel_key(p) as u64 == key {
                    lemma_texel_key_injective(p, texel);
                }
            }
        }
        i = i + 1;
    }
    proof {
        assert(texels@.take(texels@.len() as int) =~= texels@);
    }
    count
}

/// Checks a proxy mesh against the bake's metadata, in order.
pub fn validate_mesh_summary(mesh: &VatMeshSummary, animation: &VatAnimationData) -> (r: Result<
    (),
    VatMeshValidationError,
>)
    ensures
        r == mesh_validation_outcome(*mesh, *animation),
{
    if !mesh.has_position {
        return Err(VatMeshValidationError::MissingPosition);
    }
    if !mesh.has_normal {
        return Err(VatMeshValidationError::MissingNormal);
    }
    if !mesh.has_uv0 {
        return Err(VatMeshValidationError::MissingUv0);
    }
    if !mesh.has_uv1 {
        return Err(VatMeshValidationError::MissingUv1);
    }
    if mesh.vertex_count != animation.vertex_count as usize {
        return Err(
            VatMeshValidationError::VertexCountMismatch {
                mesh_vertex_count: mesh.vertex_count,
                metadata_vertex_count: animation.vertex_count,
            },
        );
    }
    match &mesh.uv1_texels {
        None => Err(VatMeshValidationError::InvalidUv1Format),
        Some(texels) => {
            if count_distinct_texels(texels) != animation.vertex_count as usize {
                Err(
                    VatMeshValidationError::VertexIdMismatch {
                        metadata_vertex_count: animation.vertex_count,
                    },
                )
            } else {
                Ok(())
            }
        },
    }
}

} // verus!
